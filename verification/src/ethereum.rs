use vstd::prelude::*;

use crate::address::{is_chain_address, validate_chain_address};
use crate::encoding::copy_bytes;
use crate::errors::WalletError;
use crate::fees::{compute_fee, fee_ceiling, PRIORITY_FEE};
use crate::keys::PrivateKey;
use crate::models::{ChainInfo, Transaction};

verus! {

/// An assembled, not yet signed, native-value transfer.
pub struct UnsignedTransaction {
    pub from: String,
    pub to: String,
    /// The transfer amount, losslessly widened from the request's bounded
    /// integer into the chain's native value domain.
    pub value: u128,
    pub nonce: u64,
    pub chain_id: u64,
    pub gas: u128,
    pub max_fee_per_gas: u128,
    pub max_priority_fee_per_gas: u64,
}

impl UnsignedTransaction {
    /// A field-for-field copy.
    pub fn duplicate(&self) -> (r: Self)
        ensures
            r == *self,
    {
        UnsignedTransaction {
            from: self.from.clone(),
            to: self.to.clone(),
            value: self.value,
            nonce: self.nonce,
            chain_id: self.chain_id,
            gas: self.gas,
            max_fee_per_gas: self.max_fee_per_gas,
            max_priority_fee_per_gas: self.max_priority_fee_per_gas,
        }
    }
}

/// What the chain reports for a mined transaction's receipt.
pub struct ReceiptData {
    pub transaction_hash: Vec<u8>,
    pub status: u64,
    pub block_number: u64,
    pub gas_used: u128,
}

/// What the chain reports for a mined transaction.
pub struct TransactionData {
    pub hash: Vec<u8>,
    pub nonce: u64,
    pub block_number: u64,
}

/// The mined transaction and its receipt, as one chain family's answer.
pub struct EVMResponse {
    pub transaction: TransactionData,
    pub recepient: ReceiptData,
}

/// A transfer answer, tagged by chain family.
pub enum TXChain {
    EVM(EVMResponse),
}

/// The body a successful transfer endpoint answers with.
pub struct ChainResponse {
    pub chain: TXChain,
}

/// The once-per-submission record of a signed, mined transfer: its hash,
/// nonce, fee fields and receipt status. Returned to the caller, never
/// persisted.
pub struct SignedTransactionRecord {
    pub hash: Vec<u8>,
    pub nonce: u64,
    pub max_fee_per_gas: u128,
    pub max_priority_fee_per_gas: u64,
    pub receipt_status: u64,
}

/// A remote call the driver must perform next. Every suspension point of
/// the pipeline is one of these.
pub enum ChainAction {
    /// Fetch the most recent block; its base fee is the fee basis.
    FetchLatestBlock,
    /// Fetch the sender's current on-chain transaction count.
    FetchTransactionCount { address: String },
    /// Fetch the chain identifier of the endpoint.
    FetchChainId,
    /// Submit the draft shape for gas estimation.
    EstimateGas { from: String, to: String, value: u128, nonce: u64 },
    /// Sign locally with the reconstructed key and broadcast. The key
    /// leaves the pipeline here and must be discarded after signing.
    SignAndBroadcast { unsigned: UnsignedTransaction, key: PrivateKey },
    /// Wait for the broadcast transaction's receipt.
    AwaitReceipt,
    /// Look the mined transaction up by its hash.
    FetchTransaction { hash: Vec<u8> },
}

/// What the driver observed for the outstanding action.
pub enum ChainEvent {
    /// The latest block, with its base fee if the chain reports one.
    LatestBlock { base_fee: Option<u64> },
    /// The sender's transaction count.
    TransactionCount { nonce: u64 },
    /// The endpoint's chain identifier.
    ChainId { chain_id: u64 },
    /// The gas estimate, or `None` when the endpoint rejected the draft.
    GasEstimate { gas: Option<u128> },
    /// The broadcast was accepted into the mempool under this hash.
    Broadcast { hash: Vec<u8> },
    /// The receipt, or `None` when the transaction was dropped unmined.
    Receipt { receipt: Option<ReceiptData> },
    /// The mined transaction, or `None` when the node cannot produce it.
    MinedTransaction { transaction: Option<TransactionData> },
    /// The endpoint was unreachable or answered unusably.
    NetworkFailure,
}

/// Where the pipeline stands: which answer it is waiting for, carrying
/// exactly the data gathered so far. The key is held only up to signing.
pub enum TransferPhase {
    AwaitingBlock { key: PrivateKey },
    AwaitingNonce { key: PrivateKey, base_fee: u64 },
    AwaitingChainId { key: PrivateKey, base_fee: u64, nonce: u64 },
    AwaitingGas { key: PrivateKey, base_fee: u64, nonce: u64, chain_id: u64 },
    AwaitingBroadcast { unsigned: UnsignedTransaction },
    AwaitingReceipt { unsigned: UnsignedTransaction },
    AwaitingTransaction { unsigned: UnsignedTransaction, receipt: ReceiptData },
    Completed,
    Failed,
}

/// What one step of the pipeline decided.
pub enum Outcome {
    /// Perform this remote call and report its event back.
    Continue(ChainAction),
    /// The transfer is mined: the response body and the submission record.
    Complete(ChainResponse, SignedTransactionRecord),
    /// The transfer failed; the failure is fatal and never retried.
    Fail(WalletError),
}

/// The EVM transfer pipeline: `Built → Submitted → {Included | Dropped}`,
/// driven one remote call at a time. Decisions are made here; the driver
/// only performs the named calls against the endpoint.
pub struct Ethereum {
    pub from: String,
    pub to: String,
    pub amount: u32,
    pub rpc_url: String,
    pub phase: TransferPhase,
}

impl Ethereum {
    /// Valid sender and recipient, and a valid key wherever one is held.
    pub open spec fn wf(&self) -> bool {
        &&& is_chain_address(self.from@)
        &&& is_chain_address(self.to@)
        &&& match self.phase {
            TransferPhase::AwaitingBlock { key } => key.wf(),
            TransferPhase::AwaitingNonce { key, .. } => key.wf(),
            TransferPhase::AwaitingChainId { key, .. } => key.wf(),
            TransferPhase::AwaitingGas { key, .. } => key.wf(),
            _ => true,
        }
    }

    /// Whether the raw key is still inside the pipeline. It is carried only
    /// up to the signing step and discarded on every exit path.
    pub open spec fn carries_key(&self) -> bool {
        match self.phase {
            TransferPhase::AwaitingBlock { .. } => true,
            TransferPhase::AwaitingNonce { .. } => true,
            TransferPhase::AwaitingChainId { .. } => true,
            TransferPhase::AwaitingGas { .. } => true,
            _ => false,
        }
    }

    /// Which events the current phase can answer to. Completed and failed
    /// pipelines answer to none: a finished transfer is never retried.
    pub open spec fn accepts(&self, ev: ChainEvent) -> bool {
        match self.phase {
            TransferPhase::AwaitingBlock { .. } => (ev matches ChainEvent::LatestBlock { .. })
                || (ev is NetworkFailure),
            TransferPhase::AwaitingNonce { .. } => (ev matches ChainEvent::TransactionCount { .. })
                || (ev is NetworkFailure),
            TransferPhase::AwaitingChainId { .. } => (ev matches ChainEvent::ChainId { .. }) || (ev
                is NetworkFailure),
            TransferPhase::AwaitingGas { .. } => (ev matches ChainEvent::GasEstimate { .. }) || (ev
                is NetworkFailure),
            TransferPhase::AwaitingBroadcast { .. } => (ev matches ChainEvent::Broadcast { .. })
                || (ev is NetworkFailure),
            TransferPhase::AwaitingReceipt { .. } => (ev matches ChainEvent::Receipt { .. }) || (ev
                is NetworkFailure),
            TransferPhase::AwaitingTransaction { .. } => (ev
                matches ChainEvent::MinedTransaction { .. }) || (ev is NetworkFailure),
            TransferPhase::Completed => false,
            TransferPhase::Failed => false,
        }
    }

    /// The phase one observed event moves the pipeline to. Mirrors `step`
    /// exactly; `step` ensures its result agrees with this, so runs of the
    /// pipeline can be reasoned about as values.
    pub open spec fn spec_next_phase(self, ev: ChainEvent) -> TransferPhase {
        match (self.phase, ev) {
            (
                TransferPhase::AwaitingBlock { key },
                ChainEvent::LatestBlock { base_fee: Some(b) },
            ) => TransferPhase::AwaitingNonce { key, base_fee: b },
            (
                TransferPhase::AwaitingNonce { key, base_fee },
                ChainEvent::TransactionCount { nonce },
            ) => TransferPhase::AwaitingChainId { key, base_fee, nonce },
            (
                TransferPhase::AwaitingChainId { key, base_fee, nonce },
                ChainEvent::ChainId { chain_id },
            ) => TransferPhase::AwaitingGas { key, base_fee, nonce, chain_id },
            (
                TransferPhase::AwaitingGas { key: _, base_fee, nonce, chain_id },
                ChainEvent::GasEstimate { gas: Some(g) },
            ) => TransferPhase::AwaitingBroadcast {
                unsigned: UnsignedTransaction {
                    from: self.from,
                    to: self.to,
                    value: self.amount as u128,
                    nonce,
                    chain_id,
                    gas: g,
                    max_fee_per_gas: (2 * (base_fee as u128) + (PRIORITY_FEE as u128)) as u128,
                    max_priority_fee_per_gas: PRIORITY_FEE,
                },
            },
            (TransferPhase::AwaitingBroadcast { unsigned }, ChainEvent::Broadcast { .. }) => {
                TransferPhase::AwaitingReceipt { unsigned }
            },
            (
                TransferPhase::AwaitingReceipt { unsigned },
                ChainEvent::Receipt { receipt: Some(rec) },
            ) => TransferPhase::AwaitingTransaction { unsigned, receipt: rec },
            (
                TransferPhase::AwaitingTransaction { .. },
                ChainEvent::MinedTransaction { transaction: Some(_) },
            ) => TransferPhase::Completed,
            _ => TransferPhase::Failed,
        }
    }

    /// The pipeline after one observed event: the identity fields stay,
    /// only the phase moves.
    pub open spec fn spec_step(self, ev: ChainEvent) -> Ethereum {
        Ethereum {
            from: self.from,
            to: self.to,
            amount: self.amount,
            rpc_url: self.rpc_url,
            phase: self.spec_next_phase(ev),
        }
    }

    /// Whether the pipeline, fed these events one at a time, accepts each
    /// of them in turn.
    pub open spec fn accepted_trace(self, evs: Seq<ChainEvent>) -> bool
        decreases evs.len(),
    {
        evs.len() == 0 || (self.accepts(evs.first()) && self.spec_step(
            evs.first(),
        ).accepted_trace(evs.drop_first()))
    }

    /// Starts a transfer. Sender and recipient are validated before
    /// anything else: a malformed address fails with `ValidationError`
    /// here, before any remote call is requested. Otherwise the pipeline
    /// waits for the latest block, the fee basis.
    pub fn send_native(chain_data: &ChainInfo, payload: &Transaction, private_key: PrivateKey) -> (r:
        Result<(Ethereum, ChainAction), WalletError>)
        requires
            private_key.wf(),
        ensures
            (r matches Err(e) && e == WalletError::ValidationError) <==> !(is_chain_address(
                payload.from@,
            ) && is_chain_address(payload.to@)),
            r is Err ==> (r matches Err(e) && e == WalletError::ValidationError),
            r matches Ok(ma) ==> {
                &&& ma.0.wf()
                &&& ma.0.from@ == payload.from@
                &&& ma.0.to@ == payload.to@
                &&& ma.0.amount == payload.amount
                &&& ma.0.rpc_url@ == chain_data.rpc_url@
                &&& ma.0.phase matches TransferPhase::AwaitingBlock { key } && key == private_key
                &&& ma.1 is FetchLatestBlock
            },
    {
        if !validate_chain_address(payload.from.as_str()) {
            return Err(WalletError::ValidationError);
        }
        if !validate_chain_address(payload.to.as_str()) {
            return Err(WalletError::ValidationError);
        }
        let machine = Ethereum {
            from: payload.from.clone(),
            to: payload.to.clone(),
            amount: payload.amount,
            rpc_url: chain_data.rpc_url.clone(),
            phase: TransferPhase::AwaitingBlock { key: private_key },
        };
        Ok((machine, ChainAction::FetchLatestBlock))
    }

    /// Advances the pipeline by one observed event. Every transition is
    /// stated exactly; every failure is fatal: the pipeline moves to a
    /// terminal phase that accepts no further event, so nothing is retried.
    pub fn step(self, ev: ChainEvent) -> (r: (Ethereum, Outcome))
        requires
            self.wf(),
            self.accepts(ev),
        ensures
            r.0.wf(),
            r.0.from@ == self.from@,
            r.0.to@ == self.to@,
            r.0.amount == self.amount,
            r.0.rpc_url@ == self.rpc_url@,
            // A transport failure is fatal in every waiting phase. After
            // the broadcast it leaves unknown whether the transfer was
            // mined; that ambiguity is reported as a plain failure and the
            // pipeline ends without resubmission, so no double spend can
            // come from it.
            ev is NetworkFailure ==> ({
                &&& r.0.phase is Failed
                &&& r.1 matches Outcome::Fail(e) && e == WalletError::NetworkError
            }),
            // Fee basis observed: move on to the nonce fetch.
            self.phase matches TransferPhase::AwaitingBlock { key } ==> (ev
                matches ChainEvent::LatestBlock { base_fee: Some(b) } ==> {
                &&& r.0.phase matches TransferPhase::AwaitingNonce { key: k2, base_fee: b2 } && k2
                    == key && b2 == b
                &&& r.1 matches Outcome::Continue(a) && a matches ChainAction::FetchTransactionCount {
                    address,
                } && address@ == self.from@
            }),
            // No base fee: the chain has no fee market; abort, no fallback.
            ev matches ChainEvent::LatestBlock { base_fee: None } ==> ({
                &&& r.0.phase is Failed
                &&& r.1 matches Outcome::Fail(e) && e == WalletError::FeeFieldMissingError
            }),
            // Nonce observed: ask for the chain identifier.
            self.phase matches TransferPhase::AwaitingNonce { key, base_fee } ==> (ev
                matches ChainEvent::TransactionCount { nonce } ==> {
                &&& r.0.phase matches TransferPhase::AwaitingChainId {
                    key: k2,
                    base_fee: b2,
                    nonce: n2,
                } && k2 == key && b2 == base_fee && n2 == nonce
                &&& r.1 matches Outcome::Continue(a) && a is FetchChainId
            }),
            // Chain identifier observed: submit the draft for estimation.
            self.phase matches TransferPhase::AwaitingChainId { key, base_fee, nonce } ==> (ev
                matches ChainEvent::ChainId { chain_id } ==> {
                &&& r.0.phase matches TransferPhase::AwaitingGas {
                    key: k2,
                    base_fee: b2,
                    nonce: n2,
                    chain_id: c2,
                } && k2 == key && b2 == base_fee && n2 == nonce && c2 == chain_id
                &&& r.1 matches Outcome::Continue(a) && a matches ChainAction::EstimateGas {
                    from,
                    to,
                    value,
                    nonce: an,
                } && from@ == self.from@ && to@ == self.to@ && value == self.amount as u128 && an
                    == nonce
            }),
            // Estimation rejected: fail at once, never retried.
            ev matches ChainEvent::GasEstimate { gas: None } ==> ({
                &&& r.0.phase is Failed
                &&& r.1 matches Outcome::Fail(e) && e == WalletError::GasEstimationError
            }),
            // Gas granted: the transaction is built — amount widened
            // losslessly, fee ceiling from the fee basis — and goes out for
            // signing; the key leaves the pipeline with it.
            self.phase matches TransferPhase::AwaitingGas { key, base_fee, nonce, chain_id } ==> (ev
                matches ChainEvent::GasEstimate { gas: Some(g) } ==> {
                &&& r.1 matches Outcome::Continue(a)
                &&& a matches ChainAction::SignAndBroadcast { unsigned, key: k2 }
                &&& k2 == key
                &&& unsigned.from@ == self.from@
                &&& unsigned.to@ == self.to@
                &&& unsigned.value == self.amount as u128
                &&& unsigned.nonce == nonce
                &&& unsigned.chain_id == chain_id
                &&& unsigned.gas == g
                &&& unsigned.max_fee_per_gas == fee_ceiling(base_fee, PRIORITY_FEE)
                &&& unsigned.max_priority_fee_per_gas == PRIORITY_FEE
                &&& r.0.phase matches TransferPhase::AwaitingBroadcast { unsigned: u2 } && u2
                    == unsigned
                &&& !r.0.carries_key()
            }),
            // Submission accepted: wait for inclusion.
            self.phase matches TransferPhase::AwaitingBroadcast { unsigned } ==> (ev
                matches ChainEvent::Broadcast { hash } ==> {
                &&& r.0.phase matches TransferPhase::AwaitingReceipt { unsigned: u2 } && u2
                    == unsigned
                &&& r.1 matches Outcome::Continue(a) && a is AwaitReceipt
            }),
            // Dropped from the mempool: fatal; a rebuild needs a fresh nonce.
            ev matches ChainEvent::Receipt { receipt: None } ==> ({
                &&& r.0.phase is Failed
                &&& r.1 matches Outcome::Fail(e) && e == WalletError::TransactionDroppedError
            }),
            // Included: look the mined transaction up by the receipt's hash.
            self.phase matches TransferPhase::AwaitingReceipt { unsigned } ==> (ev
                matches ChainEvent::Receipt { receipt: Some(rec) } ==> {
                &&& r.0.phase matches TransferPhase::AwaitingTransaction {
                    unsigned: u2,
                    receipt: rec2,
                } && u2 == unsigned && rec2 == rec
                &&& r.1 matches Outcome::Continue(a) && a matches ChainAction::FetchTransaction {
                    hash,
                } && hash@ == rec.transaction_hash@
            }),
            // The node cannot produce the mined transaction it reported.
            ev matches ChainEvent::MinedTransaction { transaction: None } ==> ({
                &&& r.0.phase is Failed
                &&& r.1 matches Outcome::Fail(e) && e == WalletError::NetworkError
            }),
            // Done: exactly one irreversible state mutation has happened;
            // the caller receives the mined transaction, the receipt, and
            // the submission record.
            self.phase matches TransferPhase::AwaitingTransaction { unsigned, receipt } ==> (ev
                matches ChainEvent::MinedTransaction { transaction: Some(tx) } ==> {
                &&& r.0.phase is Completed
                &&& r.1 matches Outcome::Complete(resp, record)
                &&& resp.chain matches TXChain::EVM(evm) && evm.transaction == tx
                    && evm.recepient == receipt
                &&& record.hash@ == receipt.transaction_hash@
                &&& record.nonce == unsigned.nonce
                &&& record.max_fee_per_gas == unsigned.max_fee_per_gas
                &&& record.max_priority_fee_per_gas == unsigned.max_priority_fee_per_gas
                &&& record.receipt_status == receipt.status
            }),
            // Once signing is reached, the key is gone from the pipeline.
            r.1 matches Outcome::Fail(f) ==> !r.0.carries_key() && (r.0.phase is Failed),
            // The executable step agrees with the specification step, so
            // whole runs can be reasoned about.
            r.0 == self.spec_step(ev),
            // The signing hand-off arises from the gas-estimation step and
            // nowhere else: a pipeline that failed earlier — on the fee
            // basis, the nonce, or the chain identifier — can never reach
            // a broadcast, since its terminal phase accepts no event.
            r.1 matches Outcome::Continue(a) ==> (a matches ChainAction::SignAndBroadcast {
                ..
            } ==> ({
                &&& self.phase matches TransferPhase::AwaitingGas { .. }
                &&& ev matches ChainEvent::GasEstimate { .. }
            })),
    {
        let Ethereum { from, to, amount, rpc_url, phase } = self;
        match (phase, ev) {
            (TransferPhase::AwaitingBlock { key }, ChainEvent::LatestBlock { base_fee: Some(b) }) => {
                let action = ChainAction::FetchTransactionCount { address: from.clone() };
                let machine = Ethereum {
                    from,
                    to,
                    amount,
                    rpc_url,
                    phase: TransferPhase::AwaitingNonce { key, base_fee: b },
                };
                (machine, Outcome::Continue(action))
            },
            (TransferPhase::AwaitingBlock { key: _ }, ChainEvent::LatestBlock { base_fee: None }) => {
                let machine = Ethereum { from, to, amount, rpc_url, phase: TransferPhase::Failed };
                (machine, Outcome::Fail(WalletError::FeeFieldMissingError))
            },
            (
                TransferPhase::AwaitingNonce { key, base_fee },
                ChainEvent::TransactionCount { nonce },
            ) => {
                let machine = Ethereum {
                    from,
                    to,
                    amount,
                    rpc_url,
                    phase: TransferPhase::AwaitingChainId { key, base_fee, nonce },
                };
                (machine, Outcome::Continue(ChainAction::FetchChainId))
            },
            (
                TransferPhase::AwaitingChainId { key, base_fee, nonce },
                ChainEvent::ChainId { chain_id },
            ) => {
                let action = ChainAction::EstimateGas {
                    from: from.clone(),
                    to: to.clone(),
                    value: amount as u128,
                    nonce,
                };
                let machine = Ethereum {
                    from,
                    to,
                    amount,
                    rpc_url,
                    phase: TransferPhase::AwaitingGas { key, base_fee, nonce, chain_id },
                };
                (machine, Outcome::Continue(action))
            },
            (
                TransferPhase::AwaitingGas { key, base_fee, nonce, chain_id },
                ChainEvent::GasEstimate { gas: Some(g) },
            ) => {
                let max_fee = compute_fee(base_fee, PRIORITY_FEE);
                let unsigned = UnsignedTransaction {
                    from: from.clone(),
                    to: to.clone(),
                    value: amount as u128,
                    nonce,
                    chain_id,
                    gas: g,
                    max_fee_per_gas: max_fee,
                    max_priority_fee_per_gas: PRIORITY_FEE,
                };
                let kept = unsigned.duplicate();
                let machine = Ethereum {
                    from,
                    to,
                    amount,
                    rpc_url,
                    phase: TransferPhase::AwaitingBroadcast { unsigned: kept },
                };
                (machine, Outcome::Continue(ChainAction::SignAndBroadcast { unsigned, key }))
            },
            (TransferPhase::AwaitingGas { key: _, .. }, ChainEvent::GasEstimate { gas: None }) => {
                let machine = Ethereum { from, to, amount, rpc_url, phase: TransferPhase::Failed };
                (machine, Outcome::Fail(WalletError::GasEstimationError))
            },
            (TransferPhase::AwaitingBroadcast { unsigned }, ChainEvent::Broadcast { hash: _ }) => {
                let machine = Ethereum {
                    from,
                    to,
                    amount,
                    rpc_url,
                    phase: TransferPhase::AwaitingReceipt { unsigned },
                };
                (machine, Outcome::Continue(ChainAction::AwaitReceipt))
            },
            (
                TransferPhase::AwaitingReceipt { unsigned },
                ChainEvent::Receipt { receipt: Some(rec) },
            ) => {
                let action = ChainAction::FetchTransaction {
                    hash: copy_bytes(&rec.transaction_hash),
                };
                let machine = Ethereum {
                    from,
                    to,
                    amount,
                    rpc_url,
                    phase: TransferPhase::AwaitingTransaction { unsigned, receipt: rec },
                };
                (machine, Outcome::Continue(action))
            },
            (TransferPhase::AwaitingReceipt { unsigned: _ }, ChainEvent::Receipt { receipt: None }) => {
                let machine = Ethereum { from, to, amount, rpc_url, phase: TransferPhase::Failed };
                (machine, Outcome::Fail(WalletError::TransactionDroppedError))
            },
            (
                TransferPhase::AwaitingTransaction { unsigned, receipt },
                ChainEvent::MinedTransaction { transaction: Some(tx) },
            ) => {
                let record = SignedTransactionRecord {
                    hash: copy_bytes(&receipt.transaction_hash),
                    nonce: unsigned.nonce,
                    max_fee_per_gas: unsigned.max_fee_per_gas,
                    max_priority_fee_per_gas: unsigned.max_priority_fee_per_gas,
                    receipt_status: receipt.status,
                };
                let response = ChainResponse {
                    chain: TXChain::EVM(EVMResponse { transaction: tx, recepient: receipt }),
                };
                let machine = Ethereum {
                    from,
                    to,
                    amount,
                    rpc_url,
                    phase: TransferPhase::Completed,
                };
                (machine, Outcome::Complete(response, record))
            },
            (
                TransferPhase::AwaitingTransaction { unsigned: _, receipt: _ },
                ChainEvent::MinedTransaction { transaction: None },
            ) => {
                let machine = Ethereum { from, to, amount, rpc_url, phase: TransferPhase::Failed };
                (machine, Outcome::Fail(WalletError::NetworkError))
            },
            _ => {
                let machine = Ethereum { from, to, amount, rpc_url, phase: TransferPhase::Failed };
                (machine, Outcome::Fail(WalletError::NetworkError))
            },
        }
    }
}

/// A run that observes a block without a base fee ends right there: the
/// pipeline fails on that event and accepts nothing afterwards, so no gas
/// estimation, no signing and no broadcast can follow a missing fee field.
pub proof fn lemma_missing_fee_ends_the_run(m: Ethereum, evs: Seq<ChainEvent>)
    requires
        m.phase matches TransferPhase::AwaitingBlock { .. },
        evs.len() > 0,
        evs.first() == (ChainEvent::LatestBlock { base_fee: None }),
        m.accepted_trace(evs),
    ensures
        evs.len() == 1,
{
    let m1 = m.spec_step(evs.first());
    assert(m1.phase is Failed);
    if evs.len() > 1 {
        assert(m1.accepted_trace(evs.drop_first()));
        assert(m1.accepts(evs.drop_first().first()));
        assert(false);
    }
}

/// A run whose receipt wait reports the transaction dropped ends right
/// there: the failure is fatal and nothing — in particular no retry and no
/// further broadcast — can follow it.
pub proof fn lemma_dropped_receipt_ends_the_run(m: Ethereum, evs: Seq<ChainEvent>)
    requires
        m.phase matches TransferPhase::AwaitingReceipt { .. },
        evs.len() > 0,
        evs.first() == (ChainEvent::Receipt { receipt: None }),
        m.accepted_trace(evs),
    ensures
        evs.len() == 1,
{
    let m1 = m.spec_step(evs.first());
    assert(m1.phase is Failed);
    if evs.len() > 1 {
        assert(m1.accepted_trace(evs.drop_first()));
        assert(m1.accepts(evs.drop_first().first()));
        assert(false);
    }
}

/// The expected answers drive the pipeline to completion in order: fee
/// basis, nonce, chain identifier, gas, broadcast, receipt, mined
/// transaction. At the signing hand-off the built transaction carries the
/// losslessly widened amount, the fetched nonce and chain identifier, the
/// granted gas, and the safety-margined fee ceiling over the observed
/// basis; the run ends in the completed phase.
pub proof fn lemma_expected_run_completes(
    m: Ethereum,
    b: u64,
    n: u64,
    c: u64,
    g: u128,
    hash: Vec<u8>,
    rec: ReceiptData,
    tx: TransactionData,
)
    requires
        m.phase matches TransferPhase::AwaitingBlock { .. },
    ensures
        ({
            let m4 = m.spec_step(ChainEvent::LatestBlock { base_fee: Some(b) }).spec_step(
                ChainEvent::TransactionCount { nonce: n },
            ).spec_step(ChainEvent::ChainId { chain_id: c }).spec_step(
                ChainEvent::GasEstimate { gas: Some(g) },
            );
            &&& m4.phase matches TransferPhase::AwaitingBroadcast { unsigned }
            &&& unsigned.value == m.amount as u128
            &&& unsigned.nonce == n
            &&& unsigned.chain_id == c
            &&& unsigned.gas == g
            &&& unsigned.max_fee_per_gas == crate::fees::fee_ceiling(b, PRIORITY_FEE)
            &&& unsigned.max_priority_fee_per_gas == PRIORITY_FEE
        }),
        ({
            let done = m.spec_step(ChainEvent::LatestBlock { base_fee: Some(b) }).spec_step(
                ChainEvent::TransactionCount { nonce: n },
            ).spec_step(ChainEvent::ChainId { chain_id: c }).spec_step(
                ChainEvent::GasEstimate { gas: Some(g) },
            ).spec_step(ChainEvent::Broadcast { hash }).spec_step(
                ChainEvent::Receipt { receipt: Some(rec) },
            ).spec_step(ChainEvent::MinedTransaction { transaction: Some(tx) });
            done.phase is Completed
        }),
{
}

/// A terminal pipeline — completed or failed — accepts no further event:
/// a dropped or failed transfer is never retried from the same pipeline.
pub proof fn lemma_terminal_accepts_nothing(m: Ethereum, ev: ChainEvent)
    requires
        m.phase is Completed || m.phase is Failed,
    ensures
        !m.accepts(ev),
{
}

} // verus!
