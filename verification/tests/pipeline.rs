use wallet_core::errors::WalletError;
use wallet_core::ethereum::{
    ChainAction, ChainEvent, Ethereum, Outcome, ReceiptData, TransactionData, TransferPhase,
    TXChain,
};
use wallet_core::fees::{compute_fee, PRIORITY_FEE};
use wallet_core::keys::PrivateKey;
use wallet_core::models::{ChainInfo, ChainType, Transaction};

fn expect_err<T, E>(r: Result<T, E>) -> E {
    match r {
        Err(e) => e,
        Ok(_) => panic!("expected an error"),
    }
}

fn test_key() -> PrivateKey {
    let mut bytes = vec![0u8; 32];
    bytes[31] = 1;
    PrivateKey::from_bytes(bytes).unwrap()
}

fn chain_entry() -> ChainInfo {
    ChainInfo {
        index: 1,
        public_key: String::from("04aa"),
        address: String::from("0x7e5f4552091a69125d5dfcb7b8c2659029395bdf"),
        balance: String::from("0"),
        rpc_url: String::from("https://eth.llamarpc.com"),
        chain_type: ChainType::EVM,
    }
}

fn transfer_payload() -> Transaction {
    Transaction {
        email: String::from("a@x.com"),
        chain_id: String::from("1"),
        tx_type: String::from("native"),
        to: String::from("0x5aaeb6053f3e94c9b9a09f33669435e7ef1beaed"),
        from: String::from("0x7e5f4552091a69125d5dfcb7b8c2659029395bdf"),
        amount: 1_000,
    }
}

fn started() -> Ethereum {
    let (machine, action) =
        Ethereum::send_native(&chain_entry(), &transfer_payload(), test_key()).unwrap();
    assert!(matches!(action, ChainAction::FetchLatestBlock));
    machine
}

fn receipt_fixture() -> ReceiptData {
    ReceiptData {
        transaction_hash: vec![0xab; 32],
        status: 1,
        block_number: 19_000_000,
        gas_used: 21_000,
    }
}

#[test]
fn fee_is_twice_base_plus_priority() {
    assert_eq!(compute_fee(10, 3), 23);
    assert_eq!(compute_fee(0, 0), 0);
    assert_eq!(
        compute_fee(30_000_000_000, PRIORITY_FEE),
        62_000_000_000u128
    );
}

#[test]
fn fee_grows_with_base() {
    assert!(compute_fee(11, PRIORITY_FEE) > compute_fee(10, PRIORITY_FEE));
}

#[test]
fn priority_fee_is_two_gwei() {
    assert_eq!(PRIORITY_FEE, 2_000_000_000);
}

#[test]
fn malformed_recipient_is_rejected_before_any_call() {
    let mut payload = transfer_payload();
    payload.to = String::from("not-an-address");
    let err = expect_err(Ethereum::send_native(&chain_entry(), &payload, test_key()));
    assert_eq!(err, WalletError::ValidationError);
}

#[test]
fn malformed_sender_is_rejected_before_any_call() {
    let mut payload = transfer_payload();
    payload.from = String::from("0x123");
    let err = expect_err(Ethereum::send_native(&chain_entry(), &payload, test_key()));
    assert_eq!(err, WalletError::ValidationError);
}

#[test]
fn started_pipeline_waits_for_the_latest_block() {
    let machine = started();
    assert!(matches!(machine.phase, TransferPhase::AwaitingBlock { .. }));
    assert_eq!(machine.rpc_url, "https://eth.llamarpc.com");
}

#[test]
fn missing_base_fee_aborts_before_signing() {
    let machine = started();
    let (next, outcome) = machine.step(ChainEvent::LatestBlock { base_fee: None });
    assert!(matches!(next.phase, TransferPhase::Failed));
    assert!(matches!(
        outcome,
        Outcome::Fail(WalletError::FeeFieldMissingError)
    ));
}

#[test]
fn network_failure_is_fatal() {
    let machine = started();
    let (next, outcome) = machine.step(ChainEvent::NetworkFailure);
    assert!(matches!(next.phase, TransferPhase::Failed));
    assert!(matches!(outcome, Outcome::Fail(WalletError::NetworkError)));
}

#[test]
fn rejected_gas_estimation_is_fatal() {
    let machine = started();
    let (machine, _) = machine.step(ChainEvent::LatestBlock { base_fee: Some(100) });
    let (machine, _) = machine.step(ChainEvent::TransactionCount { nonce: 7 });
    let (machine, _) = machine.step(ChainEvent::ChainId { chain_id: 1 });
    let (next, outcome) = machine.step(ChainEvent::GasEstimate { gas: None });
    assert!(matches!(next.phase, TransferPhase::Failed));
    assert!(matches!(
        outcome,
        Outcome::Fail(WalletError::GasEstimationError)
    ));
}

#[test]
fn dropped_transaction_is_fatal_and_not_retried() {
    let machine = started();
    let (machine, _) = machine.step(ChainEvent::LatestBlock { base_fee: Some(100) });
    let (machine, _) = machine.step(ChainEvent::TransactionCount { nonce: 7 });
    let (machine, _) = machine.step(ChainEvent::ChainId { chain_id: 1 });
    let (machine, outcome) = machine.step(ChainEvent::GasEstimate { gas: Some(21_000) });
    assert!(matches!(outcome, Outcome::Continue(ChainAction::SignAndBroadcast { .. })));
    let (machine, _) = machine.step(ChainEvent::Broadcast { hash: vec![0xab; 32] });
    let (next, outcome) = machine.step(ChainEvent::Receipt { receipt: None });
    assert!(matches!(next.phase, TransferPhase::Failed));
    assert!(matches!(
        outcome,
        Outcome::Fail(WalletError::TransactionDroppedError)
    ));
}

#[test]
fn pipeline_runs_to_completion_in_order() {
    let payload = transfer_payload();
    let machine = started();

    let (machine, outcome) = machine.step(ChainEvent::LatestBlock { base_fee: Some(100) });
    match outcome {
        Outcome::Continue(ChainAction::FetchTransactionCount { address }) => {
            assert_eq!(address, payload.from);
        }
        _ => panic!("expected the nonce fetch"),
    }

    let (machine, outcome) = machine.step(ChainEvent::TransactionCount { nonce: 7 });
    assert!(matches!(outcome, Outcome::Continue(ChainAction::FetchChainId)));

    let (machine, outcome) = machine.step(ChainEvent::ChainId { chain_id: 1 });
    match outcome {
        Outcome::Continue(ChainAction::EstimateGas { from, to, value, nonce }) => {
            assert_eq!(from, payload.from);
            assert_eq!(to, payload.to);
            assert_eq!(value, payload.amount as u128);
            assert_eq!(nonce, 7);
        }
        _ => panic!("expected the gas estimation"),
    }

    let (machine, outcome) = machine.step(ChainEvent::GasEstimate { gas: Some(21_000) });
    match outcome {
        Outcome::Continue(ChainAction::SignAndBroadcast { unsigned, key }) => {
            assert_eq!(unsigned.from, payload.from);
            assert_eq!(unsigned.to, payload.to);
            assert_eq!(unsigned.value, payload.amount as u128);
            assert_eq!(unsigned.nonce, 7);
            assert_eq!(unsigned.chain_id, 1);
            assert_eq!(unsigned.gas, 21_000);
            assert_eq!(unsigned.max_fee_per_gas, 200 + PRIORITY_FEE as u128);
            assert_eq!(unsigned.max_priority_fee_per_gas, PRIORITY_FEE);
            assert_eq!(key.bytes[31], 1);
        }
        _ => panic!("expected the signing hand-off"),
    }

    let (machine, outcome) = machine.step(ChainEvent::Broadcast { hash: vec![0xab; 32] });
    assert!(matches!(outcome, Outcome::Continue(ChainAction::AwaitReceipt)));

    let (machine, outcome) = machine.step(ChainEvent::Receipt {
        receipt: Some(receipt_fixture()),
    });
    match outcome {
        Outcome::Continue(ChainAction::FetchTransaction { hash }) => {
            assert_eq!(hash, vec![0xab; 32]);
        }
        _ => panic!("expected the mined-transaction lookup"),
    }

    let mined = TransactionData {
        hash: vec![0xab; 32],
        nonce: 7,
        block_number: 19_000_000,
    };
    let (machine, outcome) = machine.step(ChainEvent::MinedTransaction {
        transaction: Some(mined),
    });
    assert!(matches!(machine.phase, TransferPhase::Completed));
    match outcome {
        Outcome::Complete(response, record) => {
            let TXChain::EVM(evm) = response.chain;
            assert_eq!(evm.transaction.hash, vec![0xab; 32]);
            assert_eq!(evm.recepient.status, 1);
            assert_eq!(record.hash, vec![0xab; 32]);
            assert_eq!(record.nonce, 7);
            assert_eq!(record.max_fee_per_gas, 200 + PRIORITY_FEE as u128);
            assert_eq!(record.max_priority_fee_per_gas, PRIORITY_FEE);
            assert_eq!(record.receipt_status, 1);
        }
        _ => panic!("expected completion"),
    }
}

#[test]
fn missing_mined_transaction_is_fatal() {
    let machine = started();
    let (machine, _) = machine.step(ChainEvent::LatestBlock { base_fee: Some(100) });
    let (machine, _) = machine.step(ChainEvent::TransactionCount { nonce: 7 });
    let (machine, _) = machine.step(ChainEvent::ChainId { chain_id: 1 });
    let (machine, _) = machine.step(ChainEvent::GasEstimate { gas: Some(21_000) });
    let (machine, _) = machine.step(ChainEvent::Broadcast { hash: vec![0xab; 32] });
    let (machine, _) = machine.step(ChainEvent::Receipt {
        receipt: Some(receipt_fixture()),
    });
    let (next, outcome) = machine.step(ChainEvent::MinedTransaction { transaction: None });
    assert!(matches!(next.phase, TransferPhase::Failed));
    assert!(matches!(outcome, Outcome::Fail(WalletError::NetworkError)));
}
