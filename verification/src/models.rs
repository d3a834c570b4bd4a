use vstd::prelude::*;

use crate::sharing::KeyShareSet;

verus! {

/// The closed set of supported chain families. A stored tag selects the
/// implementation; callers never branch on a concrete chain type.
#[derive(Debug, Clone, Copy, PartialEq, Eq, Structural)]
pub enum ChainType {
    EVM,
}

/// One chain's account entry of a wallet: the derived credentials, a
/// display balance, and where and how to reach the chain.
#[derive(Debug, Clone)]
pub struct ChainInfo {
    pub index: u32,
    pub public_key: String,
    pub address: String,
    pub balance: String,
    pub rpc_url: String,
    pub chain_type: ChainType,
}

/// Market figures of a configured protocol, as display strings.
#[derive(Debug, Clone)]
pub struct PerfomanceData {
    pub volume: String,
    pub traders: String,
    pub trades: String,
}

/// Descriptive data of a configured protocol, as display strings.
#[derive(Debug, Clone)]
pub struct ChainData {
    pub symbol: String,
    pub network: String,
    pub market_cap: String,
    pub total_supply: String,
    pub circulating_supply: String,
    pub perfomance_data: PerfomanceData,
}

/// A chain protocol configuration record.
#[derive(Debug, Clone)]
pub struct WalletChainDataSchema {
    pub chain_id: String,
    pub endpoints: Vec<String>,
    pub chain_data: ChainData,
}

#[derive(Debug, Clone)]
pub struct FungibleTokenData {}

#[derive(Debug, Clone)]
pub struct NonFungibleTokenData {}

/// The registration request body.
#[derive(Debug, Clone)]
pub struct RegisterRequest {
    pub email: String,
    pub password: String,
}

/// A native-value transfer request: ephemeral, never persisted.
#[derive(Debug, Clone)]
pub struct Transaction {
    pub email: String,
    pub chain_id: String,
    pub tx_type: String,
    pub to: String,
    pub from: String,
    pub amount: u32,
}

/// The chain-family tag a transfer answer is labelled with.
#[derive(Debug, Clone, Copy, PartialEq, Eq, Structural)]
pub enum ChainTypeTxn {
    EVM,
}

/// A mapping from chain identifier to that chain's account entry, with
/// each identifier held at most once.
#[derive(Debug, Clone)]
pub struct ChainMap {
    pub entries: Vec<(String, ChainInfo)>,
}

impl ChainMap {
    /// No chain identifier occurs twice.
    pub open spec fn wf(&self) -> bool {
        forall|i: int, j: int|
            0 <= i < j < self.entries@.len() ==> self.entries@[i].0@ != self.entries@[j].0@
    }

    pub open spec fn spec_contains(&self, key: Seq<char>) -> bool {
        exists|i: int| 0 <= i < self.entries@.len() && (#[trigger] self.entries@[i]).0@ == key
    }

    pub open spec fn spec_index_of(&self, key: Seq<char>) -> int {
        choose|i: int| 0 <= i < self.entries@.len() && (#[trigger] self.entries@[i]).0@ == key
    }

    pub open spec fn spec_get(&self, key: Seq<char>) -> Option<ChainInfo> {
        if self.spec_contains(key) {
            Some(self.entries@[self.spec_index_of(key)].1)
        } else {
            None
        }
    }

    pub fn new() -> (r: ChainMap)
        ensures
            r.wf(),
            r.entries@.len() == 0,
            forall|k: Seq<char>| !r.spec_contains(k),
    {
        ChainMap { entries: Vec::new() }
    }

    /// Adds an entry under a chain identifier that is not yet present;
    /// refuses a duplicate identifier and leaves the map unchanged.
    pub fn insert(&mut self, key: String, value: ChainInfo) -> (ok: bool)
        requires
            old(self).wf(),
        ensures
            final(self).wf(),
            ok == !old(self).spec_contains(key@),
            ok ==> final(self).entries@ == old(self).entries@.push((key, value)),
            ok ==> final(self).spec_contains(key@),
            !ok ==> *final(self) == *old(self),
    {
        if self.contains_key(&key) {
            return false;
        }
        let ghost prior = self.entries@;
        self.entries.push((key, value));
        proof {
            assert forall|i: int, j: int|
                0 <= i < j < self.entries@.len() implies self.entries@[i].0@
                != self.entries@[j].0@ by {
                if j < prior.len() {
                    assert(self.entries@[i] == prior[i]);
                    assert(self.entries@[j] == prior[j]);
                } else {
                    assert(self.entries@[i] == prior[i]);
                }
            }
            assert(self.entries@[prior.len() as int].0@ == key@);
        }
        true
    }

    /// Whether an entry exists under this chain identifier.
    pub fn contains_key(&self, key: &String) -> (r: bool)
        ensures
            r == self.spec_contains(key@),
    {
        let n = self.entries.len();
        let mut i: usize = 0;
        while i < n
            invariant
                i <= n,
                n == self.entries@.len(),
                forall|k: int| 0 <= k < i ==> (#[trigger] self.entries@[k]).0@ != key@,
            decreases n - i,
        {
            if self.entries[i].0 == *key {
                return true;
            }
            i = i + 1;
        }
        false
    }

    /// The entry stored under this chain identifier, if any.
    pub fn get(&self, key: &String) -> (r: Option<&ChainInfo>)
        requires
            self.wf(),
        ensures
            r is Some <==> self.spec_contains(key@),
            r matches Some(v) ==> self.spec_get(key@) == Some(*v),
    {
        let n = self.entries.len();
        let mut i: usize = 0;
        while i < n
            invariant
                i <= n,
                n == self.entries@.len(),
                self.wf(),
                forall|k: int| 0 <= k < i ==> (#[trigger] self.entries@[k]).0@ != key@,
            decreases n - i,
        {
            if self.entries[i].0 == *key {
                proof {
                    let c = self.spec_index_of(key@);
                    assert(0 <= c < self.entries@.len() && self.entries@[c].0@ == key@);
                    assert(c == i as int);
                }
                return Some(&self.entries[i].1);
            }
            i = i + 1;
        }
        None
    }
}

/// One user's stored wallet: credentials, the threshold share set of the
/// custodial key, and the per-chain account entries. Deliberately not
/// printable: key material must never reach a log.
#[derive(Clone)]
pub struct UserWalletSchema {
    pub email: String,
    pub password: String,
    pub key_shares: KeyShareSet,
    pub chains: ChainMap,
}

} // verus!
