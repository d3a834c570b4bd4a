//! Custodial wallet core: threshold-shared private keys and a fee-aware
//! transaction pipeline for EVM-compatible chains.
//!
//! A user's private key is split into threshold secret shares at account
//! creation and reconstructed on demand to authorize a single on-chain
//! native-value transfer. Remote-node coordination (fee basis, nonce, gas,
//! broadcast, confirmation) is modelled as an explicit state machine whose
//! decisions are verified; the hosting runtime performs the remote calls and
//! feeds the observed events back in.

pub mod address;
pub mod derive;
pub mod encoding;
pub mod errors;
pub mod ethereum;
pub mod fees;
pub mod keys;
pub mod models;
pub mod register;
pub mod sharing;
pub mod transfer;
