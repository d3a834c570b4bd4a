use vstd::prelude::*;

use crate::address::is_chain_address;
use crate::errors::{ErrorResponse, WalletError};
use crate::ethereum::{ChainAction, Ethereum, TransferPhase};
use crate::keys::{scalar_valid, KeyServices};
use crate::models::{ChainType, Transaction, UserWalletSchema};
use crate::sharing::{payload_seqs, recombined, shares_wf};

verus! {

/// The head of a transfer request: finds the account and its chain entry,
/// reconstructs the custodial key from the stored shares, validates the
/// request, and starts the pipeline of the chain family the stored tag
/// selects. The caller reports the store lookup in and performs the
/// pipeline's remote calls; no remote call is requested before every
/// decision here has passed.
pub fn send_native_funds(db_ok: bool, user: Option<&UserWalletSchema>, payload: &Transaction) -> (r:
    Result<(Ethereum, ChainAction), ErrorResponse>)
    requires
        user matches Some(u) ==> u.key_shares.wf() && u.chains.wf(),
    ensures
        !db_ok ==> ({
            &&& r matches Err(e)
            &&& e.status == 403
            &&& e.error matches Some(m) && m@ == "DATABASE_ERROR!"@
        }),
        db_ok && user is None ==> ({
            &&& r matches Err(e)
            &&& e.status == 404
            &&& e.error matches Some(m) && m@ == "USER_NOT_FOUND!"@
        }),
        db_ok ==> (user matches Some(u) ==> (!u.chains.spec_contains(payload.chain_id@) ==> ({
            &&& r matches Err(e)
            &&& e.status == 404
            &&& e.error matches Some(m) && m@ == "USER_CHAIN_DATA_NOT_FOUND!"@
        }))),
        db_ok ==> (user matches Some(u) ==> (u.chains.spec_contains(payload.chain_id@) ==> ({
            let key = recombined(payload_seqs(u.key_shares.shares@));
            &&& (!scalar_valid(key) ==> ({
                &&& r matches Err(e)
                &&& e.status == 500
                &&& e.error matches Some(m) && m@ == "CORRUPT_KEY_SHARE!"@
            }))
            &&& (scalar_valid(key) && !(is_chain_address(payload.from@) && is_chain_address(
                payload.to@,
            )) ==> ({
                &&& r matches Err(e)
                &&& e.status == 400
                &&& e.error matches Some(m) && m@ == "INVALID_ADDRESS!"@
            }))
            &&& (scalar_valid(key) && is_chain_address(payload.from@) && is_chain_address(
                payload.to@,
            ) ==> (r matches Ok(ma) && {
                let entry = u.chains.spec_get(payload.chain_id@)->Some_0;
                &&& ma.0.wf()
                &&& ma.0.from@ == payload.from@
                &&& ma.0.to@ == payload.to@
                &&& ma.0.amount == payload.amount
                &&& ma.0.rpc_url@ == entry.rpc_url@
                &&& ma.0.phase matches TransferPhase::AwaitingBlock { key: k } && k@ == key
                &&& ma.1 is FetchLatestBlock
            }))
        }))),
{
    if !db_ok {
        return Err(ErrorResponse::from_error(&WalletError::StorageError));
    }
    let u = match user {
        Some(u) => u,
        None => {
            return Err(ErrorResponse::from_error(&WalletError::AccountNotFound));
        },
    };
    let chain_data = match u.chains.get(&payload.chain_id) {
        Some(chain_data) => chain_data,
        None => {
            return Err(ErrorResponse::from_error(&WalletError::ChainNotConfigured));
        },
    };
    proof {
        assert(shares_wf(u.key_shares.shares@));
    }
    let key = match KeyServices::reconstruct(&u.key_shares.shares, u.key_shares.threshold) {
        Ok(key) => key,
        Err(err) => {
            return Err(ErrorResponse::from_error(&err));
        },
    };
    match chain_data.chain_type {
        ChainType::EVM => {
            match Ethereum::send_native(chain_data, payload, key) {
                Ok(ma) => Ok(ma),
                Err(err) => Err(ErrorResponse::from_error(&err)),
            }
        },
    }
}

} // verus!
