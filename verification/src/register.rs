use vstd::prelude::*;

use crate::derive::{address_string_of, derive_account, public_key_string_of};
use crate::errors::{ErrorResponse, SuccessResponse, WalletError};
use crate::keys::{scalar_valid, KeyServices};
use crate::models::{ChainInfo, ChainMap, ChainType, RegisterRequest, UserWalletSchema};
use crate::sharing::{SHARE_COUNT, SHARE_THRESHOLD};

verus! {

/// A stored wallet is internally consistent: its share set is well formed
/// under the deployment parameters, recombining the full set yields a
/// valid key, and the default chain entry carries exactly the address and
/// public key that derivation recomputes from that key — the two never
/// diverge.
pub open spec fn wallet_consistent(u: &UserWalletSchema) -> bool {
    &&& u.key_shares.wf()
    &&& u.key_shares.share_count == SHARE_COUNT
    &&& u.key_shares.threshold == SHARE_THRESHOLD
    &&& scalar_valid(u.key_shares.spec_key())
    &&& u.chains.wf()
    &&& u.chains.spec_get("1"@) matches Some(ci) && ci.address@ == address_string_of(
        u.key_shares.spec_key(),
    ) && ci.public_key@ == public_key_string_of(u.key_shares.spec_key())
}

/// Builds a new wallet for a registration request: refuses a duplicate
/// email with status 409 before anything else, otherwise generates a
/// key, splits it under the deployment share parameters, and derives the
/// default chain entry from it. The caller checks the store for the email,
/// hashes the password, and persists the result; nothing here touches
/// storage.
pub fn register_user(payload: &RegisterRequest, email_exists: bool, password_hash: String) -> (r:
    Result<UserWalletSchema, ErrorResponse>)
    ensures
        email_exists <==> (r matches Err(e) && e.status == 409),
        email_exists ==> (r matches Err(e) && e.error matches Some(m) && m@
            == "User already exists!"@),
        r matches Err(e) ==> e.status == 409 || e.status == 500,
        r matches Ok(u) ==> {
            &&& !email_exists
            &&& u.email@ == payload.email@
            &&& u.password@ == password_hash@
            &&& wallet_consistent(&u)
            &&& u.chains.spec_get("1"@) matches Some(ci) && ci.index == 1 && ci.balance@ == "0"@
                && ci.rpc_url@ == "https://eth.llamarpc.com"@ && ci.chain_type == ChainType::EVM
        },
{
    if email_exists {
        return Err(ErrorResponse::from_error(&WalletError::DuplicateAccountError));
    }
    let key = match KeyServices::generate_secret_key() {
        Ok(key) => key,
        Err(_) => {
            return Err(ErrorResponse { error: Some("KEY_GENERATION_FAILED!".to_owned()), status: 500 });
        },
    };
    let key_shares = match KeyServices::split_secret_key(&key, SHARE_THRESHOLD, SHARE_COUNT) {
        Ok(key_shares) => key_shares,
        Err(_) => {
            return Err(ErrorResponse { error: Some("KEY_SPLIT_FAILED!".to_owned()), status: 500 });
        },
    };
    let (address, public_key) = derive_account(&key);
    let mut chains = ChainMap::new();
    let entry = ChainInfo {
        index: 1,
        public_key,
        address,
        balance: "0".to_owned(),
        rpc_url: "https://eth.llamarpc.com".to_owned(),
        chain_type: ChainType::EVM,
    };
    let inserted = chains.insert("1".to_owned(), entry);
    proof {
        assert(inserted);
        assert(chains.entries@.len() == 1);
        let c = chains.spec_index_of("1"@);
        assert(chains.spec_contains("1"@));
        assert(0 <= c < 1 && chains.entries@[c].0@ == "1"@);
    }
    let user = UserWalletSchema { email: payload.email.clone(), password: password_hash, key_shares, chains };
    Ok(user)
}

/// The decision of the protocol-configuration endpoint: an already
/// configured chain identifier is refused before any insertion; otherwise
/// the caller stores the record and this reports the outcome it observed.
pub fn config_chain(chain_exists: bool, insert_ok: bool) -> (r: Result<
    SuccessResponse<String>,
    ErrorResponse,
>)
    ensures
        chain_exists ==> ({
            &&& r matches Err(e)
            &&& e.status == 404
            &&& e.error matches Some(m) && m@ == "CHAIN EXIST!"@
        }),
        !chain_exists && insert_ok ==> ({
            &&& r matches Ok(s)
            &&& s.status == 200
            &&& s.message matches Some(m) && m@ == "CHAIN CONFIG SUCCESSFULLY"@
        }),
        !chain_exists && !insert_ok ==> ({
            &&& r matches Err(e)
            &&& e.status == 500
            &&& e.error matches Some(m) && m@ == "ERROR CONFIG CHAIN"@
        }),
{
    if chain_exists {
        return Err(ErrorResponse { error: Some("CHAIN EXIST!".to_owned()), status: 404 });
    }
    if insert_ok {
        Ok(SuccessResponse {
            data: Some("DATA".to_owned()),
            message: Some("CHAIN CONFIG SUCCESSFULLY".to_owned()),
            status: 200,
        })
    } else {
        Err(ErrorResponse { error: Some("ERROR CONFIG CHAIN".to_owned()), status: 500 })
    }
}

} // verus!
