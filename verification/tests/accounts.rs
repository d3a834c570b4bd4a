use wallet_core::derive::derive_account;
use wallet_core::errors::{JsonApiResponse, WalletError};
use wallet_core::ethereum::{ChainAction, TransferPhase};
use wallet_core::keys::KeyServices;
use wallet_core::models::{
    ChainData, ChainInfo, ChainMap, ChainType, ChainTypeTxn, FungibleTokenData,
    NonFungibleTokenData, PerfomanceData, RegisterRequest, Transaction, WalletChainDataSchema,
};
use wallet_core::register::{config_chain, register_user};
use wallet_core::transfer::send_native_funds;

fn expect_err<T, E>(r: Result<T, E>) -> E {
    match r {
        Err(e) => e,
        Ok(_) => panic!("expected an error"),
    }
}

fn register_request() -> RegisterRequest {
    RegisterRequest {
        email: String::from("a@x.com"),
        password: String::from("secret"),
    }
}

fn transfer_payload(chain_id: &str) -> Transaction {
    Transaction {
        email: String::from("a@x.com"),
        chain_id: String::from(chain_id),
        tx_type: String::from("native"),
        to: String::from("0x5aaeb6053f3e94c9b9a09f33669435e7ef1beaed"),
        from: String::from("0x7e5f4552091a69125d5dfcb7b8c2659029395bdf"),
        amount: 5,
    }
}

#[test]
fn registration_builds_a_consistent_wallet() {
    let user = register_user(&register_request(), false, String::from("hashed")).unwrap();
    assert_eq!(user.email, "a@x.com");
    assert_eq!(user.password, "hashed");
    assert_eq!(user.key_shares.shares.len(), 3);
    assert_eq!(user.key_shares.threshold, 3);
    let entry = user.chains.get(&String::from("1")).expect("default chain entry");
    assert_eq!(entry.index, 1);
    assert_eq!(entry.balance, "0");
    assert_eq!(entry.rpc_url, "https://eth.llamarpc.com");
    assert!(matches!(entry.chain_type, ChainType::EVM));
    assert_eq!(entry.address.len(), 42);
    assert!(entry.address.starts_with("0x"));
    assert_eq!(entry.public_key.len(), 130);
}

#[test]
fn stored_account_matches_what_derivation_recomputes() {
    let user = register_user(&register_request(), false, String::from("hashed")).unwrap();
    let key = KeyServices::reconstruct(&user.key_shares.shares, user.key_shares.threshold)
        .expect("full share set reconstructs");
    let (address, public_key) = derive_account(&key);
    let entry = user.chains.get(&String::from("1")).unwrap();
    assert_eq!(entry.address, address);
    assert_eq!(entry.public_key, public_key);
}

#[test]
fn duplicate_registration_is_refused_and_first_unchanged() {
    let first = register_user(&register_request(), false, String::from("hashed")).unwrap();
    let second = expect_err(register_user(&register_request(), true, String::from("hashed")));
    assert_eq!(second.status, 409);
    assert_eq!(second.error.as_deref(), Some("User already exists!"));
    // The first registration's data is untouched by the refused call.
    assert_eq!(first.email, "a@x.com");
    assert!(first.chains.get(&String::from("1")).is_some());
    assert_eq!(first.key_shares.shares.len(), 3);
}

#[test]
fn config_chain_refuses_existing_chain() {
    let err = config_chain(true, false).unwrap_err();
    assert_eq!(err.status, 404);
    assert_eq!(err.error.as_deref(), Some("CHAIN EXIST!"));
}

#[test]
fn config_chain_reports_successful_insert() {
    let ok = config_chain(false, true).unwrap();
    assert_eq!(ok.status, 200);
    assert_eq!(ok.message.as_deref(), Some("CHAIN CONFIG SUCCESSFULLY"));
    assert_eq!(ok.data.as_deref(), Some("DATA"));
}

#[test]
fn config_chain_reports_failed_insert() {
    let err = config_chain(false, false).unwrap_err();
    assert_eq!(err.status, 500);
    assert_eq!(err.error.as_deref(), Some("ERROR CONFIG CHAIN"));
}

#[test]
fn transfer_on_unconfigured_chain_is_refused_without_any_call() {
    let user = register_user(&register_request(), false, String::from("hashed")).unwrap();
    let err = expect_err(send_native_funds(true, Some(&user), &transfer_payload("99")));
    assert_eq!(err.status, 404);
    assert_eq!(err.error.as_deref(), Some("USER_CHAIN_DATA_NOT_FOUND!"));
}

#[test]
fn transfer_for_unknown_account_is_refused() {
    let err = expect_err(send_native_funds(true, None, &transfer_payload("1")));
    assert_eq!(err.status, 404);
    assert_eq!(err.error.as_deref(), Some("USER_NOT_FOUND!"));
}

#[test]
fn transfer_on_storage_failure_is_refused() {
    let user = register_user(&register_request(), false, String::from("hashed")).unwrap();
    let err = expect_err(send_native_funds(false, Some(&user), &transfer_payload("1")));
    assert_eq!(err.status, 403);
    assert_eq!(err.error.as_deref(), Some("DATABASE_ERROR!"));
}

#[test]
fn transfer_with_malformed_address_is_refused() {
    let user = register_user(&register_request(), false, String::from("hashed")).unwrap();
    let mut payload = transfer_payload("1");
    payload.to = String::from("nonsense");
    let err = expect_err(send_native_funds(true, Some(&user), &payload));
    assert_eq!(err.status, 400);
    assert_eq!(err.error.as_deref(), Some("INVALID_ADDRESS!"));
}

#[test]
fn transfer_on_configured_chain_starts_the_pipeline() {
    let user = register_user(&register_request(), false, String::from("hashed")).unwrap();
    let (machine, action) = send_native_funds(true, Some(&user), &transfer_payload("1")).unwrap();
    assert!(matches!(action, ChainAction::FetchLatestBlock));
    assert!(matches!(machine.phase, TransferPhase::AwaitingBlock { .. }));
    assert_eq!(machine.rpc_url, "https://eth.llamarpc.com");
    assert_eq!(machine.amount, 5);
}

#[test]
fn error_statuses_follow_the_taxonomy() {
    assert_eq!(WalletError::ValidationError.status_code(), 400);
    assert_eq!(WalletError::AccountNotFound.status_code(), 404);
    assert_eq!(WalletError::ChainNotConfigured.status_code(), 404);
    assert_eq!(WalletError::FeeFieldMissingError.status_code(), 404);
    assert_eq!(WalletError::DuplicateAccountError.status_code(), 409);
    assert_eq!(WalletError::StorageError.status_code(), 403);
    assert_eq!(WalletError::NetworkError.status_code(), 500);
    assert_eq!(WalletError::GasEstimationError.status_code(), 500);
    assert_eq!(WalletError::TransactionDroppedError.status_code(), 500);
    assert_eq!(WalletError::InsufficientSharesError.status_code(), 500);
    assert_eq!(WalletError::CorruptShareError.status_code(), 500);
    assert_eq!(WalletError::SplitParameterError.status_code(), 500);
}

#[test]
fn protocol_records_keep_their_shape() {
    let record = WalletChainDataSchema {
        chain_id: String::from("1"),
        endpoints: vec![String::from("https://eth.llamarpc.com")],
        chain_data: ChainData {
            symbol: String::from("ETH"),
            network: String::from("mainnet"),
            market_cap: String::from("0"),
            total_supply: String::from("0"),
            circulating_supply: String::from("0"),
            perfomance_data: PerfomanceData {
                volume: String::from("0"),
                traders: String::from("0"),
                trades: String::from("0"),
            },
        },
    };
    assert_eq!(record.chain_id, "1");
    assert_eq!(record.endpoints.len(), 1);
    assert_eq!(record.chain_data.symbol, "ETH");
    assert_eq!(record.chain_data.perfomance_data.volume, "0");

    let body = JsonApiResponse {
        data: Some(record),
        message: Some(String::from("PROTOCOL DATA!")),
        error: None,
    };
    assert!(body.data.is_some());
    assert!(body.error.is_none());

    assert!(matches!(ChainTypeTxn::EVM, ChainTypeTxn::EVM));
    let _fungible = FungibleTokenData {};
    let _non_fungible = NonFungibleTokenData {};
}

#[test]
fn chain_map_keeps_identifiers_unique() {
    let mut map = ChainMap::new();
    let entry = ChainInfo {
        index: 1,
        public_key: String::from("04aa"),
        address: String::from("0x7e5f4552091a69125d5dfcb7b8c2659029395bdf"),
        balance: String::from("0"),
        rpc_url: String::from("https://eth.llamarpc.com"),
        chain_type: ChainType::EVM,
    };
    assert!(map.insert(String::from("1"), entry.clone()));
    assert!(!map.insert(String::from("1"), entry));
    assert!(map.contains_key(&String::from("1")));
    assert!(!map.contains_key(&String::from("99")));
    assert!(map.get(&String::from("1")).is_some());
    assert!(map.get(&String::from("99")).is_none());
}
