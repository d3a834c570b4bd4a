use wallet_core::derive::derive_account;
use wallet_core::errors::WalletError;
use wallet_core::keys::{KeyServices, PrivateKey};
use wallet_core::sharing::SecretShare;

fn expect_err<T, E>(r: Result<T, E>) -> E {
    match r {
        Err(e) => e,
        Ok(_) => panic!("expected an error"),
    }
}

fn key_of_byte(last: u8) -> PrivateKey {
    let mut bytes = vec![0u8; 32];
    bytes[31] = last;
    PrivateKey::from_bytes(bytes).expect("a small nonzero scalar is valid")
}

#[test]
fn generated_key_is_32_bytes() {
    let key = KeyServices::generate_secret_key().expect("entropy source available");
    assert_eq!(key.bytes.len(), 32);
}

#[test]
fn two_generated_keys_differ() {
    let a = KeyServices::generate_secret_key().expect("entropy source available");
    let b = KeyServices::generate_secret_key().expect("entropy source available");
    assert_ne!(a.bytes, b.bytes);
}

#[test]
fn zero_bytes_are_no_key() {
    assert!(PrivateKey::from_bytes(vec![0u8; 32]).is_err());
}

#[test]
fn wrong_length_is_no_key() {
    assert!(PrivateKey::from_bytes(vec![1u8; 31]).is_err());
    assert!(PrivateKey::from_bytes(vec![1u8; 33]).is_err());
}

#[test]
fn bytes_below_curve_order_are_a_key() {
    assert!(PrivateKey::from_bytes(vec![0xcd; 32]).is_ok());
}

#[test]
fn bytes_at_curve_order_and_above_are_no_key() {
    assert!(PrivateKey::from_bytes(vec![0xff; 32]).is_err());
}

#[test]
fn full_share_set_reconstructs_the_key() {
    let key = PrivateKey::from_bytes(vec![0xcd; 32]).unwrap();
    let set = KeyServices::split_secret_key(&key, 3, 3).expect("valid parameters");
    assert_eq!(set.shares.len(), 3);
    let recovered = KeyServices::reconstruct(&set.shares, 3).expect("all shares present");
    assert_eq!(recovered.bytes, key.bytes);
}

#[test]
fn any_threshold_of_shares_reconstructs_the_key() {
    let key = PrivateKey::from_bytes(vec![0xcd; 32]).unwrap();
    let set = KeyServices::split_secret_key(&key, 2, 3).expect("valid parameters");
    let pick = |a: usize, b: usize| -> Vec<SecretShare> {
        [a, b]
            .iter()
            .map(|&i| SecretShare {
                index: set.shares[i].index,
                payload: set.shares[i].payload.clone(),
            })
            .collect()
    };
    for (a, b) in [(0, 1), (0, 2), (1, 2), (2, 0)] {
        let two = pick(a, b);
        let recovered = KeyServices::reconstruct(&two, 2).expect("threshold met");
        assert_eq!(recovered.bytes, key.bytes);
    }
}

#[test]
fn too_few_shares_fail_with_insufficient_shares() {
    let key = PrivateKey::from_bytes(vec![0xcd; 32]).unwrap();
    let set = KeyServices::split_secret_key(&key, 3, 3).expect("valid parameters");
    let mut shares = set.shares;
    shares.pop();
    let err = expect_err(KeyServices::reconstruct(&shares, 3));
    assert_eq!(err, WalletError::InsufficientSharesError);
}

#[test]
fn one_share_of_two_fails_with_insufficient_shares() {
    let key = PrivateKey::from_bytes(vec![0xcd; 32]).unwrap();
    let set = KeyServices::split_secret_key(&key, 2, 3).expect("valid parameters");
    let one = vec![SecretShare {
        index: set.shares[0].index,
        payload: set.shares[0].payload.clone(),
    }];
    let err = expect_err(KeyServices::reconstruct(&one, 2));
    assert_eq!(err, WalletError::InsufficientSharesError);
}

#[test]
fn malformed_share_fails_with_corrupt_share() {
    let key = PrivateKey::from_bytes(vec![0xcd; 32]).unwrap();
    let set = KeyServices::split_secret_key(&key, 3, 3).expect("valid parameters");
    let mut shares = set.shares;
    // A pair whose point no longer matches the share's index.
    shares[0].index = shares[0].index.wrapping_add(1);
    let err = expect_err(KeyServices::reconstruct(&shares, 3));
    assert_eq!(err, WalletError::CorruptShareError);
}

#[test]
fn truncated_payload_fails_with_corrupt_share() {
    let key = PrivateKey::from_bytes(vec![0xcd; 32]).unwrap();
    let set = KeyServices::split_secret_key(&key, 3, 3).expect("valid parameters");
    let mut shares = set.shares;
    shares[1].payload.pop();
    let err = expect_err(KeyServices::reconstruct(&shares, 3));
    assert_eq!(err, WalletError::CorruptShareError);
}

#[test]
fn zero_share_count_is_rejected() {
    let key = PrivateKey::from_bytes(vec![0xcd; 32]).unwrap();
    let err = expect_err(KeyServices::split_secret_key(&key, 0, 0));
    assert_eq!(err, WalletError::SplitParameterError);
}

#[test]
fn threshold_above_share_count_is_rejected() {
    let key = PrivateKey::from_bytes(vec![0xcd; 32]).unwrap();
    let err = expect_err(KeyServices::split_secret_key(&key, 4, 3));
    assert_eq!(err, WalletError::SplitParameterError);
}

#[test]
fn zero_threshold_is_rejected() {
    let key = PrivateKey::from_bytes(vec![0xcd; 32]).unwrap();
    let err = expect_err(KeyServices::split_secret_key(&key, 0, 3));
    assert_eq!(err, WalletError::SplitParameterError);
}

#[test]
fn derived_account_matches_known_vector() {
    // The scalar 1: its public key is the curve's generator point and its
    // address is a fixture known across EVM tooling.
    let key = key_of_byte(1);
    let (address, public_key) = derive_account(&key);
    assert_eq!(address, "0x7e5f4552091a69125d5dfcb7b8c2659029395bdf");
    assert_eq!(
        public_key,
        "0479be667ef9dcbbac55a06295ce870b07029bfcdb2dce28d959f2815b16f81798483ada7726a3c4655da4fbfc0e1108a8fd17b448a68554199c47d08ffb10d4b8"
    );
}

#[test]
fn derivation_is_deterministic() {
    let key = PrivateKey::from_bytes(vec![0xcd; 32]).unwrap();
    let again = PrivateKey::from_bytes(vec![0xcd; 32]).unwrap();
    assert_eq!(derive_account(&key), derive_account(&again));
}

#[test]
fn distinct_keys_derive_distinct_addresses() {
    let (addr1, pk1) = derive_account(&key_of_byte(1));
    let (addr2, pk2) = derive_account(&key_of_byte(2));
    assert_ne!(addr1, addr2);
    assert_ne!(pk1, pk2);
}

#[test]
fn reconstructed_key_derives_the_same_account() {
    let key = KeyServices::generate_secret_key().expect("entropy source available");
    let expected = derive_account(&key);
    let set = KeyServices::split_secret_key(&key, 3, 3).expect("valid parameters");
    let recovered = KeyServices::reconstruct(&set.shares, 3).expect("all shares present");
    assert_eq!(derive_account(&recovered), expected);
}
