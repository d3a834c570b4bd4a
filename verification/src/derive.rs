use vstd::prelude::*;
use vstd::string::StringExecFns;

use crate::encoding::{hex_of, to_hex_string};
use crate::keys::{scalar_valid, PrivateKey};

verus! {

/// The twenty bytes of the chain address derived from a private key:
/// a pure function of the key bytes alone.
pub uninterp spec fn address_bytes_of(key: Seq<u8>) -> Seq<u8>;

/// The sixty-five bytes of the uncompressed public-key point of a private
/// key: a pure function of the key bytes alone.
pub uninterp spec fn public_key_bytes_of(key: Seq<u8>) -> Seq<u8>;

/// Relies on ethers' `secret_key_to_address`: the keccak-based address of
/// the key's public key, twenty bytes, depending on the key bytes alone.
#[verifier::external_body]
fn eth_address_bytes(key: &Vec<u8>) -> (r: Vec<u8>)
    requires
        scalar_valid(key@),
    ensures
        r@ == address_bytes_of(key@),
        r@.len() == 20,
{
    let sk = ethers::core::k256::ecdsa::SigningKey::from_slice(key.as_slice()).unwrap();
    ethers::core::utils::secret_key_to_address(&sk).as_bytes().to_vec()
}

/// Relies on k256's SEC1 point encoding: the uncompressed form of the
/// verifying key, sixty-five bytes, depending on the key bytes alone.
#[verifier::external_body]
fn eth_public_key_bytes(key: &Vec<u8>) -> (r: Vec<u8>)
    requires
        scalar_valid(key@),
    ensures
        r@ == public_key_bytes_of(key@),
        r@.len() == 65,
{
    let sk = ethers::core::k256::ecdsa::SigningKey::from_slice(key.as_slice()).unwrap();
    let point = sk.verifying_key().to_encoded_point(false);
    point.as_bytes().to_vec()
}

/// The address string of a key: `0x` followed by the lowercase hex digits
/// of its twenty address bytes.
pub open spec fn address_string_of(key: Seq<u8>) -> Seq<char> {
    seq!['0', 'x'] + hex_of(address_bytes_of(key))
}

/// The public-key string of a key: the lowercase hex digits of its
/// uncompressed public-key point.
pub open spec fn public_key_string_of(key: Seq<u8>) -> Seq<char> {
    hex_of(public_key_bytes_of(key))
}

/// Derives the chain account of a key: elliptic-curve public-key derivation
/// followed by the chain's address encoding. A pure function of the key —
/// the same key always yields the same `(address, public_key)` strings.
pub fn derive_account(key: &PrivateKey) -> (r: (String, String))
    requires
        key.wf(),
    ensures
        r.0@ == address_string_of(key@),
        r.1@ == public_key_string_of(key@),
        r.0@.len() == 42,
        r.1@.len() == 130,
{
    let addr_bytes = eth_address_bytes(&key.bytes);
    let hex_addr = to_hex_string(&addr_bytes);
    let mut addr: String = "0x".to_owned();
    addr.append(hex_addr.as_str());
    proof {
        reveal_strlit("0x");
        assert(addr@ =~= seq!['0', 'x'] + hex_of(addr_bytes@));
    }
    let pub_bytes = eth_public_key_bytes(&key.bytes);
    let pub_hex = to_hex_string(&pub_bytes);
    (addr, pub_hex)
}

/// Account derivation is deterministic: equal keys yield equal address and
/// public-key strings.
pub proof fn lemma_derive_deterministic(k1: Seq<u8>, k2: Seq<u8>)
    requires
        k1 == k2,
    ensures
        address_string_of(k1) == address_string_of(k2),
        public_key_string_of(k1) == public_key_string_of(k2),
{
}

} // verus!
