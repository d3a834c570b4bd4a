use vstd::prelude::*;

use crate::errors::KeyGenerationError;

verus! {

/// The value of a byte sequence read as a big-endian unsigned integer.
pub open spec fn be_bytes_int(s: Seq<u8>) -> int
    decreases s.len(),
{
    if s.len() == 0 {
        0
    } else {
        be_bytes_int(s.drop_last()) * 256 + s.last()
    }
}

/// The order of the secp256k1 scalar group.
pub open spec fn curve_order() -> int {
    0xfffffffffffffffffffffffffffffffebaaedce6af48a03bbfd25e8cd0364141int
}

/// Whether thirty-two bytes form a valid private-key scalar: nonzero and
/// below the curve order when read big-endian.
pub open spec fn scalar_valid(s: Seq<u8>) -> bool {
    s.len() == 32 && 0 < be_bytes_int(s) < curve_order()
}

/// How many fresh candidates the generator draws before giving up.
pub const KEY_GENERATION_ATTEMPTS: u32 = 8;

/// A validated secp256k1 private key, held as its thirty-two raw bytes.
pub struct PrivateKey {
    pub bytes: Vec<u8>,
}

impl View for PrivateKey {
    type V = Seq<u8>;

    open spec fn view(&self) -> Seq<u8> {
        self.bytes@
    }
}

impl PrivateKey {
    pub open spec fn wf(&self) -> bool {
        scalar_valid(self.bytes@)
    }

    /// Accepts exactly the thirty-two-byte arrays that are valid curve
    /// scalars.
    pub fn from_bytes(bytes: Vec<u8>) -> (r: Result<PrivateKey, KeyGenerationError>)
        ensures
            scalar_valid(bytes@) ==> (r matches Ok(k) && k@ == bytes@ && k.wf()),
            !scalar_valid(bytes@) ==> (r matches Err(e) && e == KeyGenerationError::SecretKeyError),
    {
        if bytes.len() != 32 {
            return Err(KeyGenerationError::SecretKeyError);
        }
        if scalar_check(&bytes) {
            Ok(PrivateKey { bytes })
        } else {
            Err(KeyGenerationError::SecretKeyError)
        }
    }
}

/// Relies on rand's `SysRng`, the operating-system generator: on success the
/// whole buffer has been overwritten with fresh random bytes. Nothing is
/// assumed about the values drawn; two calls may differ.
#[verifier::external_body]
fn fill_random_bytes(buf: &mut Vec<u8>) -> (ok: bool)
    ensures
        final(buf)@.len() == old(buf)@.len(),
{
    rand::TryRng::try_fill_bytes(&mut rand::rngs::SysRng, buf.as_mut_slice()).is_ok()
}

/// Relies on secp256k1's `SecretKey::from_secret_bytes`, which accepts
/// exactly the arrays that are nonzero and below the curve order when read
/// big-endian.
#[verifier::external_body]
fn scalar_check(bytes: &Vec<u8>) -> (r: bool)
    requires
        bytes@.len() == 32,
    ensures
        r == scalar_valid(bytes@),
{
    match <[u8; 32]>::try_from(bytes.as_slice()) {
        Ok(arr) => secp256k1::SecretKey::from_secret_bytes(arr).is_ok(),
        Err(_) => false,
    }
}

/// Key generation and threshold splitting of custodial private keys.
pub struct KeyServices;

impl KeyServices {
    /// Draws thirty-two bytes from the operating-system entropy source and
    /// validates the candidate as a curve scalar, retrying with fresh
    /// randomness a bounded number of times. An unavailable entropy source
    /// fails at once; exhausting the attempt bound fails fatally.
    pub fn generate_secret_key() -> (r: Result<PrivateKey, KeyGenerationError>)
        ensures
            r matches Ok(k) ==> k.wf() && k@.len() == 32,
    {
        let mut attempt: u32 = 0;
        while attempt < KEY_GENERATION_ATTEMPTS
            decreases KEY_GENERATION_ATTEMPTS - attempt,
        {
            let mut buf: Vec<u8> = Vec::new();
            let mut i: usize = 0;
            while i < 32
                invariant
                    i <= 32,
                    buf@.len() == i,
                decreases 32 - i,
            {
                buf.push(0u8);
                i = i + 1;
            }
            if !fill_random_bytes(&mut buf) {
                return Err(KeyGenerationError::RandomBytesError);
            }
            if scalar_check(&buf) {
                return Ok(PrivateKey { bytes: buf });
            }
            attempt = attempt + 1;
        }
        Err(KeyGenerationError::SecretKeyError)
    }
}

} // verus!
