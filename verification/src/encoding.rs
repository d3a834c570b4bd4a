use vstd::prelude::*;

verus! {

/// The lowercase hexadecimal digit for a value below sixteen, as an ASCII
/// byte.
pub open spec fn hex_digit(n: u8) -> u8
    recommends
        n < 16,
{
    if n < 10 {
        (0x30 + n) as u8
    } else {
        (0x61 + (n - 10)) as u8
    }
}

/// The lowercase hexadecimal encoding of a byte sequence, as ASCII bytes:
/// two digits per byte, high nibble first.
pub open spec fn hex_ascii(data: Seq<u8>) -> Seq<u8>
    decreases data.len(),
{
    if data.len() == 0 {
        Seq::empty()
    } else {
        seq![hex_digit(data.first() / 16), hex_digit(data.first() % 16)] + hex_ascii(
            data.drop_first(),
        )
    }
}

/// The same encoding viewed as characters.
pub open spec fn hex_of(data: Seq<u8>) -> Seq<char> {
    hex_ascii(data).map_values(|b: u8| b as char)
}

pub proof fn lemma_hex_ascii_len(data: Seq<u8>)
    ensures
        hex_ascii(data).len() == 2 * data.len(),
    decreases data.len(),
{
    if data.len() > 0 {
        lemma_hex_ascii_len(data.drop_first());
    }
}

/// Every byte of the encoding is printable ASCII.
pub proof fn lemma_hex_ascii_is_ascii(data: Seq<u8>)
    ensures
        forall|i: int| 0 <= i < hex_ascii(data).len() ==> #[trigger] hex_ascii(data)[i] < 128,
    decreases data.len(),
{
    if data.len() > 0 {
        lemma_hex_ascii_is_ascii(data.drop_first());
        let rest = hex_ascii(data.drop_first());
        let whole = hex_ascii(data);
        assert(whole == seq![
            hex_digit(data.first() / 16),
            hex_digit(data.first() % 16),
        ] + rest);
        assert(whole[0] == hex_digit(data.first() / 16));
        assert(whole[1] == hex_digit(data.first() % 16));
        assert(forall|i: int| 2 <= i < whole.len() ==> #[trigger] whole[i] == rest[i - 2]);
    }
}

/// Relies on `String::from_utf8`: UTF-8 decoding agrees with ASCII on bytes
/// below 128, so each byte becomes exactly one character of the same value.
#[verifier::external_body]
fn ascii_string(bytes: &Vec<u8>) -> (r: String)
    requires
        forall|i: int| 0 <= i < bytes@.len() ==> bytes@[i] < 128,
    ensures
        r@ == bytes@.map_values(|b: u8| b as char),
{
    String::from_utf8(bytes.clone()).unwrap_or_default()
}

/// Appends the two lowercase hexadecimal digits of one byte.
fn push_hex_byte(out: &mut Vec<u8>, b: u8)
    ensures
        final(out)@ == old(out)@ + seq![hex_digit(b / 16), hex_digit(b % 16)],
{
    let hi: u8 = b / 16;
    let lo: u8 = b % 16;
    let hi_digit: u8 = if hi < 10 {
        0x30 + hi
    } else {
        0x61 + (hi - 10)
    };
    let lo_digit: u8 = if lo < 10 {
        0x30 + lo
    } else {
        0x61 + (lo - 10)
    };
    out.push(hi_digit);
    out.push(lo_digit);
}

/// An element-for-element copy of a byte vector.
pub fn copy_bytes(v: &Vec<u8>) -> (r: Vec<u8>)
    ensures
        r@ == v@,
{
    let mut out: Vec<u8> = Vec::new();
    let n = v.len();
    let mut i: usize = 0;
    while i < n
        invariant
            i <= n,
            n == v@.len(),
            out@ == v@.subrange(0, i as int),
        decreases n - i,
    {
        out.push(v[i]);
        proof {
            assert(out@ =~= v@.subrange(0, i + 1));
        }
        i = i + 1;
    }
    proof {
        assert(out@ =~= v@);
    }
    out
}

/// The lowercase hexadecimal rendering of `data`, two digits per byte.
pub fn to_hex_string(data: &Vec<u8>) -> (r: String)
    ensures
        r@ == hex_of(data@),
        r@.len() == 2 * data@.len(),
{
    let mut out: Vec<u8> = Vec::new();
    let n = data.len();
    proof {
        assert(data@.skip(0) == data@);
    }
    for i in 0..n
        invariant
            n == data@.len(),
            out@.len() == 2 * i,
            hex_ascii(data@) == out@ + hex_ascii(data@.skip(i as int)),
    {
        push_hex_byte(&mut out, data[i]);
        proof {
            assert(data@.skip(i as int).drop_first() == data@.skip(i + 1));
            assert(data@.skip(i as int).first() == data@[i as int]);
        }
    }
    proof {
        assert(data@.skip(n as int) =~= Seq::<u8>::empty());
        lemma_hex_ascii_len(data@);
        lemma_hex_ascii_is_ascii(data@);
    }
    let r = ascii_string(&out);
    proof {
        assert(r@ =~= hex_of(data@));
    }
    r
}

} // verus!
