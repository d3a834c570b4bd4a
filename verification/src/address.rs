use vstd::prelude::*;

verus! {

/// Whether `c` is a hexadecimal digit, in either case.
pub open spec fn is_hex_char(c: char) -> bool {
    (48 <= c as u32 <= 57) || (97 <= c as u32 <= 102) || (65 <= c as u32 <= 70)
}

/// Whether `s` is a well-formed EVM chain address: exactly forty hexadecimal
/// digits, with an optional `0x` prefix. This is the grammar the chain
/// tooling accepts when parsing a twenty-byte address.
pub open spec fn is_chain_address(s: Seq<char>) -> bool {
    ||| (s.len() == 42 && s[0] == '0' && s[1] == 'x' && (forall|i: int|
        2 <= i < 42 ==> is_hex_char(#[trigger] s[i])))
    ||| (s.len() == 40 && (forall|i: int| 0 <= i < 40 ==> is_hex_char(#[trigger] s[i])))
}

fn is_hex_char_exec(c: char) -> (r: bool)
    ensures
        r == is_hex_char(c),
{
    let u = c as u32;
    (48 <= u && u <= 57) || (97 <= u && u <= 102) || (65 <= u && u <= 70)
}

fn all_hex_from(s: &str, start: usize, end: usize) -> (r: bool)
    requires
        start <= end,
        end <= s@.len(),
    ensures
        r == (forall|i: int| start <= i < end ==> is_hex_char(#[trigger] s@[i])),
{
    let mut i = start;
    while i < end
        invariant
            start <= i <= end,
            end <= s@.len(),
            forall|j: int| start <= j < i ==> is_hex_char(#[trigger] s@[j]),
        decreases end - i,
    {
        if !is_hex_char_exec(s.get_char(i)) {
            return false;
        }
        i = i + 1;
    }
    true
}

/// Decides whether `s` is a well-formed chain address. Both the bare and the
/// `0x`-prefixed forms are accepted, and nothing else.
pub fn validate_chain_address(s: &str) -> (r: bool)
    ensures
        r == is_chain_address(s@),
{
    let n = s.unicode_len();
    if n == 42 {
        s.get_char(0) == '0' && s.get_char(1) == 'x' && all_hex_from(s, 2, 42)
    } else if n == 40 {
        all_hex_from(s, 0, 40)
    } else {
        false
    }
}

} // verus!
