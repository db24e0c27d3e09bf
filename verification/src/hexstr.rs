//! Lowercase hex rendering of byte strings, as used for on-chain ids.

use vstd::prelude::*;

verus! {

/// The lowercase hex digit for a nibble.
pub open spec fn hex_digit(n: u8) -> char
    recommends
        n < 16,
{
    if n < 10 {
        ((n + 48) as u8) as char
    } else {
        ((n + 87) as u8) as char
    }
}

/// Lowercase hex rendering of a byte string: two digits per byte, high
/// nibble first.
pub open spec fn hex_of(bs: Seq<u8>) -> Seq<char>
    decreases bs.len(),
{
    if bs.len() == 0 {
        Seq::empty()
    } else {
        seq![hex_digit(bs[0] / 16), hex_digit(bs[0] % 16)] + hex_of(bs.drop_first())
    }
}

/// Hex rendering with the conventional `0x` prefix.
pub open spec fn hex_with_prefix(bs: Seq<u8>) -> Seq<char> {
    seq!['0', 'x'] + hex_of(bs)
}

/// Relies on hex::encode: renders each byte as two lowercase hex digits,
/// high nibble first, in byte order.
#[verifier::external_body]
pub(crate) fn hex_encode(bytes: &Vec<u8>) -> (r: String)
    ensures
        r@ == hex_of(bytes@),
{
    hex::encode(bytes.as_slice())
}

/// Render a byte string as `0x`-prefixed lowercase hex.
pub fn hex_0x(bytes: &Vec<u8>) -> (r: String)
    ensures
        r@ == hex_with_prefix(bytes@),
{
    proof {
        reveal_strlit("0x");
    }
    let mut out = String::from_str("0x");
    proof {
        assert(out@ =~= seq!['0', 'x']);
    }
    let digits = hex_encode(bytes);
    out.append(digits.as_str());
    out
}

} // verus!
