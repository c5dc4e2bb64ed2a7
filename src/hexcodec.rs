//! Hexadecimal text as used on the custom-message transport.
use vstd::prelude::*;

verus! {

/// The lowercase hexadecimal digit for a nibble.
pub open spec fn hex_digit(n: int) -> char {
    seq!['0', '1', '2', '3', '4', '5', '6', '7', '8', '9', 'a', 'b', 'c', 'd', 'e', 'f'][n]
}

/// Two lowercase digits per byte, high nibble first.
pub open spec fn hex_of(b: Seq<u8>) -> Seq<char>
    decreases b.len(),
{
    if b.len() == 0 {
        Seq::empty()
    } else {
        seq![hex_digit(b[0] as int / 16), hex_digit(b[0] as int % 16)] + hex_of(b.drop_first())
    }
}

/// The value of one hexadecimal digit, of either case.
pub open spec fn hex_value(c: char) -> Option<int> {
    if '0' <= c && c <= '9' {
        Some(c as int - '0' as int)
    } else if 'a' <= c && c <= 'f' {
        Some(c as int - 'a' as int + 10)
    } else if 'A' <= c && c <= 'F' {
        Some(c as int - 'A' as int + 10)
    } else {
        None
    }
}

/// The bytes that a hexadecimal text stands for, if it is one: an even number of
/// digits of either case, nothing else.
pub open spec fn hex_decoded(s: Seq<char>) -> Option<Seq<u8>>
    decreases s.len(),
{
    if s.len() == 0 {
        Some(Seq::empty())
    } else if s.len() == 1 {
        None
    } else {
        match (hex_value(s[0]), hex_value(s[1]), hex_decoded(s.subrange(2, s.len() as int))) {
            (Some(hi), Some(lo), Some(rest)) => Some(seq![(hi * 16 + lo) as u8] + rest),
            _ => None,
        }
    }
}

pub proof fn lemma_hex_digit_value(n: int)
    requires
        0 <= n < 16,
    ensures
        hex_value(hex_digit(n)) == Some(n),
{
    if n == 0 { assert(hex_digit(n) == '0'); }
    else if n == 1 { assert(hex_digit(n) == '1'); }
    else if n == 2 { assert(hex_digit(n) == '2'); }
    else if n == 3 { assert(hex_digit(n) == '3'); }
    else if n == 4 { assert(hex_digit(n) == '4'); }
    else if n == 5 { assert(hex_digit(n) == '5'); }
    else if n == 6 { assert(hex_digit(n) == '6'); }
    else if n == 7 { assert(hex_digit(n) == '7'); }
    else if n == 8 { assert(hex_digit(n) == '8'); }
    else if n == 9 { assert(hex_digit(n) == '9'); }
    else if n == 10 { assert(hex_digit(n) == 'a'); }
    else if n == 11 { assert(hex_digit(n) == 'b'); }
    else if n == 12 { assert(hex_digit(n) == 'c'); }
    else if n == 13 { assert(hex_digit(n) == 'd'); }
    else if n == 14 { assert(hex_digit(n) == 'e'); }
    else { assert(hex_digit(n) == 'f'); }
}

/// Decoding the hexadecimal text of some bytes gives those bytes back.
pub proof fn lemma_hex_round_trip(b: Seq<u8>)
    ensures
        hex_decoded(hex_of(b)) == Some(b),
    decreases b.len(),
{
    if b.len() > 0 {
        let s = hex_of(b);
        let rest = b.drop_first();
        lemma_hex_round_trip(rest);
        lemma_hex_digit_value(b[0] as int / 16);
        lemma_hex_digit_value(b[0] as int % 16);
        assert(s.subrange(2, s.len() as int) =~= hex_of(rest));
        assert(seq![b[0]] + rest =~= b);
    }
}

/// Relies on hex::encode: two lowercase digits for each byte, high nibble first.
#[verifier::external_body]
pub(crate) fn hex_encode(b: &[u8]) -> (r: String)
    ensures
        r@ == hex_of(b@),
{
    hex::encode(b)
}

/// Relies on hex::decode: an odd length or a byte that is no hexadecimal digit of
/// either case is an error; otherwise each pair of digits gives one byte.
#[verifier::external_body]
pub(crate) fn hex_decode(s: &str) -> (r: Option<Vec<u8>>)
    ensures
        match r {
            Some(v) => hex_decoded(s@) == Some(v@),
            None => hex_decoded(s@) is None,
        },
{
    hex::decode(s).ok()
}

} // verus!
