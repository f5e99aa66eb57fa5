//! Hexadecimal text to bytes.

use vstd::prelude::*;

verus! {

/// Value of one hexadecimal digit, in either case.
pub open spec fn digit_value(c: u8) -> Option<u8> {
    if 0x30 <= c <= 0x39 {
        Some((c - 0x30) as u8)
    } else if 0x61 <= c <= 0x66 {
        Some((c - 0x61 + 10) as u8)
    } else if 0x41 <= c <= 0x46 {
        Some((c - 0x41 + 10) as u8)
    } else {
        None
    }
}

/// An even number of hexadecimal digits.
pub open spec fn is_hex_text(t: Seq<u8>) -> bool {
    t.len() % 2 == 0 && forall|i: int| 0 <= i < t.len() ==> digit_value(#[trigger] t[i]) is Some
}

/// The byte that the digits at `2 * i` and `2 * i + 1` spell.
pub open spec fn decoded_byte(t: Seq<u8>, i: int) -> u8 {
    (16 * digit_value(t[2 * i]).unwrap() + digit_value(t[2 * i + 1]).unwrap()) as u8
}

/// The bytes that a hexadecimal text spells, two digits to a byte.
pub open spec fn hex_decoded(t: Seq<u8>) -> Seq<u8> {
    Seq::new((t.len() / 2) as nat, |i: int| decoded_byte(t, i))
}

/// `hex::FromHexError`, carried through as it comes.
#[verifier::external_type_specification]
#[verifier::external_body]
pub struct ExFromHexError(hex::FromHexError);

/// `hex::decode` on a byte slice. Believed of it: it succeeds exactly on an
/// even number of digits `0-9`, `a-f`, `A-F`, and then gives one byte for
/// each pair of digits, the first digit of a pair being the high half.
#[verifier::external_body]
fn hex_decode(text: &[u8]) -> (r: Result<Vec<u8>, hex::FromHexError>)
    ensures
        match r {
            Ok(v) => is_hex_text(text@) && v@ == hex_decoded(text@),
            Err(_) => !is_hex_text(text@),
        },
{
    hex::decode(text)
}

/// Decodes hexadecimal text. `None` unless the text is an even number of
/// hexadecimal digits.
pub fn decode(text: &[u8]) -> (r: Option<Vec<u8>>)
    ensures
        r is Some <==> is_hex_text(text@),
        r matches Some(v) ==> v@ == hex_decoded(text@),
{
    match hex_decode(text) {
        Ok(v) => Some(v),
        Err(_) => None,
    }
}

} // verus!
