//! Hexadecimal text, as the host writes sender identities and payloads.

use vstd::prelude::*;
use crate::error::DecodeError;

verus! {

/// `hex::FromHexError`, the reason for which text spells no bytes. Nothing
/// is known of what it holds.
#[verifier::external_type_specification]
#[verifier::external_body]
pub struct ExFromHexError(hex::FromHexError);

/// The value of a hexadecimal digit, in either case.
pub open spec fn hex_digit(c: char) -> Option<u8> {
    if '0' <= c <= '9' {
        Some((c as u32 - '0' as u32) as u8)
    } else if 'a' <= c <= 'f' {
        Some((c as u32 - 'a' as u32 + 10) as u8)
    } else if 'A' <= c <= 'F' {
        Some((c as u32 - 'A' as u32 + 10) as u8)
    } else {
        None
    }
}

/// Whether `text` spells bytes: an even number of hexadecimal digits.
pub open spec fn is_hex_text(text: Seq<char>) -> bool {
    &&& text.len() % 2 == 0
    &&& forall|i: int| 0 <= i < text.len() ==> hex_digit(#[trigger] text[i]).is_some()
}

/// The bytes that hexadecimal `text` spells, two digits to a byte.
pub open spec fn hex_bytes(text: Seq<char>) -> Seq<u8> {
    Seq::new(
        text.len() / 2,
        |i: int| (hex_digit(text[2 * i]).unwrap() * 16 + hex_digit(text[2 * i + 1]).unwrap()) as u8,
    )
}

/// `text` after every leading repetition of `prefix` has been taken away.
pub open spec fn without_prefix(text: Seq<char>, prefix: Seq<char>) -> Seq<char>
    decreases text.len(),
{
    if prefix.len() > 0 && prefix.is_prefix_of(text) {
        without_prefix(text.skip(prefix.len() as int), prefix)
    } else {
        text
    }
}

/// The marker that the host puts before hexadecimal digits.
pub open spec fn hex_marker() -> Seq<char> {
    seq!['0', 'x']
}

/// The bytes that the host's `text` stands for: the digits that follow the
/// markers, if they spell bytes.
pub open spec fn text_bytes(text: Seq<char>) -> Option<Seq<u8>> {
    let digits = without_prefix(text, hex_marker());
    if is_hex_text(digits) {
        Some(hex_bytes(digits))
    } else {
        None
    }
}

/// `str::trim_start_matches` with a string as the pattern: the text that is
/// left once the pattern has been removed from the start as often as it
/// stands there.
#[verifier::external_body]
fn trim_start_matches<'a>(text: &'a str, prefix: &str) -> (rest: &'a str)
    requires
        prefix@.len() > 0,
    ensures
        rest@ == without_prefix(text@, prefix@),
{
    text.trim_start_matches(prefix)
}

/// `hex::decode` on a string. It succeeds on an even number of hexadecimal
/// digits, upper or lower case, and on nothing else; each pair of digits
/// gives one byte, the first digit being the upper half.
#[verifier::external_body]
fn hex_decode(digits: &str) -> (bytes: Result<Vec<u8>, hex::FromHexError>)
    ensures
        bytes.is_ok() <==> is_hex_text(digits@),
        bytes matches Ok(b) ==> b@ == hex_bytes(digits@),
{
    hex::decode(digits)
}

/// Reads the bytes that the host wrote as `text`.
pub fn decode_text(text: &str) -> (bytes: Result<Vec<u8>, DecodeError>)
    ensures
        bytes.is_ok() <==> text_bytes(text@).is_some(),
        bytes matches Ok(b) ==> Some(b@) == text_bytes(text@),
        bytes matches Err(e) ==> e == DecodeError::InvalidPayloadEncoding,
{
    proof {
        reveal_strlit("0x");
        assert("0x"@ =~= hex_marker());
    }
    let digits = trim_start_matches(text, "0x");
    match hex_decode(digits) {
        Ok(b) => Ok(b),
        Err(_) => Err(DecodeError::InvalidPayloadEncoding),
    }
}

} // verus!
