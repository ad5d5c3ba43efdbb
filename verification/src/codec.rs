//! Base64 and hexadecimal notation.

use vstd::prelude::*;

use base64::engine::general_purpose::STANDARD;
use base64::Engine as _;

use crate::ids::hex_digits;
use crate::text::{bytes_hex, digit};

verus! {

/// The standard Base64 notation of a byte sequence, with padding.
pub uninterp spec fn base64_text(bytes: Seq<u8>) -> Seq<char>;

/// The bytes that a text is the standard Base64 notation of, if it is one.
pub uninterp spec fn base64_bytes(text: Seq<char>) -> Option<Seq<u8>>;

/// Calls `encode` of `base64`'s standard engine: what it gives decodes to the same bytes again.
#[verifier::external_body]
pub(crate) fn to_base64(bytes: &[u8]) -> (r: String)
    ensures
        r@ == base64_text(bytes@),
        base64_bytes(r@) == Some(bytes@),
{
    STANDARD.encode(bytes)
}

/// Calls `decode` of `base64`'s standard engine.
#[verifier::external_body]
pub(crate) fn from_base64(text: &str) -> (r: Option<Vec<u8>>)
    ensures
        base64_bytes(text@) == match r {
            Some(v) => Some(v@),
            None => None,
        },
{
    STANDARD.decode(text).ok()
}

/// The value of a hexadecimal digit in either case, or nothing for another character.
pub open spec fn hex_value(c: char) -> Option<u8> {
    if '0' <= c <= '9' {
        Some((c as int - '0' as int) as u8)
    } else if 'a' <= c <= 'f' {
        Some((c as int - 'a' as int + 10) as u8)
    } else if 'A' <= c <= 'F' {
        Some((c as int - 'A' as int + 10) as u8)
    } else {
        None
    }
}

/// Whether a text is hexadecimal notation: an even number of digits and nothing else.
pub open spec fn is_hex_text(t: Seq<char>) -> bool {
    &&& t.len() % 2 == 0
    &&& forall|i: int| 0 <= i < t.len() ==> hex_value(#[trigger] t[i]) is Some
}

/// The bytes that a hexadecimal text stands for.
pub open spec fn hex_bytes(t: Seq<char>) -> Seq<u8> {
    Seq::new(
        (t.len() / 2) as nat,
        |i: int| (hex_value(t[2 * i])->0 * 16 + hex_value(t[2 * i + 1])->0) as u8,
    )
}

/// The message for a text that is not hexadecimal notation.
pub uninterp spec fn hex_error(t: Seq<char>) -> Seq<char>;

/// Calls `hex::encode`: two lower-case digits for each byte.
#[verifier::external_body]
pub(crate) fn to_hex(bytes: &[u8]) -> (r: String)
    ensures
        r@ == bytes_hex(bytes@),
{
    hex::encode(bytes)
}

/// Calls `hex::decode`: the bytes that the digits stand for, two digits a byte, or the message of
/// the error where there is an odd number of digits or something that is no digit.
#[verifier::external_body]
pub(crate) fn from_hex(text: &str) -> (r: Result<Vec<u8>, String>)
    ensures
        match r {
            Ok(v) => is_hex_text(text@) && v@ == hex_bytes(text@),
            Err(e) => !is_hex_text(text@) && e@ == hex_error(text@),
        },
{
    hex::decode(text).map_err(|e| e.to_string())
}

/// A hexadecimal digit stands for its own value.
proof fn digit_reads_back(d: int)
    requires
        0 <= d < 16,
    ensures
        hex_value(digit(d)) == Some(d as u8),
{
}

/// What was written in hexadecimal notation is read again as it was.
pub proof fn hex_reads_back(bytes: Seq<u8>)
    ensures
        is_hex_text(bytes_hex(bytes)),
        hex_bytes(bytes_hex(bytes)) == bytes,
{
    let t = bytes_hex(bytes);
    hex_digits(bytes);
    assert forall|i: int| 0 <= i < t.len() implies hex_value(#[trigger] t[i]) is Some by {
        let b = bytes[i / 2];
        if i % 2 == 0 {
            assert(t[2 * (i / 2)] == digit(b as int / 16));
            digit_reads_back(b as int / 16);
        } else {
            assert(t[2 * (i / 2) + 1] == digit(b as int % 16));
            digit_reads_back(b as int % 16);
        }
    }
    assert forall|i: int| 0 <= i < bytes.len() implies hex_bytes(t)[i] == bytes[i] by {
        let b = bytes[i];
        assert(t[2 * i] == digit(b as int / 16));
        assert(t[2 * i + 1] == digit(b as int % 16));
        digit_reads_back(b as int / 16);
        digit_reads_back(b as int % 16);
    }
    assert(hex_bytes(t) =~= bytes);
}

} // verus!
