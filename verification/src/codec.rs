//! The payload decoder: whitespace-stripped base64 text to UTF-8 text.
//!
//! The remote API wraps the template in a base64 payload. Decoding strips
//! every whitespace character, decodes the rest with the standard (padded,
//! not URL-safe) base64 alphabet, and reads the bytes as UTF-8.

use vstd::prelude::*;
use crate::text::remove_whitespace;
use crate::text::strip_ws;

verus! {

/// What decoding a string with the standard base64 alphabet returns:
/// `None` where the input is not valid padded standard base64, otherwise
/// the decoded bytes. The result depends on the characters alone.
pub uninterp spec fn b64_standard_decoding(s: Seq<char>) -> Option<Seq<u8>>;

/// What reading a byte sequence as UTF-8 returns: `None` where the bytes
/// are not valid UTF-8, otherwise the decoded characters. The result
/// depends on the bytes alone.
pub uninterp spec fn utf8_decoding(bytes: Seq<u8>) -> Option<Seq<char>>;

/// Relies on base64's `Engine::decode` on `general_purpose::STANDARD`:
/// decoding is a function of the input characters alone, succeeds exactly
/// on valid padded standard-alphabet base64, and returns the decoded bytes.
#[verifier::external_body]
fn b64_decode_standard(s: &str) -> (r: Option<Vec<u8>>)
    ensures
        r is Some <==> b64_standard_decoding(s@) is Some,
        r matches Some(bytes) ==> bytes@ == b64_standard_decoding(s@).unwrap(),
{
    base64::Engine::decode(&base64::engine::general_purpose::STANDARD, s).ok()
}

/// Relies on `String::from_utf8`: it succeeds exactly on valid UTF-8 and
/// returns the string those bytes encode, a function of the bytes alone.
#[verifier::external_body]
fn utf8_to_string(bytes: Vec<u8>) -> (r: Option<String>)
    ensures
        r is Some <==> utf8_decoding(bytes@) is Some,
        r matches Some(text) ==> text@ == utf8_decoding(bytes@).unwrap(),
{
    String::from_utf8(bytes).ok()
}

/// Why decoding a payload failed.
#[derive(Clone, Copy, Debug, PartialEq, Eq, Structural)]
pub enum DecodeError {
    /// The whitespace-stripped text is not valid standard base64.
    InvalidBase64,
    /// The base64-decoded bytes are not valid UTF-8.
    InvalidUtf8,
}

/// The decoded text that `content` carries, if both decoding steps succeed:
/// strip whitespace, decode base64, read the bytes as UTF-8.
pub open spec fn decoded_payload(content: Seq<char>) -> Option<Seq<char>> {
    match b64_standard_decoding(strip_ws(content)) {
        Option::None => Option::None,
        Option::Some(bytes) => utf8_decoding(bytes),
    }
}

/// Decodes a base64 payload: strips every whitespace character, decodes the
/// rest with the standard base64 alphabet, and reads the bytes as UTF-8.
pub fn decode_contents(base64_encoded_contents: &String) -> (r: Result<String, DecodeError>)
    ensures
        r is Ok <==> decoded_payload(base64_encoded_contents@) is Some,
        r matches Ok(text) ==> text@ == decoded_payload(base64_encoded_contents@).unwrap(),
        r == Result::<String, DecodeError>::Err(DecodeError::InvalidBase64) <==> b64_standard_decoding(
            strip_ws(base64_encoded_contents@),
        ) is None,
        r == Result::<String, DecodeError>::Err(DecodeError::InvalidUtf8) <==> (
        b64_standard_decoding(strip_ws(base64_encoded_contents@)) matches Some(bytes)
            && utf8_decoding(bytes) is None),
{
    let stripped = remove_whitespace(base64_encoded_contents);
    match b64_decode_standard(stripped.as_str()) {
        Option::None => Result::Err(DecodeError::InvalidBase64),
        Option::Some(bytes) => match utf8_to_string(bytes) {
            Option::None => Result::Err(DecodeError::InvalidUtf8),
            Option::Some(text) => Result::Ok(text),
        },
    }
}

} // verus!
