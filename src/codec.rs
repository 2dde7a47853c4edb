//! The transport encoding of scripts: standard base64 over UTF-8 text.

use vstd::prelude::*;
use vstd::utf8::{decode_utf8, encode_utf8, valid_utf8};
use base64::Engine;

verus! {

broadcast use vstd::utf8::group_utf8_lib;

/// Declares `base64::DecodeError`, what decoding invalid base64 gives.
#[verifier::external_type_specification]
#[verifier::external_body]
pub struct ExDecodeError(base64::DecodeError);

/// The bytes that standard base64 (with padding) decodes a text to, or nothing when
/// the text is not valid base64.
pub uninterp spec fn base64_decoding(text: Seq<char>) -> Option<Seq<u8>>;

/// The standard base64 text (with padding) of some bytes.
pub uninterp spec fn base64_encoding(bytes: Seq<u8>) -> Seq<char>;

/// Why a script could not be read.
#[derive(Clone, Copy, Debug, PartialEq, Eq, Structural)]
pub enum EngineError {
    /// The script is not valid base64.
    InvalidBase64,
    /// The decoded bytes are not valid UTF-8.
    InvalidUtf8,
}

/// Relies on `base64::engine::general_purpose::STANDARD.decode`: decoding depends on
/// the text alone.
#[verifier::external_body]
fn base64_decode(text: &str) -> (r: Result<Vec<u8>, base64::DecodeError>)
    ensures
        match r {
            Ok(bytes) => base64_decoding(text@) == Some(bytes@),
            Err(_) => base64_decoding(text@) is None,
        },
{
    base64::engine::general_purpose::STANDARD.decode(text)
}

/// Relies on `base64::engine::general_purpose::STANDARD.encode`: the encoding depends
/// on the bytes alone, and the same engine decodes it back to them.
#[verifier::external_body]
fn base64_encode(bytes: &[u8]) -> (r: String)
    ensures
        r@ == base64_encoding(bytes@),
        base64_decoding(r@) == Some(bytes@),
{
    base64::engine::general_purpose::STANDARD.encode(bytes)
}

/// Relies on `String::from_utf8`: it accepts exactly the valid UTF-8 byte strings and
/// keeps the characters they encode.
#[verifier::external_body]
fn utf8_string(bytes: Vec<u8>) -> (r: Option<String>)
    ensures
        match r {
            Some(s) => valid_utf8(bytes@) && s@ == decode_utf8(bytes@),
            None => !valid_utf8(bytes@),
        },
{
    String::from_utf8(bytes).ok()
}

/// The text that a transport-encoded script carries: base64, then UTF-8.
pub open spec fn script_text(raw: Seq<char>) -> Option<Seq<char>> {
    match base64_decoding(raw) {
        Some(bytes) => if valid_utf8(bytes) {
            Some(decode_utf8(bytes))
        } else {
            None
        },
        None => None,
    }
}

/// Undoes the transport encoding of a script.
pub fn decode_script(raw: &str) -> (r: Result<String, EngineError>)
    ensures
        match r {
            Ok(text) => script_text(raw@) == Some(text@),
            Err(EngineError::InvalidBase64) => base64_decoding(raw@) is None,
            Err(EngineError::InvalidUtf8) => base64_decoding(raw@) matches Some(b) && !valid_utf8(
                b,
            ),
        },
{
    let bytes = match base64_decode(raw) {
        Ok(b) => b,
        Err(_) => return Err(EngineError::InvalidBase64),
    };
    match utf8_string(bytes) {
        Some(text) => Ok(text),
        None => Err(EngineError::InvalidUtf8),
    }
}

/// Applies the transport encoding to a script text; decoding the result gives the text
/// back.
pub fn encode_script(text: &str) -> (r: String)
    ensures
        r@ == base64_encoding(encode_utf8(text@)),
        script_text(r@) == Some(text@),
{
    base64_encode(text.as_bytes())
}

} // verus!
