//! Payloads as UTF-8 text.

use vstd::prelude::*;
use vstd::slice::slice_to_vec;
use vstd::utf8::decode_utf8;
use vstd::utf8::encode_utf8;
use vstd::utf8::valid_utf8;
use crate::error::RconError;
use crate::error::RconErrorView;

verus! {

/// `String::from_utf8` of std, with its error reduced to `None`. Trusted,
/// not proved: the call succeeds exactly on well-formed UTF-8, and the
/// string it then gives holds the characters that the bytes encode.
#[verifier::external_body]
fn string_from_utf8(bytes: Vec<u8>) -> (r: Option<String>)
    ensures
        r is Some <==> valid_utf8(bytes@),
        r matches Some(s) ==> s@ == decode_utf8(bytes@),
{
    match String::from_utf8(bytes) {
        Ok(s) => Some(s),
        Err(_) => None,
    }
}

/// The bytes that stand for `text` in a payload: its UTF-8 encoding.
pub fn encode_text(text: &str) -> (bytes: Vec<u8>)
    ensures
        bytes@ == encode_utf8(text@),
{
    slice_to_vec(text.as_bytes())
}

/// Reads `payload` as UTF-8 text. Fails with `InvalidResponseEncoding`,
/// which hands the payload back untouched, exactly when the bytes are not
/// well-formed UTF-8.
pub fn decode_text(payload: Vec<u8>) -> (r: Result<String, RconError>)
    ensures
        match r {
            Ok(text) => valid_utf8(payload@) && text@ == decode_utf8(payload@),
            Err(e) => !valid_utf8(payload@) && e@ == (RconErrorView::InvalidResponseEncoding {
                raw: payload@,
            }),
        },
{
    let copy: Vec<u8> = slice_to_vec(payload.as_slice());
    match string_from_utf8(copy) {
        Some(s) => Ok(s),
        None => Err(RconError::InvalidResponseEncoding { raw: payload }),
    }
}

} // verus!
