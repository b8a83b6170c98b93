//! Text handed over by the engine as bytes (names, emitted source), and its
//! decoding.

use crate::error::ErrorCode;
use vstd::prelude::*;

verus! {

/// The text that `String::from_utf8` finds in `bytes`, or `None` where
/// `bytes` is not valid UTF-8.
pub uninterp spec fn utf8_text(bytes: Seq<u8>) -> Option<Seq<char>>;

/// Relies on std's `String::from_utf8`: it accepts exactly the valid UTF-8
/// byte sequences and then returns the text they encode, which depends on the
/// bytes alone.
#[verifier::external_body]
fn string_from_utf8(bytes: Vec<u8>) -> (r: Option<String>)
    ensures
        r is None <==> utf8_text(bytes@) is None,
        r matches Some(s) ==> utf8_text(bytes@) == Some(s@),
{
    String::from_utf8(bytes).ok()
}

/// Decodes text received from the engine. Bytes that are not valid UTF-8
/// are a failure, never replaced or dropped.
pub fn decode_name(bytes: &Vec<u8>) -> (r: Result<String, ErrorCode>)
    ensures
        r is Err <==> utf8_text(bytes@) is None,
        r matches Ok(s) ==> utf8_text(bytes@) == Some(s@),
        r is Err ==> r == Err::<String, ErrorCode>(ErrorCode::Unhandled),
{
    let owned = bytes.clone();
    assert(owned@ =~= bytes@);
    match string_from_utf8(owned) {
        Some(s) => Ok(s),
        None => Err(ErrorCode::Unhandled),
    }
}

} // verus!
