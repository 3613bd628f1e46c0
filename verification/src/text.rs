//! Decoding wire payloads into text.
//!
//! Both job payloads and control payloads arrive as raw bytes and are read
//! as UTF-8 text; a payload that is not valid UTF-8 is malformed, never a
//! crash.

use vstd::prelude::*;
use vstd::utf8::decode_utf8;
use vstd::utf8::valid_utf8;

verus! {

/// Relies on `core::str::from_utf8`: succeeds exactly on valid UTF-8, and
/// decodes the bytes to the Unicode scalars they encode.
#[verifier::external_body]
pub(crate) fn decode_utf8_bytes(b: &[u8]) -> (r: Option<String>)
    ensures
        r is Some <==> valid_utf8(b@),
        r matches Some(s) ==> s@ == decode_utf8(b@),
{
    match core::str::from_utf8(b) {
        Ok(s) => Some(s.to_owned()),
        Err(_) => None,
    }
}

} // verus!
