//! Payload decoding: raw request bytes must form valid UTF-8 text before they
//! are handed to the storage engine.

use vstd::prelude::*;
use vstd::utf8::{decode_utf8, valid_utf8};

verus! {

/// Relies on core::str::from_utf8: it returns `Ok` exactly when the bytes are
/// a valid UTF-8 encoding, and the returned text is the decoding of those
/// bytes, stated here over vstd's UTF-8 model.
#[verifier::external_body]
pub(crate) fn decode_payload(bytes: &[u8]) -> (r: Option<&str>)
    ensures
        r is Some <==> valid_utf8(bytes@),
        r matches Some(s) ==> s@ == decode_utf8(bytes@),
{
    match core::str::from_utf8(bytes) {
        Ok(s) => Some(s),
        Err(_) => None,
    }
}

} // verus!
