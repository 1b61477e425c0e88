//! Decoding of inbound datagram payloads. The wire format is raw UTF-8 bytes
//! with no framing, so decoding is the only validation an inbound datagram
//! gets: a payload that is not valid UTF-8 is discarded by the caller, never
//! an error.

use vstd::prelude::*;
use vstd::utf8::{decode_utf8, valid_utf8};

verus! {

/// Relies on `core::str::from_utf8`: it returns `Ok` exactly on byte slices
/// that are valid UTF-8, and the returned string holds the characters those
/// bytes encode.
#[verifier::external_body]
pub(crate) fn decode_datagram(bytes: &[u8]) -> (r: Option<String>)
    ensures
        r is Some <==> valid_utf8(bytes@),
        r matches Some(s) ==> s@ == decode_utf8(bytes@),
{
    match core::str::from_utf8(bytes) {
        Ok(s) => Some(s.to_string()),
        Err(_) => None,
    }
}

} // verus!
