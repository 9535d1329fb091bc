//! The JSON values and errors of serde_json, as the library carries them.
use vstd::prelude::*;

verus! {

/// serde_json's parsed JSON value, carried through unread.
#[verifier::external_type_specification]
#[verifier::external_body]
pub struct ExJsonValue(serde_json::Value);

/// serde_json's error, carried through unread.
#[verifier::external_type_specification]
#[verifier::external_body]
pub struct ExJsonError(serde_json::Error);

/// The JSON document that a byte string holds, as serde_json reads it, or
/// `None` where it holds none.
pub uninterp spec fn json_of(bytes: Seq<u8>) -> Option<serde_json::Value>;

/// Whether a byte string holds one JSON document.
pub open spec fn json_valid(bytes: Seq<u8>) -> bool {
    json_of(bytes) is Some
}

/// Relies on serde_json::from_slice into a generic `Value`: whether it
/// succeeds, and the value it reads, depend on the bytes alone.
#[verifier::external_body]
pub(crate) fn parse_json(bytes: &[u8]) -> (r: Result<serde_json::Value, serde_json::Error>)
    ensures
        match r {
            Ok(v) => json_of(bytes@) == Some(v),
            Err(_) => json_of(bytes@) is None,
        },
{
    serde_json::from_slice::<serde_json::Value>(bytes)
}

} // verus!
