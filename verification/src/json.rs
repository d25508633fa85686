//! Trusted boundary to `serde_json`: reading single fields out of a JSON
//! document held as plain bytes.  The payload schema is foreign and
//! evolving, so the library never re-serializes a document; it only reads
//! the fields named here and carries the bytes through unchanged.

use vstd::prelude::*;

verus! {

/// The `name` field of the JSON document `bytes`, as a 64-bit integer:
/// `Some` exactly where `bytes` parses as JSON with a `name` field holding
/// an integer in the `i64` range.
pub uninterp spec fn json_i64_of(bytes: Seq<u8>, name: Seq<char>) -> Option<i64>;

/// The `name` field of the JSON document `bytes`, as a string: `Some`
/// exactly where `bytes` parses as JSON with a `name` field holding a
/// string.
pub uninterp spec fn json_str_of(bytes: Seq<u8>, name: Seq<char>) -> Option<Seq<char>>;

/// Relies on `serde_json::from_slice`, `Value::get` and `Value::as_i64`:
/// each is a function of its arguments alone, so the chain is a function
/// of the document bytes and the field name.
#[verifier::external_body]
pub(crate) fn json_i64_field(bytes: &Vec<u8>, name: &str) -> (r: Option<i64>)
    ensures
        r == json_i64_of(bytes@, name@),
{
    serde_json::from_slice::<serde_json::Value>(bytes).ok().and_then(
        |v| v.get(name).and_then(|f| f.as_i64()),
    )
}

/// Relies on `serde_json::from_slice`, `Value::get` and `Value::as_str`:
/// each is a function of its arguments alone, so the chain is a function
/// of the document bytes and the field name.
#[verifier::external_body]
pub(crate) fn json_str_field(bytes: &Vec<u8>, name: &str) -> (r: Option<String>)
    ensures
        match r {
            Option::Some(s) => json_str_of(bytes@, name@) == Option::Some(s@),
            Option::None => json_str_of(bytes@, name@) is None,
        },
{
    serde_json::from_slice::<serde_json::Value>(bytes).ok().and_then(
        |v| v.get(name).and_then(|f| f.as_str().map(|s| s.to_string())),
    )
}

} // verus!
