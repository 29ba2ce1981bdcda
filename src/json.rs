//! Member lookups in JSON text, through `serde_json`.

use vstd::prelude::*;

verus! {

/// The string held by member `key` of the JSON object in `text`, as
/// `serde_json` reads it; `None` when the text is no JSON, or the member is
/// absent or not a string.
pub uninterp spec fn string_member(text: Seq<char>, key: Seq<char>) -> Option<Seq<char>>;

/// The unsigned integer held by member `key` of the JSON object in `text`,
/// as `serde_json` reads it; `None` otherwise.
pub uninterp spec fn u64_member(text: Seq<char>, key: Seq<char>) -> Option<u64>;

/// Relies on `serde_json::from_str`, `Value::get` and `Value::as_str`.
#[verifier::external_body]
pub(crate) fn json_string_member(text: &str, key: &str) -> (r: Option<String>)
    ensures
        match r {
            Some(s) => string_member(text@, key@) == Some(s@),
            None => string_member(text@, key@) is None,
        },
{
    match serde_json::from_str::<serde_json::Value>(text) {
        Ok(v) => match v.get(key) {
            Some(m) => m.as_str().map(String::from),
            None => None,
        },
        Err(_) => None,
    }
}

/// Relies on `serde_json::from_str`, `Value::get` and `Value::as_u64`.
#[verifier::external_body]
pub(crate) fn json_u64_member(text: &str, key: &str) -> (r: Option<u64>)
    ensures
        r == u64_member(text@, key@),
{
    match serde_json::from_str::<serde_json::Value>(text) {
        Ok(v) => match v.get(key) {
            Some(m) => m.as_u64(),
            None => None,
        },
        Err(_) => None,
    }
}

} // verus!
