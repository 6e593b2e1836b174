//! JSON text, read through `serde_json`.
//!
//! The library keeps JSON documents (account configuration, column filters)
//! as text; these two calls are all it asks of them.

use vstd::prelude::*;

verus! {

/// What reading `text` as a JSON document gives: `None` when it is one, else
/// the parser's error message.
pub uninterp spec fn json_problem(text: Seq<char>) -> Option<Seq<char>>;

/// Calls `serde_json::from_str::<serde_json::Value>(text)` and keeps only
/// whether it succeeded (and the error's message when it did not). Claimed:
/// the outcome is a function of `text` alone, named [`json_problem`].
#[verifier::external_body]
pub(crate) fn check_json(text: &str) -> (r: Result<(), String>)
    ensures
        match (r, json_problem(text@)) {
            (Ok(_), None) => true,
            (Err(a), Some(b)) => a@ == b,
            _ => false,
        },
{
    match serde_json::from_str::<serde_json::Value>(text) {
        Ok(_) => Ok(()),
        Err(e) => Err(e.to_string()),
    }
}

/// The string stored under `key` in the JSON object `text`: `None` when
/// `text` is not JSON, not an object, has no such key, or holds a non-string there.
pub uninterp spec fn json_field_str(text: Seq<char>, key: Seq<char>) -> Option<Seq<char>>;

/// Reads `text` with `serde_json::from_str::<serde_json::Value>`, then takes
/// `value.get(key)` and `as_str()`. Claimed: the outcome is a function of
/// `text` and `key` alone, named [`json_field_str`].
#[verifier::external_body]
pub(crate) fn field_str(text: &str, key: &str) -> (r: Option<String>)
    ensures
        match (r, json_field_str(text@, key@)) {
            (Some(a), Some(b)) => a@ == b,
            (None, None) => true,
            _ => false,
        },
{
    match serde_json::from_str::<serde_json::Value>(text) {
        Ok(v) => v.get(key).and_then(|x| x.as_str()).map(|s| s.to_string()),
        Err(_) => None,
    }
}

} // verus!
