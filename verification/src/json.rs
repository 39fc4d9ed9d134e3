//! Reading one string field out of a JSON response body.

use vstd::prelude::*;

verus! {

/// The string value of the top-level field `key` of the JSON document
/// `doc`, or `None` when `doc` is not a JSON object or has no string field
/// named `key`. The value depends on the document text and the key alone.
pub uninterp spec fn json_str_field(doc: Seq<char>, key: Seq<char>) -> Option<Seq<char>>;

/// Relies on serde_json::from_str, serde_json::Value::get and
/// serde_json::Value::as_str: together they read the top-level string field
/// `key` of the document, a function of the document text and the key alone.
#[verifier::external_body]
pub(crate) fn json_string_field(doc: &str, key: &str) -> (r: Option<String>)
    ensures
        r is Some <==> json_str_field(doc@, key@) is Some,
        r matches Some(s) ==> json_str_field(doc@, key@) == Some(s@),
{
    match serde_json::from_str::<serde_json::Value>(doc) {
        Ok(v) => match v.get(key) {
            Some(f) => f.as_str().map(|s| s.to_string()),
            None => None,
        },
        Err(_) => None,
    }
}

} // verus!
