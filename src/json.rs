//! The two places where JSON text is made or read through serde_json.

use vstd::prelude::*;

verus! {

/// The JSON string literal for `s`, quotes and escapes included.
pub uninterp spec fn json_string_literal(s: Seq<char>) -> Seq<char>;

/// The string held under the key `"type"` when `line` is a JSON object
/// with such a member, and nothing otherwise.
pub uninterp spec fn type_member(line: Seq<char>) -> Option<Seq<char>>;

/// Relies on `serde_json::to_string` for a `str`: the JSON string
/// literal for `s`. Serialising a `str` into memory cannot fail, so the
/// empty fallback is never taken.
#[verifier::external_body]
pub(crate) fn json_string(s: &str) -> (r: String)
    ensures
        r@ == json_string_literal(s@),
{
    serde_json::to_string(s).unwrap_or_default()
}

/// Relies on `serde_json::from_str` into a `serde_json::Value`, then on
/// `Value::get` with the key `"type"` and `Value::as_str`: the member's
/// text when the line is an object whose `"type"` is a string.
#[verifier::external_body]
pub(crate) fn type_member_of(line: &str) -> (r: Option<String>)
    ensures
        match r {
            Some(t) => type_member(line@) == Some(t@),
            None => type_member(line@) is None,
        },
{
    match serde_json::from_str::<serde_json::Value>(line) {
        Ok(v) => match v.get("type") {
            Some(t) => t.as_str().map(String::from),
            None => None,
        },
        Err(_) => None,
    }
}

} // verus!
