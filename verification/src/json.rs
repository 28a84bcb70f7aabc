//! Reading a string out of a JSON document with serde_json.

use vstd::prelude::*;
use crate::nixpacks::opt_view;

verus! {

/// What serde_json finds in the text `content` under the keys `outer` and then
/// `inner`: `None` when the text is not a JSON document or holds no string there.
pub uninterp spec fn spec_json_str_at(content: Seq<char>, outer: Seq<char>, inner: Seq<char>) -> Option<Seq<char>>;

/// Parses `content` with `serde_json::from_str::<serde_json::Value>`, indexes the
/// value with `outer` and then `inner` (`Value`'s `Index` for `str`), and reads the
/// result with `Value::as_str`.
/// Claimed: the result is `spec_json_str_at(content@, outer@, inner@)`, a function
/// of the three texts alone.
/// Not claimed: which texts serde_json accepts, nor what its lookup yields (the
/// source shows `Null` for a missing key or a value that is not an object, and a
/// string from `as_str` only for a JSON string).
#[verifier::external_body]
pub(crate) fn json_str_at(content: &str, outer: &str, inner: &str) -> (r: Option<String>)
    ensures
        opt_view(r) == spec_json_str_at(content@, outer@, inner@),
{
    match serde_json::from_str::<serde_json::Value>(content) {
        Ok(json) => json[outer][inner].as_str().map(|s| s.to_string()),
        Err(_) => None,
    }
}

} // verus!
