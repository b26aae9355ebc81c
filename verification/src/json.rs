//! Reading one string out of a JSON document, done by the `serde_json` crate.

use vstd::prelude::*;
use crate::text::text_opt_view;

verus! {

/// `serde_json::Error`, handed on as it comes; nothing is read from it.
#[verifier::external_type_specification]
#[verifier::external_body]
pub struct ExJsonError(serde_json::Error);

/// The string that the JSON document `json` holds under `key`.
///
/// The outer `None` where `json` is no JSON document; the inner `None`
/// where the document is no object, has no member `key`, or holds
/// something other than a string there. This is what `serde_json` computes
/// from the two texts; nothing more is known of it here.
pub uninterp spec fn json_string_member(json: Seq<char>, key: Seq<char>) -> Option<
    Option<Seq<char>>,
>;

/// Parses `json` with `serde_json::from_str` into a `serde_json::Value`,
/// indexes the value by `key` and asks `Value::as_str` for the string.
///
/// Indexing with a text never fails: it yields `Null` where the value is no
/// object or lacks the key, and `as_str` yields `None` for anything but a
/// string. The contract claims that failure and outcome depend on the two
/// texts alone.
#[verifier::external_body]
pub(crate) fn string_member(json: &str, key: &str) -> (r: Result<Option<String>, serde_json::Error>)
    ensures
        match r {
            Ok(member) => json_string_member(json@, key@) == Some(text_opt_view(member)),
            Err(_) => json_string_member(json@, key@) is None,
        },
{
    let value: serde_json::Value = serde_json::from_str(json)?;
    Ok(value[key].as_str().map(String::from))
}

} // verus!
