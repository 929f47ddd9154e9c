//! Trusted boundary to the JSON parser.
//!
//! What a string field of a JSON document holds is a function of the
//! document text and the key path alone; it gets a name here, and the
//! wrappers state their result through that name. Everything that acts on
//! the extracted values is verified code in the neighbouring modules.

use vstd::prelude::*;

verus! {

/// The string field stored under `key` at the top level of the JSON
/// document `text`; nothing when the text is not valid JSON, the key is
/// absent, or the field is not a string.
pub uninterp spec fn json_str_at(text: Seq<char>, key: Seq<char>) -> Option<Seq<char>>;

/// The string field stored under `inner` of the object stored under
/// `outer` of the JSON document `text`; nothing when any step of that path
/// is missing or of the wrong shape.
pub uninterp spec fn json_str_at_path(
    text: Seq<char>,
    outer: Seq<char>,
    inner: Seq<char>,
) -> Option<Seq<char>>;

/// Relies on serde_json::from_str, serde_json::Value::get and
/// serde_json::Value::as_str: the string field under `key` of the parsed
/// document, a function of the text and the key alone.
#[verifier::external_body]
pub(crate) fn json_string_field(text: &str, key: &str) -> (r: Option<String>)
    ensures
        match r {
            Some(v) => json_str_at(text@, key@) == Some(v@),
            None => json_str_at(text@, key@) is None,
        },
{
    match serde_json::from_str::<serde_json::Value>(text) {
        Ok(doc) => match doc.get(key) {
            Some(field) => field.as_str().map(|v| v.to_string()),
            None => None,
        },
        Err(_) => None,
    }
}

/// Relies on serde_json::from_str, serde_json::Value::get and
/// serde_json::Value::as_str: the string field under the two-key path
/// `outer`.`inner` of the parsed document, a function of the text and the
/// keys alone.
#[verifier::external_body]
pub(crate) fn json_string_field_at(text: &str, outer: &str, inner: &str) -> (r: Option<String>)
    ensures
        match r {
            Some(v) => json_str_at_path(text@, outer@, inner@) == Some(v@),
            None => json_str_at_path(text@, outer@, inner@) is None,
        },
{
    match serde_json::from_str::<serde_json::Value>(text) {
        Ok(doc) => match doc.get(outer).and_then(|o| o.get(inner)) {
            Some(field) => field.as_str().map(|v| v.to_string()),
            None => None,
        },
        Err(_) => None,
    }
}

} // verus!
