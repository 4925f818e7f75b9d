//! JSON documents, as far as the hub reads them: whether a text is JSON at
//! all, and the members of its top-level object that are strings.

use crate::text::opt_view;
use vstd::prelude::*;

verus! {

/// A JSON value of `serde_json`. The hub carries such values through its
/// envelopes, and looks into one only through `member_text`.
#[verifier::external_type_specification]
#[verifier::external_body]
pub struct ExJsonValue(serde_json::Value);

/// The members of a JSON value that are strings, by name. A value that is
/// not an object has none.
pub uninterp spec fn json_members(value: serde_json::Value) -> Map<Seq<char>, Seq<char>>;

/// The string members of the JSON document that a text spells, as
/// `serde_json` reads it; none where it rejects the text.
pub uninterp spec fn json_document(text: Seq<char>) -> Option<Map<Seq<char>, Seq<char>>>;

/// `serde_json::from_str` to a `Value`: the document, or nothing where the
/// crate reports an error.
#[verifier::external_body]
pub(crate) fn parse_json(text: &str) -> (value: Option<serde_json::Value>)
    ensures
        match value {
            Some(document) => json_document(text@) == Some(json_members(document)),
            None => json_document(text@) is None,
        },
{
    serde_json::from_str::<serde_json::Value>(text).ok()
}

/// `Value::get` with a name: the member's text where the value is an object
/// that has the member and the member is a string, and nothing otherwise.
#[verifier::external_body]
pub(crate) fn member_text(value: &serde_json::Value, key: &str) -> (text: Option<String>)
    ensures
        opt_view(text) == (if json_members(*value).contains_key(key@) {
            Some(json_members(*value)[key@])
        } else {
            None
        }),
{
    match value.get(key) {
        Some(serde_json::Value::String(text)) => Some(text.clone()),
        _ => None,
    }
}

/// The text of member `key` of the JSON object that `payload` spells. There
/// is none where `payload` is not JSON, where it is JSON but no object, where
/// the object has no member `key`, and where that member is not a string.
pub open spec fn json_text_member(payload: Seq<char>, key: Seq<char>) -> Option<Seq<char>> {
    match json_document(payload) {
        Some(members) => if members.contains_key(key) {
            Some(members[key])
        } else {
            None
        },
        None => None,
    }
}

/// Reads the text of member `key` of the JSON object that `payload` spells.
pub fn text_member(payload: &str, key: &str) -> (text: Option<String>)
    ensures
        opt_view(text) == json_text_member(payload@, key@),
{
    match parse_json(payload) {
        Some(document) => member_text(&document, key),
        None => None,
    }
}

} // verus!
