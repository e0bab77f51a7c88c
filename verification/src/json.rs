//! The few questions that the library asks of a JSON document, answered by
//! `serde_json`, and the one change that it makes to an object.

use vstd::prelude::*;

verus! {

/// `serde_json::Value`, a JSON document. Nothing is known of its inside; the
/// functions below ask `serde_json` about it.
#[verifier::external_type_specification]
#[verifier::external_body]
pub struct ExJsonValue(serde_json::Value);

/// `serde_json::Error`, which says why a text is no JSON. It is only passed on.
#[verifier::external_type_specification]
#[verifier::external_body]
pub struct ExJsonError(serde_json::Error);

/// The document that `serde_json::from_str` reads from a text, if it reads one.
pub uninterp spec fn json_document(text: Seq<char>) -> Option<serde_json::Value>;

/// The member that `serde_json::Value::get` finds under a string key.
pub uninterp spec fn json_member(value: serde_json::Value, key: Seq<char>) -> Option<serde_json::Value>;

/// The text that `serde_json::Value::as_str` sees in a value.
pub uninterp spec fn json_text(value: serde_json::Value) -> Option<Seq<char>>;

/// Calls `serde_json::from_str` for a `Value`. The parser is a function of the
/// text alone, so the outcome is named by `json_document`: `Ok` with that
/// document where the text is JSON, `Err` where it is not.
#[verifier::external_body]
pub(crate) fn parse_json(text: &str) -> (res: Result<serde_json::Value, serde_json::Error>)
    ensures
        res is Ok <==> json_document(text@) is Some,
        res matches Ok(v) ==> json_document(text@) == Some(v),
{
    serde_json::from_str(text)
}

/// Calls `serde_json::Value::get` with a string key: the member of that name
/// where the value is an object that has one, `None` otherwise.
#[verifier::external_body]
pub(crate) fn json_get<'a>(value: &'a serde_json::Value, key: &str) -> (res: Option<&'a serde_json::Value>)
    ensures
        res is Some <==> json_member(*value, key@) is Some,
        res matches Some(m) ==> json_member(*value, key@) == Some(*m),
{
    value.get(key)
}

/// Calls `serde_json::Value::as_str`: the text of a JSON string, `None` for
/// every other kind of value.
#[verifier::external_body]
pub(crate) fn json_as_str<'a>(value: &'a serde_json::Value) -> (res: Option<&'a str>)
    ensures
        res is Some <==> json_text(*value) is Some,
        res matches Some(s) ==> json_text(*value) == Some(s@),
{
    value.as_str()
}

/// The elements that `serde_json::Value::as_array` sees in a value.
pub uninterp spec fn json_elements(value: serde_json::Value) -> Option<Seq<serde_json::Value>>;

/// Whether `serde_json::Value::is_object` holds of a value.
pub uninterp spec fn json_object(value: serde_json::Value) -> bool;

/// The object that results where `serde_json::Map::insert` puts a JSON
/// string under a key of an object.
pub uninterp spec fn json_with_text(
    value: serde_json::Value,
    key: Seq<char>,
    text: Seq<char>,
) -> serde_json::Value;

/// Calls `serde_json::Value::as_array`: the elements of a JSON array, `None`
/// for every other kind of value.
#[verifier::external_body]
pub(crate) fn json_as_array<'a>(value: &'a serde_json::Value) -> (res: Option<
    &'a Vec<serde_json::Value>,
>)
    ensures
        res is Some <==> json_elements(*value) is Some,
        res matches Some(items) ==> json_elements(*value) == Some(items@),
{
    value.as_array()
}

/// Calls `serde_json::Value::is_object`, which tells whether a value is a
/// JSON object.
#[verifier::external_body]
pub(crate) fn json_is_object(value: &serde_json::Value) -> (res: bool)
    ensures
        res == json_object(*value),
{
    value.is_object()
}

/// Calls `serde_json::Map::insert` on the map of an object, which
/// `serde_json::Value::as_object_mut` hands out, with `key` and the JSON
/// string `text`. The value must be an object. The insertion is a function of
/// the object, the key and the text alone, so the object afterwards is named
/// by `json_with_text`.
#[verifier::external_body]
pub(crate) fn json_insert_text(value: &mut serde_json::Value, key: &str, text: String)
    requires
        json_object(*old(value)),
    ensures
        *final(value) == json_with_text(*old(value), key@, text@),
{
    value.as_object_mut().unwrap().insert(key.to_string(), serde_json::Value::String(text));
}

/// The text found under `key` in the JSON object that `text` holds.
pub open spec fn spec_string_member(text: Seq<char>, key: Seq<char>) -> Option<Seq<char>> {
    match json_document(text) {
        Some(doc) => match json_member(doc, key) {
            Some(member) => json_text(member),
            None => None,
        },
        None => None,
    }
}

/// Reads `text` as JSON and returns the string stored under `key`, if the
/// document is an object with a string member of that name.
pub fn string_member(text: &str, key: &str) -> (res: Option<String>)
    ensures
        res is Some <==> spec_string_member(text@, key@) is Some,
        res matches Some(s) ==> spec_string_member(text@, key@) == Some(s@),
{
    match parse_json(text) {
        Ok(doc) => match json_get(&doc, key) {
            Some(member) => match json_as_str(member) {
                Some(s) => Some(s.to_owned()),
                None => None,
            },
            None => None,
        },
        Err(_) => None,
    }
}

} // verus!
