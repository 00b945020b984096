//! JSON documents, read by serde_json and seen here as a tree of plain values.
use vstd::prelude::*;

verus! {

/// A JSON value. A number is held as the decimal text that serde_json writes
/// for it; an object maps each key to its member.
pub enum Json {
    Null,
    Bool(bool),
    Number(Seq<char>),
    Text(Seq<char>),
    Array(Seq<Json>),
    Object(Map<Seq<char>, Json>),
}

/// serde_json's document type, carried as an opaque value.
#[verifier::external_type_specification]
#[verifier::external_body]
pub struct ExValue(serde_json::Value);

/// What a serde_json value holds.
pub uninterp spec fn json_tree(v: serde_json::Value) -> Json;

/// The document serde_json reads from a text, or `None` where the text is not
/// one JSON value.
pub uninterp spec fn json_of_text(text: Seq<char>) -> Option<Json>;

/// The member of an object under `key`; nothing for other values.
pub open spec fn member_of(t: Json, key: Seq<char>) -> Option<Json> {
    match t {
        Json::Object(m) => if m.contains_key(key) {
            Some(m[key])
        } else {
            None
        },
        _ => None,
    }
}

/// The text of a string member under `key`.
pub open spec fn text_member_of(t: Json, key: Seq<char>) -> Option<Seq<char>> {
    match member_of(t, key) {
        Some(Json::Text(s)) => Some(s),
        _ => None,
    }
}

/// The decimal text of a number member under `key`.
pub open spec fn number_member_of(t: Json, key: Seq<char>) -> Option<Seq<char>> {
    match member_of(t, key) {
        Some(Json::Number(s)) => Some(s),
        _ => None,
    }
}

/// Relies on serde_json::from_str into a `Value`: the document the text holds,
/// or an error where it holds none.
#[verifier::external_body]
pub(crate) fn parse_json(text: &str) -> (r: Option<serde_json::Value>)
    ensures
        match json_of_text(text@) {
            Some(t) => r is Some && json_tree(r->0) == t,
            None => r is None,
        },
{
    serde_json::from_str::<serde_json::Value>(text).ok()
}

/// Relies on serde_json::Value::get with a string key: an object's member
/// under that key, and `None` for a missing key or a value that is no object.
#[verifier::external_body]
pub(crate) fn member<'a>(v: &'a serde_json::Value, key: &str) -> (r: Option<&'a serde_json::Value>)
    ensures
        match member_of(json_tree(*v), key@) {
            Some(m) => r is Some && json_tree(*r->0) == m,
            None => r is None,
        },
{
    v.get(key)
}

/// serde_json::Value::as_str: the text of a string value, `None` for others.
pub assume_specification[ serde_json::Value::as_str ](v: &serde_json::Value) -> (r: Option<&str>)
    ensures
        match json_tree(*v) {
            Json::Text(s) => r is Some && r->0@ == s,
            _ => r is None,
        },
;

/// Relies on serde_json::Value::as_number and the `Display` of its `Number`:
/// the decimal text of a number value, `None` for others.
#[verifier::external_body]
pub(crate) fn number_text(v: &serde_json::Value) -> (r: Option<String>)
    ensures
        match json_tree(*v) {
            Json::Number(s) => r is Some && r->0@ == s,
            _ => r is None,
        },
{
    v.as_number().map(|n| n.to_string())
}

/// The text of a string member under `key`.
pub(crate) fn text_member(v: &serde_json::Value, key: &str) -> (r: Option<String>)
    ensures
        match text_member_of(json_tree(*v), key@) {
            Some(s) => r is Some && r->0@ == s,
            None => r is None,
        },
{
    match member(v, key) {
        Some(m) => match m.as_str() {
            Some(s) => Some(s.to_owned()),
            None => None,
        },
        None => None,
    }
}

/// The decimal text of a number member under `key`.
pub(crate) fn number_member(v: &serde_json::Value, key: &str) -> (r: Option<String>)
    ensures
        match number_member_of(json_tree(*v), key@) {
            Some(s) => r is Some && r->0@ == s,
            None => r is None,
        },
{
    match member(v, key) {
        Some(m) => number_text(m),
        None => None,
    }
}

} // verus!
