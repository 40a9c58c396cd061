//! JSON values, as far as the library reads them.
//!
//! The values are `serde_json`'s. What is inside one is stated over [`Json`], a mathematical
//! model of it; the functions that look inside are not verified, and their contracts repeat
//! what `serde_json` documents of them.

use vstd::prelude::*;

verus! {

#[verifier::external_type_specification]
#[verifier::external_body]
pub struct ExJsonValue(serde_json::Value);

/// A JSON value as a mathematical value. Of a number only that it is one.
pub enum Json {
    Null,
    Bool(bool),
    Number,
    Text(Seq<char>),
    Array(Seq<Json>),
    Object(Map<Seq<char>, Json>),
}

/// What a `serde_json::Value` holds.
pub uninterp spec fn json_view(v: serde_json::Value) -> Json;

/// How a `serde_json::Value` is written by its `Debug` implementation.
pub uninterp spec fn json_debug(v: serde_json::Value) -> Seq<char>;

/// The member `key` of `j`, where `j` is an object that has one.
pub open spec fn member_of(j: Json, key: Seq<char>) -> Option<Json> {
    match j {
        Json::Object(members) => if members.contains_key(key) {
            Some(members[key])
        } else {
            None
        },
        _ => None,
    }
}

/// The element `i` of `j`, where `j` is an array that has one.
pub open spec fn element_of(j: Json, i: int) -> Option<Json> {
    match j {
        Json::Array(elements) => if 0 <= i < elements.len() {
            Some(elements[i])
        } else {
            None
        },
        _ => None,
    }
}

/// The text of `j`, where `j` is a string.
pub open spec fn text_of(j: Json) -> Option<Seq<char>> {
    match j {
        Json::Text(t) => Some(t),
        _ => None,
    }
}

/// What an optional reference to a value holds.
pub open spec fn view_of(r: Option<&serde_json::Value>) -> Option<Json> {
    match r {
        Some(v) => Some(json_view(*v)),
        None => None,
    }
}

/// `serde_json::Value::get` with a string index: the member of that name where the value is
/// an object that has one, `None` for any other value and for a missing member.
#[verifier::external_body]
pub(crate) fn member<'a>(v: &'a serde_json::Value, key: &str) -> (r: Option<&'a serde_json::Value>)
    ensures
        view_of(r) == member_of(json_view(*v), key@),
{
    v.get(key)
}

/// `serde_json::Value::get` with a number index: the element at that index where the value is
/// an array that is long enough, `None` for any other value and for an index out of bounds.
#[verifier::external_body]
pub(crate) fn element<'a>(v: &'a serde_json::Value, i: usize) -> (r: Option<&'a serde_json::Value>)
    ensures
        view_of(r) == element_of(json_view(*v), i as int),
{
    v.get(i)
}

/// `serde_json::Value::as_str`: the text where the value is a string, `None` for any other
/// value.
#[verifier::external_body]
pub(crate) fn as_text<'a>(v: &'a serde_json::Value) -> (r: Option<&'a str>)
    ensures
        match r {
            Some(t) => text_of(json_view(*v)) == Some(t@),
            None => text_of(json_view(*v)) is None,
        },
{
    v.as_str()
}

/// The value as its `Debug` implementation writes it.
#[verifier::external_body]
pub(crate) fn debug_text(v: &serde_json::Value) -> (r: String)
    ensures
        r@ == json_debug(*v),
{
    format!("{:?}", v)
}

} // verus!
