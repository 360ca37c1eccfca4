//! What the library takes from `serde_json`: the parsed document, the few
//! reads the goal map needs, and the quoting of a string.
//!
//! A parsed document is opaque to verified code. What it holds is given a
//! name, [`json_contents`], with a mathematical value, [`Json`]; the reads
//! are stated over that value. Nothing in this file is proved: each
//! contract says what the named function of `serde_json` is taken to do.

use vstd::prelude::*;

verus! {

/// A parsed JSON document, `serde_json::Value`.
#[verifier::external_type_specification]
#[verifier::external_body]
pub struct ExValue(serde_json::Value);

/// The error of `serde_json`, carried from a failed parse to the caller
/// that turns it into an error of this library.
#[verifier::external_type_specification]
#[verifier::external_body]
pub struct ExError(serde_json::Error);

/// A JSON value as a mathematical value. Of a number only the fact that it
/// is one is kept: the library reads none.
pub ghost enum Json {
    Null,
    Bool(bool),
    Number,
    Text(Seq<char>),
    Array(Seq<Json>),
    Object(Map<Seq<char>, Json>),
}

/// What a `serde_json::Value` holds.
pub uninterp spec fn json_contents(value: serde_json::Value) -> Json;

/// What `serde_json::from_str` reads from a text, where it reads a
/// document: the same text gives the same document, or fails, every time.
pub uninterp spec fn json_parsed(text: Seq<char>) -> Option<Json>;

/// The JSON string literal, quotes and escapes included, that `serde_json`
/// writes for a text.
pub uninterp spec fn json_quoted(text: Seq<char>) -> Seq<char>;

/// What each value of a vector of `serde_json::Value` holds.
pub open spec fn contents_of(values: Seq<serde_json::Value>) -> Seq<Json> {
    Seq::new(values.len(), |i: int| json_contents(values[i]))
}

/// Calls `serde_json::from_str` for a `serde_json::Value`. The contract
/// claims only that the outcome is a function of the text: a document
/// whose contents the text determines, or a failure.
#[verifier::external_body]
pub(crate) fn parse_document(text: &str) -> (r: Result<serde_json::Value, serde_json::Error>)
    ensures
        match r {
            Ok(document) => json_parsed(text@) == Some(json_contents(document)),
            Err(_) => json_parsed(text@) is None,
        },
{
    serde_json::from_str::<serde_json::Value>(text)
}

/// Calls `serde_json::Value::get` with a string key: the member under the
/// key where the value is an object that has the key, `None` for an object
/// without the key and for any value that is no object.
#[verifier::external_body]
pub(crate) fn member<'a>(value: &'a serde_json::Value, key: &str) -> (r: Option<
    &'a serde_json::Value,
>)
    ensures
        match r {
            Some(found) => {
                &&& json_contents(*value) matches Json::Object(members)
                &&& members.contains_key(key@)
                &&& members[key@] == json_contents(*found)
            },
            None => !(json_contents(*value) matches Json::Object(members) && members.contains_key(
                key@,
            )),
        },
{
    value.get(key)
}

/// `serde_json::Value::as_array`: the vector of an array, `None` for any
/// other value.
pub assume_specification[ serde_json::Value::as_array ](value: &serde_json::Value) -> (r: Option<
    &Vec<serde_json::Value>,
>)
    ensures
        match r {
            Some(items) => json_contents(*value) == Json::Array(contents_of(items@)),
            None => !(json_contents(*value) is Array),
        },
;

/// `serde_json::Value::as_str`: the text of a string, `None` for any other
/// value.
pub assume_specification[ serde_json::Value::as_str ](value: &serde_json::Value) -> (r: Option<
    &str,
>)
    ensures
        match r {
            Some(text) => json_contents(*value) == Json::Text(text@),
            None => !(json_contents(*value) is Text),
        },
;

/// Writes a text as a JSON string literal through the `Display` of a
/// `serde_json::Value` that holds it. The contract claims only that the
/// literal is a function of the text.
#[verifier::external_body]
pub(crate) fn quote(text: &str) -> (r: String)
    ensures
        r@ == json_quoted(text@),
{
    serde_json::Value::String(text.to_owned()).to_string()
}

} // verus!
