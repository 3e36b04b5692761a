//! The boundary to `serde_json`: reading a document from JSON text and writing
//! a value as JSON text.
//!
//! A number crosses the boundary as text, in both directions. `serde_json` is
//! built to read floats exactly, so the literal that it prints for a number is
//! read back as that same number and written as that same literal.

use crate::json::Json;
use crate::json::JsonView;
use vstd::prelude::*;

verus! {

#[verifier::external_type_specification]
#[verifier::external_body]
pub struct ExJsonValue(serde_json::Value);

/// The document that `serde_json` reads from a text, or `None` where it
/// rejects the text. A number of the document stands in it by the literal that
/// `serde_json` prints for that number.
pub uninterp spec fn parsed_json(text: Seq<char>) -> Option<JsonView>;

/// The message with which `serde_json` rejects a text that it does not read
/// as a document.
pub uninterp spec fn parse_failure(text: Seq<char>) -> Seq<char>;

/// The compact JSON text that `serde_json` writes for a value.
///
/// A number is written as `serde_json` prints the number that it reads from
/// the literal; a literal that it does not read as a number is written as
/// `null`. Where an object holds a key more than once, the key is written
/// once, at the place of its first member and with the value of its last.
pub uninterp spec fn json_text(value: JsonView) -> Seq<char>;

/// Why a text could not be read as a document.
#[derive(Debug, PartialEq, Eq)]
pub struct ParseError {
    /// What `serde_json` reports of the text, with the line and column where
    /// it stopped reading.
    pub message: String,
}

/// Rebuilds a value of `serde_json` as a value of this library, variant by
/// variant: a number by the literal that `serde_json` prints for it, an
/// object's members in the order in which its map yields them.
#[verifier::external_body]
fn json_from_outside(value: serde_json::Value) -> Json {
    match value {
        serde_json::Value::Null => Json::Null,
        serde_json::Value::Bool(b) => Json::Bool(b),
        serde_json::Value::Number(n) => Json::Number(n.to_string()),
        serde_json::Value::String(s) => Json::String(s),
        serde_json::Value::Array(items) => Json::Array(
            items.into_iter().map(json_from_outside).collect(),
        ),
        serde_json::Value::Object(map) => Json::Object(
            map.into_iter().map(|(k, v)| (k, json_from_outside(v))).collect(),
        ),
    }
}

/// Rebuilds a value of this library as a value of `serde_json`, variant by
/// variant. A number is read back from its literal; a literal that
/// `serde_json` does not read as a number becomes `null`, which is what
/// `serde_json` itself makes of a number that JSON cannot hold. An object's
/// members are collected into the map of `serde_json`, which keeps a key that
/// comes again at its first place and gives it the later value.
#[verifier::external_body]
fn json_to_outside(value: &Json) -> serde_json::Value {
    match value {
        Json::Null => serde_json::Value::Null,
        Json::Bool(b) => serde_json::Value::Bool(*b),
        Json::Number(literal) => serde_json::from_str::<serde_json::Number>(literal).map_or(
            serde_json::Value::Null,
            serde_json::Value::Number,
        ),
        Json::String(s) => serde_json::Value::String(s.clone()),
        Json::Array(items) => serde_json::Value::Array(items.iter().map(json_to_outside).collect()),
        Json::Object(members) => serde_json::Value::Object(
            members.iter().map(|m| (m.0.clone(), json_to_outside(&m.1))).collect(),
        ),
    }
}

/// `serde_json::from_str` at `serde_json::Value`: the result is the document
/// that `serde_json` reads from `text`, or, where it rejects `text`, the
/// message of its error as `to_string` gives it.
#[verifier::external_body]
fn read_json(text: &str) -> (r: Result<Json, String>)
    ensures
        r is Ok <==> parsed_json(text@) is Some,
        r matches Ok(document) ==> parsed_json(text@) == Some(document@),
        r matches Err(message) ==> message@ == parse_failure(text@),
{
    match serde_json::from_str::<serde_json::Value>(text) {
        Ok(value) => Ok(json_from_outside(value)),
        Err(error) => Err(error.to_string()),
    }
}

/// `to_string` of `serde_json::Value`, on `value` rebuilt as such a value: the
/// result is the compact JSON text that `serde_json` writes for it. For
/// `null`, `true` and `false` that text is the word itself.
#[verifier::external_body]
fn write_json(value: &Json) -> (text: String)
    ensures
        text@ == json_text(value@),
        value@ is Null ==> text@ == "null"@,
        value@ == JsonView::Bool(true) ==> text@ == "true"@,
        value@ == JsonView::Bool(false) ==> text@ == "false"@,
{
    json_to_outside(value).to_string()
}

/// Reads a document from JSON text.
///
/// The result is `Ok` exactly where `serde_json` accepts the text, and then
/// holds the document it reads; else it holds the message with which
/// `serde_json` rejects the text.
pub fn parse_json(text: &str) -> (r: Result<Json, ParseError>)
    ensures
        r is Ok <==> parsed_json(text@) is Some,
        r matches Ok(document) ==> parsed_json(text@) == Some(document@),
        r matches Err(error) ==> error.message@ == parse_failure(text@),
{
    match read_json(text) {
        Ok(document) => Ok(document),
        Err(message) => Err(ParseError { message }),
    }
}

/// Writes a value as compact JSON text: no space or line break between the
/// parts, the members of an object in their order. The words `null`, `true`
/// and `false` are written as they are.
///
/// Two kinds of value that reading never gives are written as something
/// else: a number whose literal is no number is written as `null`, and a key
/// that an object holds more than once is written once, at the place of its
/// first member and with the value of its last.
pub fn serialize_json(value: &Json) -> (text: String)
    ensures
        text@ == json_text(value@),
        value@ is Null ==> text@ == "null"@,
        value@ == JsonView::Bool(true) ==> text@ == "true"@,
        value@ == JsonView::Bool(false) ==> text@ == "false"@,
{
    write_json(value)
}

} // verus!
