//! Reading and writing JSON text.
//!
//! This is the only module that touches `serde_json`. The items marked
//! `external_body` are believed, not proved; each says what it relies on.

use crate::json::{Json, JsonView};
use vstd::prelude::*;

verus! {

/// `serde_json::Number`, carried through as an opaque value.
#[verifier::external_type_specification]
#[verifier::external_body]
pub struct ExNumber(serde_json::Number);

/// `serde_json::Value`, the parser's own document tree.
#[verifier::external_type_specification]
#[verifier::external_body]
pub struct ExValue(serde_json::Value);

/// `serde_json::Error`, the parser's report of malformed text.
#[verifier::external_type_specification]
#[verifier::external_body]
pub struct ExError(serde_json::Error);

/// What a `serde_json::Value` holds.
pub uninterp spec fn value_view(value: serde_json::Value) -> JsonView;

/// The document that `serde_json::from_str` reads out of `text`, or `None`
/// when it rejects the text.
pub uninterp spec fn parsed_text(text: Seq<char>) -> Option<JsonView>;

/// The compact JSON text that `serde_json` writes for a document.
pub uninterp spec fn rendered_text(doc: JsonView) -> Seq<char>;

/// Calls `serde_json::from_str` for a `Value`. The call is a function of the
/// text alone: it either yields the document named by `parsed_text` or
/// reports an error, and it returns on every input (nesting is cut off at a
/// fixed depth).
#[verifier::external_body]
fn parse_value(text: &str) -> (r: Result<serde_json::Value, serde_json::Error>)
    ensures
        match r {
            Ok(value) => parsed_text(text@) == Some(value_view(value)),
            Err(_) => parsed_text(text@) is None,
        },
{
    serde_json::from_str::<serde_json::Value>(text)
}

/// Moves a `serde_json::Value` into a [`Json`], variant by variant. An
/// object's members come out of the map one per key, so the list that is
/// built stands for that same map.
#[verifier::external_body]
fn json_from_value(value: serde_json::Value) -> (doc: Json)
    ensures
        doc@ == value_view(value),
{
    match value {
        serde_json::Value::Null => Json::Null,
        serde_json::Value::Bool(b) => Json::Bool(b),
        serde_json::Value::Number(n) => Json::Number(n),
        serde_json::Value::String(s) => Json::String(s),
        serde_json::Value::Array(items) => Json::Array(
            items.into_iter().map(json_from_value).collect(),
        ),
        serde_json::Value::Object(members) => Json::Object(
            members.into_iter().map(|(k, v)| (k, json_from_value(v))).collect(),
        ),
    }
}

/// Copies a [`Json`] into a `serde_json::Value`, variant by variant. Members
/// are entered with `Map::insert` from first to last, which replaces the
/// value of a key that is already present.
#[verifier::external_body]
fn value_from_json(doc: &Json) -> (value: serde_json::Value)
    ensures
        value_view(value) == doc@,
{
    match doc {
        Json::Null => serde_json::Value::Null,
        Json::Bool(b) => serde_json::Value::Bool(*b),
        Json::Number(n) => serde_json::Value::Number(n.clone()),
        Json::String(s) => serde_json::Value::String(s.clone()),
        Json::Array(items) => serde_json::Value::Array(items.iter().map(value_from_json).collect()),
        Json::Object(members) => {
            let mut map = serde_json::Map::new();
            for (key, item) in members.iter() {
                map.insert(key.clone(), value_from_json(item));
            }
            serde_json::Value::Object(map)
        },
    }
}

/// Calls `to_string` on a `serde_json::Value`, which writes compact JSON. The
/// text depends on what the value holds and on nothing else: members are
/// written in the map's key order.
#[verifier::external_body]
fn render_value(value: &serde_json::Value) -> (text: String)
    ensures
        text@ == rendered_text(value_view(*value)),
{
    value.to_string()
}

/// Calls `to_string` on a `serde_json::Error`. Nothing is claimed of the
/// wording.
#[verifier::external_body]
fn describe_error(error: &serde_json::Error) -> (detail: String) {
    error.to_string()
}

/// Why a text could not be read as JSON.
#[derive(Debug, PartialEq)]
pub struct ParseError {
    /// The parser's own description, with line and column.
    pub detail: String,
}

/// Reads a JSON text into a document.
///
/// Succeeds exactly on the texts that `serde_json` accepts, with the document
/// it reads out of them.
pub fn parse(text: &str) -> (r: Result<Json, ParseError>)
    ensures
        match r {
            Ok(doc) => parsed_text(text@) == Some(doc@),
            Err(_) => parsed_text(text@) is None,
        },
{
    match parse_value(text) {
        Ok(value) => Ok(json_from_value(value)),
        Err(error) => Err(ParseError { detail: describe_error(&error) }),
    }
}

/// Writes a document as compact JSON text.
pub fn render(doc: &Json) -> (text: String)
    ensures
        text@ == rendered_text(doc@),
{
    let value = value_from_json(doc);
    render_value(&value)
}

} // verus!
