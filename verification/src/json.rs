//! JSON documents, as `serde_json` parses and navigates them.
//!
//! The parser and its value type stay outside the verifier. What a value
//! holds is described by [`JsonModel`]. The functions of this file are
//! trusted: each calls one function of `serde_json`, and its contract says
//! what that function does and is not proved here.

use vstd::prelude::*;

verus! {

/// A JSON value as mathematics sees it. Numbers are not told apart: nothing
/// in this library reads one.
pub enum JsonModel {
    Null,
    Bool(bool),
    Number,
    Text(Seq<char>),
    Array(Seq<JsonModel>),
    Object(Map<Seq<char>, JsonModel>),
}

/// Trusted: the parsed JSON value of `serde_json`, kept opaque.
#[verifier::external_type_specification]
#[verifier::external_body]
pub struct ExValue(serde_json::Value);

/// Trusted: the error of `serde_json`, kept opaque.
#[verifier::external_type_specification]
#[verifier::external_body]
pub struct ExError(serde_json::Error);

/// What a parsed value holds.
pub uninterp spec fn value_model(value: serde_json::Value) -> JsonModel;

/// The text that a parse error displays.
pub uninterp spec fn error_text(error: serde_json::Error) -> Seq<char>;

/// What `serde_json::from_str` makes of a text: the document, or the text of
/// the error.
pub uninterp spec fn parsed(text: Seq<char>) -> Result<JsonModel, Seq<char>>;

/// What `serde_json::Value::pointer` finds in a document under a JSON pointer.
pub uninterp spec fn pointer_target(document: JsonModel, pointer: Seq<char>) -> Option<JsonModel>;

/// Trusted: `serde_json::from_str::<Value>`. Parsing depends on the text
/// alone, so the outcome is `parsed` of it: the same text gives a value that
/// holds the same document, or an error with the same message.
#[verifier::external_body]
pub(crate) fn parse_value(text: &str) -> (out: Result<serde_json::Value, serde_json::Error>)
    ensures
        match out {
            Ok(value) => parsed(text@) == Ok::<JsonModel, Seq<char>>(value_model(value)),
            Err(error) => parsed(text@) == Err::<JsonModel, Seq<char>>(error_text(error)),
        },
{
    serde_json::from_str::<serde_json::Value>(text)
}

/// Trusted: the `Display` text of a `serde_json::Error`.
#[verifier::external_body]
pub(crate) fn describe_error(error: &serde_json::Error) -> (out: String)
    ensures
        out@ == error_text(*error),
{
    error.to_string()
}

/// Trusted: `serde_json::Value::pointer`. The lookup reads object keys and
/// array positions only, so what it finds is `pointer_target` of the document
/// and the pointer.
#[verifier::external_body]
pub(crate) fn value_pointer<'a>(value: &'a serde_json::Value, pointer: &str) -> (out: Option<
    &'a serde_json::Value,
>)
    ensures
        match out {
            Some(found) => pointer_target(value_model(*value), pointer@) == Some(
                value_model(*found),
            ),
            None => pointer_target(value_model(*value), pointer@) is None,
        },
{
    value.pointer(pointer)
}

/// Trusted: `serde_json::Value::get` with a string key. It returns the member
/// under that key when the value is an object that has it, and `None`
/// otherwise.
#[verifier::external_body]
pub(crate) fn value_member<'a>(value: &'a serde_json::Value, key: &str) -> (out: Option<
    &'a serde_json::Value,
>)
    ensures
        match out {
            Some(found) => member(value_model(*value), key@) == Some(value_model(*found)),
            None => member(value_model(*value), key@) is None,
        },
{
    value.get(key)
}

/// Trusted: `serde_json::Value::as_array`. It returns the elements when the
/// value is an array, and `None` otherwise.
#[verifier::external_body]
pub(crate) fn value_elements<'a>(value: &'a serde_json::Value) -> (out: Option<
    &'a Vec<serde_json::Value>,
>)
    ensures
        match out {
            Some(items) => elements(value_model(*value)) == Some(models_of(items@)),
            None => elements(value_model(*value)) is None,
        },
{
    value.as_array()
}

/// Trusted: `serde_json::Value::as_str`. It returns the text when the value
/// is a string, and `None` otherwise.
#[verifier::external_body]
pub(crate) fn value_text<'a>(value: &'a serde_json::Value) -> (out: Option<&'a str>)
    ensures
        match out {
            Some(found) => text_of(value_model(*value)) == Some(found@),
            None => text_of(value_model(*value)) is None,
        },
{
    value.as_str()
}

/// The member of an object under `key`; `None` for a missing key and for
/// anything that is no object.
pub open spec fn member(document: JsonModel, key: Seq<char>) -> Option<JsonModel> {
    match document {
        JsonModel::Object(members) => if members.contains_key(key) {
            Some(members[key])
        } else {
            None
        },
        _ => None,
    }
}

/// The elements of an array; `None` for anything else.
pub open spec fn elements(document: JsonModel) -> Option<Seq<JsonModel>> {
    match document {
        JsonModel::Array(items) => Some(items),
        _ => None,
    }
}

/// The text of a string; `None` for anything else.
pub open spec fn text_of(document: JsonModel) -> Option<Seq<char>> {
    match document {
        JsonModel::Text(text) => Some(text),
        _ => None,
    }
}

/// What each of the values holds, in order.
pub open spec fn models_of(values: Seq<serde_json::Value>) -> Seq<JsonModel> {
    values.map_values(|value: serde_json::Value| value_model(value))
}

} // verus!
