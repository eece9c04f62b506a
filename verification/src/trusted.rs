//! The JSON reader on which the decoder relies, and the canonical-form writer
//! on which the encoder relies.
//!
//! Everything in this file is believed, not proved. No contract here says
//! what the reader accepts or what the writer writes: each gives the outcome
//! a name, the error of a failure included, and claims that it depends on
//! nothing but the argument.

use vstd::prelude::*;
use serde_json::{Number, Value};
use crate::json::{Json, JsonModel};

verus! {

/// `serde_json::Value`, the form in which the reader hands a document over
/// and the canonical-form writer takes one.
#[verifier::external_type_specification]
#[verifier::external_body]
pub struct ExValue(serde_json::Value);

/// `serde_json::Error`, carried inside this library's errors.
#[verifier::external_type_specification]
#[verifier::external_body]
pub struct ExJsonError(serde_json::Error);

/// `canonical_json::CanonicalJSONError`, carried inside this library's errors.
#[verifier::external_type_specification]
#[verifier::external_body]
pub struct ExCanonicalJsonError(canonical_json::CanonicalJSONError);

/// `std::io::Error`, carried inside this library's errors.
#[verifier::external_type_specification]
#[verifier::external_body]
pub struct ExIoError(std::io::Error);

/// The tree that a `serde_json::Value` holds.
pub uninterp spec fn json_tree(value: serde_json::Value) -> JsonModel;

/// What a `serde_json::Error` says: its message with the line and the
/// column of the fault.
pub uninterp spec fn syntax_report(error: serde_json::Error) -> Seq<char>;

/// What a `canonical_json::CanonicalJSONError` says.
pub uninterp spec fn writer_report(error: canonical_json::CanonicalJSONError) -> Seq<char>;

/// The document that `serde_json::from_slice` reads from `bytes`, or what
/// its error says where it rejects them.
pub uninterp spec fn json_document(bytes: Seq<u8>) -> Result<JsonModel, Seq<char>>;

/// The text that `canonical_json::to_string` writes for a document, or what
/// its error says where it fails.
pub uninterp spec fn canonical_form(doc: JsonModel) -> Result<Seq<char>, Seq<char>>;

/// The tree of the `serde_json::Value` that is built from a tree, or `None`
/// where a number of the tree is held by text that `serde_json::Number` does
/// not read. It need not be the tree it was built from: the object of a
/// `serde_json::Value` holds each key once, and a number in one form.
pub uninterp spec fn rebuilt(doc: JsonModel) -> Option<JsonModel>;

/// Calls `serde_json::from_slice` for a `serde_json::Value`.
///
/// Claims only that the outcome is a function of the bytes: the value holds
/// the document that `json_document` gives for them, or the error says what
/// `json_document` gives for them.
#[verifier::external_body]
pub(crate) fn parse_value(bytes: &[u8]) -> (r: Result<serde_json::Value, serde_json::Error>)
    ensures
        r is Ok ==> json_document(bytes@) is Ok
            && json_document(bytes@)->Ok_0 == json_tree(r->Ok_0),
        r is Err ==> json_document(bytes@) is Err
            && json_document(bytes@)->Err_0 == syntax_report(r->Err_0),
{
    serde_json::from_slice::<serde_json::Value>(bytes)
}

/// Copies a `serde_json::Value` into a [`Json`] tree, variant by variant.
///
/// A number becomes `Integer` where `serde_json::Number::as_i64` gives one,
/// and `Number` with the text of its `Display` otherwise.
#[verifier::external_body]
pub(crate) fn json_of_value(value: &serde_json::Value) -> (doc: Json)
    ensures
        doc@ == json_tree(*value),
{
    match value {
        Value::Null => Json::Null,
        Value::Bool(b) => Json::Bool(*b),
        Value::Number(n) => match n.as_i64() {
            Some(i) => Json::Integer(i),
            None => Json::Number(n.to_string()),
        },
        Value::String(s) => Json::String(s.clone()),
        Value::Array(a) => Json::Array(a.iter().map(json_of_value).collect()),
        Value::Object(m) => Json::Object(
            m.iter().map(|(k, v)| (k.clone(), json_of_value(v))).collect(),
        ),
    }
}

/// Calls `canonical_json::to_string`.
///
/// Claims only that the outcome is a function of the document that the value
/// holds: the text is that which `canonical_form` gives for it, or the error
/// says what `canonical_form` gives for it.
#[verifier::external_body]
pub(crate) fn canonical_text(value: &serde_json::Value) -> (r: Result<
    String,
    canonical_json::CanonicalJSONError,
>)
    ensures
        r is Ok ==> canonical_form(json_tree(*value)) is Ok
            && canonical_form(json_tree(*value))->Ok_0 == r->Ok_0@,
        r is Err ==> canonical_form(json_tree(*value)) is Err
            && canonical_form(json_tree(*value))->Err_0 == writer_report(r->Err_0),
{
    canonical_json::to_string(value)
}

/// Builds a `serde_json::Value` from a [`Json`] tree, variant by variant.
///
/// An `Integer` goes through `serde_json::Number::from`, the text of a
/// `Number` through `serde_json::Number::from_str`, and members are collected
/// into a `serde_json::Map`. Claims only that the outcome is a function of the
/// tree: it succeeds exactly where `rebuilt` is defined, with a value that
/// holds that tree.
#[verifier::external_body]
pub(crate) fn value_of_json(doc: &Json) -> (r: Option<serde_json::Value>)
    ensures
        r is Some <==> rebuilt(doc@) is Some,
        r is Some ==> rebuilt(doc@) == Some(json_tree(r->Some_0)),
{
    Some(match doc {
        Json::Null => Value::Null,
        Json::Bool(b) => Value::Bool(*b),
        Json::Integer(n) => Value::Number(Number::from(*n)),
        Json::Number(t) => Value::Number(t.parse().ok()?),
        Json::String(s) => Value::String(s.clone()),
        Json::Array(a) => Value::Array(a.iter().map(value_of_json).collect::<Option<_>>()?),
        Json::Object(m) => Value::Object(
            m.iter().map(|(k, v)| Some((k.clone(), value_of_json(v)?))).collect::<Option<_>>()?,
        ),
    })
}

} // verus!
