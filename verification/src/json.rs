//! JSON text, read and written by `serde_json`.
//!
//! Nothing here is proved: each function states what the `serde_json` call in
//! its body returns, as a name applied to the call's arguments.

use crate::schemas::text_view;
use serde_json::Value;
use vstd::prelude::*;

verus! {

/// `serde_json::Value`: any JSON value. Nothing of its inside is known here.
#[verifier::external_type_specification]
#[verifier::external_body]
pub struct ExValue(Value);

/// The document that `text` denotes; `None` where `text` is not one JSON value.
pub uninterp spec fn json_document(text: Seq<char>) -> Option<Value>;

/// The member of the object `document` under `key`; `None` where `document`
/// is no object or has no such member.
pub uninterp spec fn json_member(document: Value, key: Seq<char>) -> Option<Value>;

/// The text that `value` holds; `None` where `value` is no JSON string.
pub uninterp spec fn json_text(value: Value) -> Option<Seq<char>>;

/// Whether `value` is the JSON value `null`.
pub uninterp spec fn json_null(value: Value) -> bool;

/// The JSON string literal that denotes `text`, quotes included.
pub uninterp spec fn json_quoted(text: Seq<char>) -> Seq<char>;

/// `serde_json::from_str` at `Value`: parses `text` as one JSON value. Any
/// parse error becomes `None`.
#[verifier::external_body]
pub(crate) fn parse_document(text: &str) -> (document: Option<Value>)
    ensures
        document == json_document(text@),
{
    serde_json::from_str::<Value>(text).ok()
}

/// `Value::get` with a string index: a copy of the member under `key`.
#[verifier::external_body]
pub(crate) fn member(document: &Value, key: &str) -> (value: Option<Value>)
    ensures
        value == json_member(*document, key@),
{
    document.get(key).cloned()
}

/// `Value::as_str`: a copy of the text of a JSON string.
#[verifier::external_body]
pub(crate) fn text_of(value: &Value) -> (text: Option<String>)
    ensures
        text_view(text) == json_text(*value),
{
    value.as_str().map(|text| text.to_owned())
}

/// `Value::is_null`: whether `value` is `null`.
#[verifier::external_body]
pub(crate) fn is_null(value: &Value) -> (null: bool)
    ensures
        null == json_null(*value),
{
    value.is_null()
}

/// `serde_json::to_string` at `str`: the JSON string literal for `text`.
/// Writing a string into memory does not fail.
#[verifier::external_body]
pub(crate) fn quote(text: &str) -> (literal: String)
    ensures
        literal@ == json_quoted(text@),
{
    serde_json::to_string(text).unwrap_or_default()
}

} // verus!
