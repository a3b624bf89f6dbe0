//! Reading JSON documents and quoting JSON strings, both done by `serde_json`.
//!
//! A parsed document is a `serde_json::Value`, which the verifier cannot look
//! into. What the functions of this module return is therefore given by
//! names: `json_document` for the document that a text parses to,
//! `json_member` for the value that a JSON Pointer addresses in a document,
//! `json_text`, `json_integer` and `json_flag` for what a value holds, and
//! `json_quoted` for the JSON string literal of a text. None of these has a
//! definition here; each stands for exactly what the named function of
//! `serde_json` returns.

use vstd::prelude::*;

verus! {

/// Declares `serde_json::Value`, a parsed JSON document or a part of one.
/// Nothing inside it is visible here; it is only carried from one call into
/// `serde_json` to the next.
#[verifier::external_type_specification]
#[verifier::external_body]
pub struct ExJsonValue(serde_json::Value);

/// The document that `serde_json::from_str` reads from `text`, or `None`
/// where it reports an error.
pub uninterp spec fn json_document(text: Seq<char>) -> Option<serde_json::Value>;

/// The value that `serde_json::Value::pointer` finds in `doc` at `pointer`.
pub uninterp spec fn json_member(doc: serde_json::Value, pointer: Seq<char>) -> Option<
    serde_json::Value,
>;

/// What `serde_json::Value::as_str` gives for `value`.
pub uninterp spec fn json_text(value: serde_json::Value) -> Option<Seq<char>>;

/// What `serde_json::Value::as_i64` gives for `value`.
pub uninterp spec fn json_integer(value: serde_json::Value) -> Option<i64>;

/// What `serde_json::Value::as_bool` gives for `value`.
pub uninterp spec fn json_flag(value: serde_json::Value) -> Option<bool>;

/// The JSON string literal that `serde_json::to_string` writes for the text
/// `text`, or `None` where it reports an error.
pub uninterp spec fn json_quoted(text: Seq<char>) -> Option<Seq<char>>;

/// The text found in the document `doc` at `pointer`, if a string stands there.
pub open spec fn text_at(doc: serde_json::Value, pointer: Seq<char>) -> Option<Seq<char>> {
    match json_member(doc, pointer) {
        Some(value) => json_text(value),
        None => None,
    }
}

/// The integer found in the document `doc` at `pointer`, if one that fits
/// `i64` stands there.
pub open spec fn integer_at(doc: serde_json::Value, pointer: Seq<char>) -> Option<i64> {
    match json_member(doc, pointer) {
        Some(value) => json_integer(value),
        None => None,
    }
}

/// The boolean found in the document `doc` at `pointer`, if one stands there.
pub open spec fn flag_at(doc: serde_json::Value, pointer: Seq<char>) -> Option<bool> {
    match json_member(doc, pointer) {
        Some(value) => json_flag(value),
        None => None,
    }
}

/// Calls `serde_json::from_str` for a `serde_json::Value`. The contract gives
/// the outcome the name `json_document(text)`: `None` where the call reports
/// an error, else the document.
#[verifier::external_body]
pub(crate) fn parse(text: &str) -> (outcome: Option<serde_json::Value>)
    ensures
        outcome == json_document(text@),
{
    serde_json::from_str::<serde_json::Value>(text).ok()
}

/// Calls `serde_json::Value::pointer`. The contract gives the outcome the
/// name `json_member(doc, pointer)`.
#[verifier::external_body]
pub(crate) fn member<'a>(doc: &'a serde_json::Value, pointer: &str) -> (found: Option<
    &'a serde_json::Value,
>)
    ensures
        found is Some <==> json_member(*doc, pointer@) is Some,
        found matches Some(value) ==> json_member(*doc, pointer@) == Some(*value),
{
    doc.pointer(pointer)
}

/// Calls `serde_json::Value::as_str` and copies the text it finds. The
/// contract gives the outcome the name `json_text(value)`.
#[verifier::external_body]
pub(crate) fn text_of(value: &serde_json::Value) -> (text: Option<String>)
    ensures
        text is Some <==> json_text(*value) is Some,
        text matches Some(s) ==> json_text(*value) == Some(s@),
{
    value.as_str().map(String::from)
}

/// Calls `serde_json::Value::as_i64`. The contract gives the outcome the name
/// `json_integer(value)`.
#[verifier::external_body]
pub(crate) fn integer_of(value: &serde_json::Value) -> (number: Option<i64>)
    ensures
        number == json_integer(*value),
{
    value.as_i64()
}

/// Calls `serde_json::Value::as_bool`. The contract gives the outcome the
/// name `json_flag(value)`.
#[verifier::external_body]
pub(crate) fn flag_of(value: &serde_json::Value) -> (flag: Option<bool>)
    ensures
        flag == json_flag(*value),
{
    value.as_bool()
}

/// Calls `serde_json::to_string` on a string slice, which writes the text as
/// a JSON string literal: quoted, with the escapes that JSON asks for. The
/// contract gives the outcome the name `json_quoted(text)`.
#[verifier::external_body]
pub(crate) fn quote(text: &str) -> (outcome: Option<String>)
    ensures
        outcome is Some <==> json_quoted(text@) is Some,
        outcome matches Some(literal) ==> json_quoted(text@) == Some(literal@),
{
    serde_json::to_string::<str>(text).ok()
}

/// The text at `pointer` in `doc`, if a string stands there.
pub(crate) fn read_text(doc: &serde_json::Value, pointer: &str) -> (text: Option<String>)
    ensures
        text is Some <==> text_at(*doc, pointer@) is Some,
        text matches Some(s) ==> text_at(*doc, pointer@) == Some(s@),
{
    match member(doc, pointer) {
        Some(value) => text_of(value),
        None => None,
    }
}

/// The integer at `pointer` in `doc`, if one that fits `i64` stands there.
pub(crate) fn read_integer(doc: &serde_json::Value, pointer: &str) -> (number: Option<i64>)
    ensures
        number == integer_at(*doc, pointer@),
{
    match member(doc, pointer) {
        Some(value) => integer_of(value),
        None => None,
    }
}

/// The boolean at `pointer` in `doc`, if one stands there.
pub(crate) fn read_flag(doc: &serde_json::Value, pointer: &str) -> (flag: Option<bool>)
    ensures
        flag == flag_at(*doc, pointer@),
{
    match member(doc, pointer) {
        Some(value) => flag_of(value),
        None => None,
    }
}

} // verus!
