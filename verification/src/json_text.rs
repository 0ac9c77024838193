//! JSON text, read and written by serde_json: what a text is read as, how a
//! document is printed, and how it is shown in diagnostics.
use vstd::prelude::*;
use crate::json::{model, Json, JsonValue};

verus! {

/// serde_json's document type, carried through the wrappers below.
#[verifier::external_type_specification]
#[verifier::external_body]
pub struct ExValue(serde_json::Value);

/// The document a JSON text is read as by serde_json, if it is one.
pub uninterp spec fn json_of_text(text: Seq<char>) -> Option<Json>;

/// serde_json's message for a text that is not JSON.
pub uninterp spec fn json_error_text(text: Seq<char>) -> Seq<char>;

/// serde_json's single-line printing of a document.
pub uninterp spec fn json_compact(j: Json) -> Seq<char>;

/// serde_json's indented printing of a document.
pub uninterp spec fn json_pretty(j: Json) -> Seq<char>;

/// How serde_json shows a document with `{:?}`.
pub uninterp spec fn json_debug(j: Json) -> Seq<char>;

/// The library's document for a serde_json one, node for node: an integer
/// that fits in `i64` stays one, any other number keeps its text.
#[verifier::external_body]
fn from_serde(v: &serde_json::Value) -> JsonValue {
    match v {
        serde_json::Value::Null => JsonValue::Null,
        serde_json::Value::Bool(b) => JsonValue::Bool(*b),
        serde_json::Value::Number(n) => n.as_i64().map_or_else(|| JsonValue::Num(n.to_string()), JsonValue::Int),
        serde_json::Value::String(s) => JsonValue::Str(s.clone()),
        serde_json::Value::Array(a) => JsonValue::Array(a.iter().map(from_serde).collect()),
        serde_json::Value::Object(m) => JsonValue::Object(m.iter().map(|(k, x)| (k.clone(), from_serde(x))).collect()),
    }
}

/// The serde_json document for a library one, node for node; of a key given
/// twice the later member is kept.
#[verifier::external_body]
fn to_serde(v: &JsonValue) -> serde_json::Value {
    match v {
        JsonValue::Null => serde_json::Value::Null,
        JsonValue::Bool(b) => serde_json::Value::Bool(*b),
        JsonValue::Int(i) => serde_json::Value::from(*i),
        JsonValue::Num(t) => t.parse().map_or_else(|_| serde_json::Value::String(t.clone()), serde_json::Value::Number),
        JsonValue::Str(s) => serde_json::Value::String(s.clone()),
        JsonValue::Array(a) => serde_json::Value::Array(a.iter().map(to_serde).collect()),
        JsonValue::Object(m) => serde_json::Value::Object(m.iter().map(|(k, x)| (k.clone(), to_serde(x))).collect()),
    }
}

/// Reads a text as JSON with `serde_json::from_str::<Value>`: the document,
/// or serde_json's error message. The contract names both outcomes.
#[verifier::external_body]
pub(crate) fn parse_json(text: &str) -> (r: Result<JsonValue, String>)
    ensures
        match r {
            Ok(v) => json_of_text(text@) == Some(model(v)),
            Err(e) => json_of_text(text@) is None && e@ == json_error_text(text@),
        },
{
    match serde_json::from_str::<serde_json::Value>(text) {
        Ok(v) => Ok(from_serde(&v)),
        Err(e) => Err(e.to_string()),
    }
}

/// Prints a document on one line with `serde_json::to_string`, which writes
/// no white space between tokens and escapes a line feed inside a string,
/// so the text holds no line feed.
#[verifier::external_body]
pub(crate) fn compact_text(v: &JsonValue) -> (r: String)
    ensures
        r@ == json_compact(model(*v)),
        !r@.contains('\n'),
{
    serde_json::to_string(&to_serde(v)).unwrap_or_default()
}

/// Prints a document indented with `serde_json::to_string_pretty`.
#[verifier::external_body]
pub(crate) fn pretty_text(v: &JsonValue) -> (r: String)
    ensures
        r@ == json_pretty(model(*v)),
{
    serde_json::to_string_pretty(&to_serde(v)).unwrap_or_default()
}

/// Shows a document as serde_json's `Debug` for `Value` does.
#[verifier::external_body]
pub(crate) fn debug_text(v: &JsonValue) -> (r: String)
    ensures
        r@ == json_debug(model(*v)),
{
    format!("{:?}", to_serde(v))
}

} // verus!
