//! Reading JSON text into a document.
use vstd::prelude::*;
use crate::json::JsonValue;

verus! {

#[verifier::external_type_specification]
#[verifier::external_body]
pub struct ExSerdeJsonValue(serde_json::Value);

/// The document that a JSON text denotes, or `None` where the text is not
/// exactly one JSON value (or nests deeper than the parser allows).
pub uninterp spec fn json_document(text: Seq<char>) -> Option<JsonValue>;

/// Relies on `serde_json::from_str` into `serde_json::Value`: it fails on text that
/// is not one JSON value (and on nesting deeper than 128 levels), and its result
/// depends on the text alone. A key repeated in an object keeps its last value.
#[verifier::external_body]
pub(crate) fn parse_document(text: &str) -> (r: Option<JsonValue>)
    ensures
        r == json_document(text@),
{
    serde_json::from_str::<serde_json::Value>(text).ok().map(from_serde_value)
}

/// Relies on the variants of `serde_json::Value` and on `Number::as_u64`, which
/// gives the number where it is a non-negative integer within `u64`; any other
/// number is kept as its `Display` text. Object members come in the map's
/// (sorted) order.
#[verifier::external_body]
fn from_serde_value(v: serde_json::Value) -> JsonValue {
    match v {
        serde_json::Value::Null => JsonValue::Null,
        serde_json::Value::Bool(b) => JsonValue::Bool(b),
        serde_json::Value::Number(n) => match n.as_u64() {
            Some(u) => JsonValue::UInt(u),
            None => JsonValue::OtherNumber(n.to_string()),
        },
        serde_json::Value::String(s) => JsonValue::Str(s),
        serde_json::Value::Array(a) => JsonValue::Array(a.into_iter().map(from_serde_value).collect()),
        serde_json::Value::Object(m) => JsonValue::Object(m.into_iter().map(|(k, x)| (k, from_serde_value(x))).collect()),
    }
}

} // verus!
