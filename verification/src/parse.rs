//! The trusted boundary to `serde_json`: parsing a response body into the
//! library's own `JsonValue`. Everything downstream of `parse_json` is
//! verified against the name `json_of`.
use crate::json::JsonValue;
use vstd::prelude::*;

verus! {

#[verifier::external_type_specification]
#[verifier::external_body]
pub struct ExValue(serde_json::Value);

/// What parsing a text as JSON yields: `None` when the text is not valid
/// JSON, otherwise the parsed document. With `serde_json`'s default ordered
/// object map, the result is a function of the text alone, so it can be
/// named; nothing further is assumed about it.
pub uninterp spec fn json_of(s: Seq<char>) -> Option<JsonValue>;

/// Relies on `serde_json::Value`'s variants: each arm moves the matched
/// payload into the library's `JsonValue`. `Number::as_u64` tells a
/// non-negative integer apart from any other number, which keeps its
/// decimal text via `Number`'s rendering; object members are walked in
/// the ordered map's order.
#[verifier::external_body]
fn value_to_json(v: &serde_json::Value) -> JsonValue {
    match v {
        serde_json::Value::Null => JsonValue::Null,
        serde_json::Value::Bool(b) => JsonValue::Bool(*b),
        serde_json::Value::Number(n) => match n.as_u64() {
            Some(u) => JsonValue::UInt(u),
            None => JsonValue::Num(n.to_string()),
        },
        serde_json::Value::String(s) => JsonValue::Str(s.clone()),
        serde_json::Value::Array(a) => JsonValue::Arr(a.iter().map(value_to_json).collect()),
        serde_json::Value::Object(m) => JsonValue::Obj(
            m.iter().map(|(k, w)| (k.clone(), value_to_json(w))).collect(),
        ),
    }
}

/// Relies on `serde_json::from_str::<serde_json::Value>`: it returns `Ok`
/// exactly on valid JSON text, and the value it returns depends on the
/// text alone (object members come back in the ordered map's order).
/// `json_of` names the converted result.
#[verifier::external_body]
pub fn parse_json(s: &str) -> (r: Option<JsonValue>)
    ensures
        r == json_of(s@),
{
    match serde_json::from_str::<serde_json::Value>(s) {
        Ok(v) => Some(value_to_json(&v)),
        Err(_) => None,
    }
}

} // verus!
