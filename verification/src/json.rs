//! JSON text into the library's JSON values, parsed by `serde_json`.
use vstd::prelude::*;
use crate::about::JsonValue;

verus! {

#[verifier::external_type_specification]
#[verifier::external_body]
pub struct ExJsonValue(serde_json::Value);

/// Whether `serde_json` parses `text` as one JSON value.
pub uninterp spec fn json_accepts(text: Seq<char>) -> bool;

/// A JSON value as a mathematical value.
pub enum JsonValueV {
    Null,
    Bool(bool),
    Number(Seq<char>),
    Str(Seq<char>),
    Array(Seq<JsonValueV>),
    Object(Seq<(Seq<char>, JsonValueV)>),
}

/// The mathematical value of a JSON value.
pub open spec fn json_view(v: JsonValue) -> JsonValueV
    decreases v,
{
    match v {
        JsonValue::Null => JsonValueV::Null,
        JsonValue::Bool(b) => JsonValueV::Bool(b),
        JsonValue::Number(n) => JsonValueV::Number(n@),
        JsonValue::Str(t) => JsonValueV::Str(t@),
        JsonValue::Array(items) => {
            proof {
                assert(decreases_to!(v => items@));
            }
            JsonValueV::Array(json_views(items@))
        },
        JsonValue::Object(entries) => {
            proof {
                assert(decreases_to!(v => entries@));
            }
            JsonValueV::Object(entry_views(entries@))
        },
    }
}

/// The mathematical values of a list of JSON values.
pub open spec fn json_views(s: Seq<JsonValue>) -> Seq<JsonValueV>
    decreases s,
{
    if s.len() == 0 {
        Seq::empty()
    } else {
        proof {
            assert(decreases_to!(s => s[0]));
            assert(decreases_to!(s => s.subrange(1, s.len() as int)));
        }
        seq![json_view(s[0])] + json_views(s.subrange(1, s.len() as int))
    }
}

/// The mathematical values of the entries of a JSON object.
pub open spec fn entry_views(s: Seq<(String, JsonValue)>) -> Seq<(Seq<char>, JsonValueV)>
    decreases s,
{
    if s.len() == 0 {
        Seq::empty()
    } else {
        proof {
            assert(decreases_to!(s => s[0]));
            assert(decreases_to!(s[0] => s[0].1));
            assert(decreases_to!(s => s.subrange(1, s.len() as int)));
        }
        seq![(s[0].0@, json_view(s[0].1))] + entry_views(s.subrange(1, s.len() as int))
    }
}

/// The value that `serde_json` parses out of `text`.
pub uninterp spec fn json_value_of(text: Seq<char>) -> JsonValueV;

/// Calls `serde_json::from_str` for a `serde_json::Value` and converts the value one for
/// one. The parse depends on the text alone: the contract states that a value comes back
/// exactly when `serde_json` accepts the text, and names the value (`json_value_of`).
#[verifier::external_body]
fn parse_value(text: &str) -> (r: Option<JsonValue>)
    ensures
        r is Some <==> json_accepts(text@),
        r matches Some(v) ==> json_view(v) == json_value_of(text@),
{
    serde_json::from_str::<serde_json::Value>(text).ok().map(json_from_value)
}

/// Converts a `serde_json::Value` into the library's form, one variant for one, moving its
/// fields: a number becomes its text (`Number`'s `to_string`), an object's entries come in
/// the order of its map. What it gives is stated, as a name, by `parse_value`, its caller.
#[verifier::external_body]
fn json_from_value(v: serde_json::Value) -> JsonValue {
    match v {
        serde_json::Value::Null => JsonValue::Null,
        serde_json::Value::Bool(b) => JsonValue::Bool(b),
        serde_json::Value::Number(n) => JsonValue::Number(n.to_string()),
        serde_json::Value::String(s) => JsonValue::Str(s),
        serde_json::Value::Array(items) => JsonValue::Array(items.into_iter().map(json_from_value).collect()),
        serde_json::Value::Object(map) => JsonValue::Object(
            map.into_iter().map(|(k, x)| (k, json_from_value(x))).collect(),
        ),
    }
}

/// The JSON value that `text` holds: `None` exactly when `serde_json` does not parse it.
pub fn parse_json(text: &str) -> (r: Option<JsonValue>)
    ensures
        r is Some <==> json_accepts(text@),
        r matches Some(v) ==> json_view(v) == json_value_of(text@),
{
    parse_value(text)
}

} // verus!
