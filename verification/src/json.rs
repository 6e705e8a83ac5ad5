//! A model of JSON values, and parsing of JSON text.
//!
//! Parsing proper is done by `serde_json`; its result is carried over into the
//! crate's own [`Json`] type, so that everything that reads a parsed value is
//! verified code.

use vstd::prelude::*;

verus! {

/// A parsed JSON value.
///
/// A number is kept as its decimal rendering: nothing in this crate reads one,
/// it only has to survive the trip through a configuration file.
#[derive(Debug)]
pub enum Json {
    Null,
    Bool(bool),
    Num(String),
    Str(String),
    Arr(Vec<Json>),
    Obj(Vec<(String, Json)>),
}

/// The value that `serde_json::from_str::<serde_json::Value>` yields on `s`,
/// carried into [`Json`]; `None` when `s` is not valid JSON text.
pub uninterp spec fn json_parse(s: Seq<char>) -> Option<Json>;

/// The [`Json`] value that a given `serde_json::Value` stands for.
pub uninterp spec fn value_model(v: serde_json::Value) -> Json;

#[verifier::external_type_specification]
#[verifier::external_body]
pub struct ExValue(serde_json::Value);

/// Relies on `serde_json::from_str::<serde_json::Value>`: it succeeds exactly
/// on valid JSON text, and its result is a function of the text alone. The
/// error case carries the parser's own description of the fault.
#[verifier::external_body]
fn json_value_from_str(s: &str) -> (r: Result<serde_json::Value, String>)
    ensures
        r is Ok <==> json_parse(s@) is Some,
        r matches Ok(v) ==> json_parse(s@) == Some(value_model(v)),
{
    match serde_json::from_str::<serde_json::Value>(s) {
        Ok(v) => Ok(v),
        Err(e) => Err(e.to_string()),
    }
}

/// Relies on the shape of `serde_json::Value`: each variant is carried over to
/// the matching [`Json`] variant, field by field; a number is carried over as
/// its decimal rendering.
#[verifier::external_body]
fn value_to_json(v: serde_json::Value) -> (r: Json)
    ensures
        r == value_model(v),
{
    match v {
        serde_json::Value::Null => Json::Null,
        serde_json::Value::Bool(b) => Json::Bool(b),
        serde_json::Value::Number(n) => Json::Num(n.to_string()),
        serde_json::Value::String(s) => Json::Str(s),
        serde_json::Value::Array(a) => Json::Arr(a.into_iter().map(value_to_json).collect()),
        serde_json::Value::Object(m) => Json::Obj(
            m.into_iter().map(|(k, x)| (k, value_to_json(x))).collect(),
        ),
    }
}

/// Parse JSON text into a [`Json`] value.
///
/// Fails exactly on text that is not valid JSON; the error is the parser's
/// description of the fault.
pub fn parse_json(s: &str) -> (r: Result<Json, String>)
    ensures
        r is Ok <==> json_parse(s@) is Some,
        r matches Ok(j) ==> json_parse(s@) == Some(j),
{
    match json_value_from_str(s) {
        Ok(v) => Ok(value_to_json(v)),
        Err(m) => Err(m),
    }
}

} // verus!
