//! Inbound JSON text, parsed into the library's value type through the
//! outside parser.  Everything downstream of the parse — field lookup, shape
//! checks, classification — is verified against the parsed value.
use vstd::prelude::*;
use vstd::utf8::valid_utf8;
use vstd::string::StringSliceAdditionalSpecFns;
use crate::json::{Json, JsonVal};

verus! {

/// What the outside parser returns for a piece of text: the parsed value, or
/// nothing when the text is not JSON.  Named only: the parse is done by an
/// outside crate and depends on the text alone.
pub uninterp spec fn json_of(s: Seq<char>) -> Option<JsonVal>;

/// Relies on serde_json's `Value` being an ordinary value type; declared so
/// it can pass through the conversion below.
#[verifier::external_type_specification]
#[verifier::external_body]
pub struct ExValue(serde_json::Value);

/// Relies on serde_json's `Value` variants: maps each variant to the
/// library's value type, one arm each, numbers kept as their exact text.
#[verifier::external_body]
fn json_from_value(v: serde_json::Value) -> Json {
    match v {
        serde_json::Value::Null => Json::Null,
        serde_json::Value::Bool(b) => Json::Bool(b),
        serde_json::Value::Number(n) => Json::Num(n.to_string()),
        serde_json::Value::String(s) => Json::Str(s),
        serde_json::Value::Array(a) => Json::Arr(a.into_iter().map(json_from_value).collect()),
        serde_json::Value::Object(m) => Json::Obj(
            m.into_iter().map(|(k, x)| (k, json_from_value(x))).collect(),
        ),
    }
}

/// Relies on serde_json's `from_str`: whether text parses, and to what
/// value, depends on the text alone.  The error text is diagnostic only.
#[verifier::external_body]
pub fn parse_json(s: &str) -> (r: Result<Json, String>)
    ensures
        match r {
            Ok(v) => json_of(s@) == Some(v.deep_view()),
            Err(_) => json_of(s@) is None,
        },
{
    match serde_json::from_str::<serde_json::Value>(s) {
        Ok(v) => Ok(json_from_value(v)),
        Err(e) => Err(e.to_string()),
    }
}

/// Relies on std's `str::from_utf8`: it succeeds exactly on valid UTF-8,
/// and the resulting text views the same bytes.
#[verifier::external_body]
pub fn utf8_text(b: &[u8]) -> (r: Option<&str>)
    ensures
        match r {
            Some(s) => s.spec_bytes() == b@,
            None => !valid_utf8(b@),
        },
{
    core::str::from_utf8(b).ok()
}

} // verus!
