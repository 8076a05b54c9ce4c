//! The error taxonomy and the three-tier response decoding: the expected
//! typed value, or the exchange's structured error, or a malformed-response
//! error that keeps the raw text for offline diagnosis.
use vstd::prelude::*;
use vstd::utf8::{valid_utf8, decode_utf8};
use crate::json::{Json, JsonVal};
use crate::extract::{jv_str_field, str_field};
use crate::parse::json_of;

verus! {

/// The structured error body the exchange returns for semantic failures.
#[derive(Debug)]
pub struct GeminiResponseError {
    pub result: String,
    pub reason: String,
    pub message: String,
}

/// The mathematical value of a structured exchange error.
pub ghost struct GeminiResponseErrorV {
    pub result: Seq<char>,
    pub reason: Seq<char>,
    pub message: Seq<char>,
}

impl DeepView for GeminiResponseError {
    type V = GeminiResponseErrorV;

    open spec fn deep_view(&self) -> GeminiResponseErrorV {
        GeminiResponseErrorV {
            result: self.result@,
            reason: self.reason@,
            message: self.message@,
        }
    }
}

/// Everything a call can fail with.  Nothing is retried inside the library;
/// every failure is reported as a typed value.
#[derive(Debug)]
pub enum GError {
    /// Transport-level failure: connection trouble, or a body that is not
    /// even text.
    Http(String),
    /// The exchange answered with its structured error body.
    Gemini(GeminiResponseError),
    /// The body matched neither the expected shape nor the error shape; the
    /// raw text is kept for diagnosis.
    SerdeDe { error: String, data: String },
    /// A request body could not be serialized.
    SerdeSer(String),
    /// Failure on the streaming connection.
    Websocket(String),
}

/// The mathematical value of an error.  Diagnostic message text (the `error`
/// field of a malformed response, the serializer's complaint) is not part of
/// the abstract value; the retained raw data is.
pub ghost enum GErrorV {
    Http(Seq<char>),
    Gemini(GeminiResponseErrorV),
    SerdeDe { data: Seq<char> },
    SerdeSer,
    Websocket(Seq<char>),
}

impl DeepView for GError {
    type V = GErrorV;

    open spec fn deep_view(&self) -> GErrorV {
        match self {
            GError::Http(s) => GErrorV::Http(s@),
            GError::Gemini(e) => GErrorV::Gemini(e.deep_view()),
            GError::SerdeDe { error, data } => GErrorV::SerdeDe { data: data@ },
            GError::SerdeSer(s) => GErrorV::SerdeSer,
            GError::Websocket(s) => GErrorV::Websocket(s@),
        }
    }
}

/// The exchange's error shape: an object with string fields `result`,
/// `reason` and `message`.
pub open spec fn error_shape_spec(j: JsonVal) -> Option<GeminiResponseErrorV> {
    match (jv_str_field(j, "result"@), jv_str_field(j, "reason"@), jv_str_field(
        j,
        "message"@,
    )) {
        (Some(result), Some(reason), Some(message)) => Some(
            GeminiResponseErrorV { result, reason, message },
        ),
        _ => None,
    }
}

/// Reads the exchange's structured error shape from a parsed body.
pub fn extract_error_shape(j: &Json) -> (r: Option<GeminiResponseError>)
    ensures
        r.deep_view() == error_shape_spec(j.jv()),
{
    let result = match str_field(j, "result") {
        Some(s) => s,
        None => {
            return None;
        },
    };
    let reason = match str_field(j, "reason") {
        Some(s) => s,
        None => {
            return None;
        },
    };
    let message = match str_field(j, "message") {
        Some(s) => s,
        None => {
            return None;
        },
    };
    Some(GeminiResponseError { result, reason, message })
}

/// What decoding falls back to when the expected shape was not there: the
/// exchange's structured error if the body carries one, else a
/// malformed-response error holding the raw text.
pub open spec fn fallback_spec(j: JsonVal, raw: Seq<char>) -> GErrorV {
    match error_shape_spec(j) {
        Some(e) => GErrorV::Gemini(e),
        None => GErrorV::SerdeDe { data: raw },
    }
}

/// Distinguishes "the exchange told us why" from "garbage we cannot
/// interpret" once the expected shape has failed.
pub fn semantic_or_malformed(j: &Json, raw: &str) -> (r: GError)
    ensures
        r.deep_view() == fallback_spec(j.jv(), raw@),
{
    match extract_error_shape(j) {
        Some(e) => GError::Gemini(e),
        None => GError::SerdeDe { error: "body matched neither shape".to_owned(), data: raw.to_owned() },
    }
}

/// The decoded outcome for a body: the typed value when the body has the
/// expected shape (`ex` is the shape's reading), else the structured error,
/// else a malformed-response error with the raw text.
pub open spec fn decode_spec<TV>(
    p: Option<JsonVal>,
    ex: spec_fn(JsonVal) -> Option<TV>,
    raw: Seq<char>,
) -> Result<TV, GErrorV> {
    match p {
        None => Err(GErrorV::SerdeDe { data: raw }),
        Some(j) => match ex(j) {
            Some(v) => Ok(v),
            None => Err(fallback_spec(j, raw)),
        },
    }
}

/// The decoded outcome for a raw body: bytes that are not text are a
/// transport-level failure; text goes through the three-tier decode.
pub open spec fn decode_bytes_spec<TV>(
    body: Seq<u8>,
    ex: spec_fn(JsonVal) -> Option<TV>,
) -> Result<TV, GErrorV> {
    if valid_utf8(body) {
        decode_spec(json_of(decode_utf8(body)), ex, decode_utf8(body))
    } else {
        Err(GErrorV::Http("response body is not text"@))
    }
}

} // verus!
