//! Typed access to parsed JSON values: each helper's contract says exactly
//! which shape it accepts and what it returns, so the decoders built on them
//! are pinned field by field.
use vstd::prelude::*;
use crate::json::{Json, JsonVal, jv_get};
use crate::num::{parse_u64_spec, parse_u64};

verus! {

/// The string content of a JSON string value.
pub open spec fn jv_as_str(v: JsonVal) -> Option<Seq<char>> {
    match v {
        JsonVal::Str(s) => Some(s),
        _ => None,
    }
}

/// The number a JSON number value denotes, when it is unsigned decimal text
/// that fits in 64 bits.
pub open spec fn jv_as_u64(v: JsonVal) -> Option<u64> {
    match v {
        JsonVal::Num(s) => parse_u64_spec(s),
        _ => None,
    }
}

/// The boolean content of a JSON boolean value.
pub open spec fn jv_as_bool(v: JsonVal) -> Option<bool> {
    match v {
        JsonVal::Bool(b) => Some(b),
        _ => None,
    }
}

/// A required string field of an object.
pub open spec fn jv_str_field(j: JsonVal, key: Seq<char>) -> Option<Seq<char>> {
    match jv_get(j, key) {
        Some(v) => jv_as_str(v),
        None => None,
    }
}

/// A required unsigned number field of an object.
pub open spec fn jv_u64_field(j: JsonVal, key: Seq<char>) -> Option<u64> {
    match jv_get(j, key) {
        Some(v) => jv_as_u64(v),
        None => None,
    }
}

/// A required boolean field of an object.
pub open spec fn jv_bool_field(j: JsonVal, key: Seq<char>) -> Option<bool> {
    match jv_get(j, key) {
        Some(v) => jv_as_bool(v),
        None => None,
    }
}

/// An optional string field: absent or null is an accepted absence, a string
/// is accepted content, anything else is a shape error (`None`).
pub open spec fn jv_opt_str_field(j: JsonVal, key: Seq<char>) -> Option<Option<Seq<char>>> {
    match jv_get(j, key) {
        None => Some(None),
        Some(JsonVal::Null) => Some(None),
        Some(JsonVal::Str(s)) => Some(Some(s)),
        Some(_) => None,
    }
}

/// A string field that defaults when absent (never when null or mis-shaped).
pub open spec fn jv_str_field_or(j: JsonVal, key: Seq<char>, dflt: Seq<char>) -> Option<
    Seq<char>,
> {
    match jv_get(j, key) {
        None => Some(dflt),
        Some(JsonVal::Str(s)) => Some(s),
        Some(_) => None,
    }
}

/// An order identifier: the exchange writes it as a number or as a string of
/// digits; both normalize to one unsigned 64-bit value.
pub open spec fn jv_as_id(v: JsonVal) -> Option<u64> {
    match v {
        JsonVal::Num(s) => parse_u64_spec(s),
        JsonVal::Str(s) => parse_u64_spec(s),
        _ => None,
    }
}

/// A required order-identifier field of an object.
pub open spec fn jv_id_field(j: JsonVal, key: Seq<char>) -> Option<u64> {
    match jv_get(j, key) {
        Some(v) => jv_as_id(v),
        None => None,
    }
}

/// Reads a required string field.
pub fn str_field(j: &Json, key: &str) -> (r: Option<String>)
    ensures
        r.deep_view() == jv_str_field(j.jv(), key@),
{
    match j.get(key) {
        Some(v) => match v {
            Json::Str(s) => Some(s.clone()),
            _ => None,
        },
        None => None,
    }
}

/// Reads a required unsigned number field.
pub fn u64_field(j: &Json, key: &str) -> (r: Option<u64>)
    ensures
        r == jv_u64_field(j.jv(), key@),
{
    match j.get(key) {
        Some(v) => match v {
            Json::Num(s) => parse_u64(s.as_str()),
            _ => None,
        },
        None => None,
    }
}

/// Reads a required boolean field.
pub fn bool_field(j: &Json, key: &str) -> (r: Option<bool>)
    ensures
        r == jv_bool_field(j.jv(), key@),
{
    match j.get(key) {
        Some(v) => match v {
            Json::Bool(b) => Some(*b),
            _ => None,
        },
        None => None,
    }
}

/// Reads an optional string field: absent or null becomes `Some(None)`, any
/// other non-string shape is rejected.
pub fn opt_str_field(j: &Json, key: &str) -> (r: Option<Option<String>>)
    ensures
        r.deep_view() == jv_opt_str_field(j.jv(), key@),
{
    match j.get(key) {
        None => Some(None),
        Some(v) => match v {
            Json::Null => Some(None),
            Json::Str(s) => Some(Some(s.clone())),
            _ => None,
        },
    }
}

/// Reads a string field that takes a default when absent.
pub fn str_field_or(j: &Json, key: &str, dflt: &str) -> (r: Option<String>)
    ensures
        r.deep_view() == jv_str_field_or(j.jv(), key@, dflt@),
{
    match j.get(key) {
        None => Some(dflt.to_owned()),
        Some(v) => match v {
            Json::Str(s) => Some(s.clone()),
            _ => None,
        },
    }
}

/// Reads an order-identifier field given as a number or a digit string.
pub fn id_field(j: &Json, key: &str) -> (r: Option<u64>)
    ensures
        r == jv_id_field(j.jv(), key@),
{
    match j.get(key) {
        Some(v) => match v {
            Json::Num(s) => parse_u64(s.as_str()),
            Json::Str(s) => parse_u64(s.as_str()),
            _ => None,
        },
        None => None,
    }
}

/// A required unsigned 32-bit number field of an object.
pub open spec fn jv_u32_field(j: JsonVal, key: Seq<char>) -> Option<u32> {
    match jv_u64_field(j, key) {
        Some(v) => if v <= u32::MAX {
            Some(v as u32)
        } else {
            None
        },
        None => None,
    }
}

/// Reads a required unsigned 32-bit number field.
pub fn u32_field(j: &Json, key: &str) -> (r: Option<u32>)
    ensures
        r == jv_u32_field(j.jv(), key@),
{
    match u64_field(j, key) {
        Some(v) => if v <= 0xffff_ffff {
            Some(v as u32)
        } else {
            None
        },
        None => None,
    }
}

} // verus!
