//! Trusted boundary to `serde_json`.
//!
//! Remote bodies arrive as JSON text. Each wrapper here makes exactly one
//! `serde_json` call; the verified glue below converts a parsed document once
//! into plain `RpcValue` items or extracted strings, and every decision about
//! those values is made by the verified parsers in `rpc`. Nothing can be
//! promised about an opaque document, so the wrappers carry no contracts;
//! the parsers working on the extracted plain values carry exact ones.

use vstd::prelude::*;

use crate::rpc::{RpcBody, RpcValue};

verus! {

#[verifier::external_type_specification]
#[verifier::external_body]
pub struct ExJsonValue(serde_json::Value);

/// Relies on `serde_json::from_str`: parses a JSON document, `None` when the
/// text is not valid JSON.
#[verifier::external_body]
fn json_parse(body: &str) -> Option<serde_json::Value> {
    serde_json::from_str(body).ok()
}

/// Relies on `serde_json::Value::as_array`: the element vector when the value
/// is an array.
#[verifier::external_body]
fn json_as_array<'a>(v: &'a serde_json::Value) -> Option<&'a Vec<serde_json::Value>> {
    v.as_array()
}

/// Relies on `serde_json::Value::as_str`: the text when the value is a string.
#[verifier::external_body]
fn json_as_str(v: &serde_json::Value) -> Option<String> {
    match v.as_str() {
        Some(s) => Some(s.to_string()),
        None => None,
    }
}

/// Relies on `serde_json::Value::as_u64`: the integer when the value is a
/// non-negative integer in range.
#[verifier::external_body]
fn json_as_u64(v: &serde_json::Value) -> Option<u64> {
    v.as_u64()
}

/// Relies on `serde_json::Value::as_bool`: the boolean when the value is one.
#[verifier::external_body]
fn json_as_bool(v: &serde_json::Value) -> Option<bool> {
    v.as_bool()
}

/// Relies on `serde_json::Value::is_null`: whether the value is JSON null.
#[verifier::external_body]
fn json_is_null(v: &serde_json::Value) -> bool {
    v.is_null()
}

/// Relies on `serde_json::Value::get`: member lookup in a JSON object.
#[verifier::external_body]
fn json_member<'a>(v: &'a serde_json::Value, key: &str) -> Option<&'a serde_json::Value> {
    v.get(key)
}

/// Reduces one JSON value to a plain `RpcValue`.
fn classify_value(v: &serde_json::Value) -> RpcValue {
    if json_is_null(v) {
        return RpcValue::Null;
    }
    if let Some(b) = json_as_bool(v) {
        return RpcValue::Flag(b);
    }
    if let Some(n) = json_as_u64(v) {
        return RpcValue::Number(n);
    }
    if let Some(s) = json_as_str(v) {
        return RpcValue::Text(s);
    }
    RpcValue::Composite
}

/// Reduces a raw RPC response body to plain values: `NotArray` when the body
/// is not a JSON array, otherwise its elements in order. What each parsed
/// shape means is pinned down by the verified parsers in `rpc`.
pub fn parse_rpc_body(body: &str) -> RpcBody {
    let doc = match json_parse(body) {
        Some(doc) => doc,
        None => {
            return RpcBody::NotArray;
        },
    };
    let arr = match json_as_array(&doc) {
        Some(arr) => arr,
        None => {
            return RpcBody::NotArray;
        },
    };
    let mut items: Vec<RpcValue> = Vec::new();
    let mut i: usize = 0;
    while i < arr.len()
        decreases arr@.len() - i,
    {
        items.push(classify_value(&arr[i]));
        i = i + 1;
    }
    RpcBody::Items(items)
}

/// Extracts the signal function names from a snapshot response body:
/// `Some(names)` when the body is JSON carrying a `webPoSignalOutput` array
/// of strings, `None` for any other shape. The caller falls back to the
/// default minter reference on `None`; malformed inner JSON never fails.
pub fn extract_signal_refs(response: &str) -> Option<Vec<String>> {
    let doc = match json_parse(response) {
        Some(doc) => doc,
        None => {
            return None;
        },
    };
    let field = match json_member(&doc, "webPoSignalOutput") {
        Some(field) => field,
        None => {
            return None;
        },
    };
    let arr = match json_as_array(field) {
        Some(arr) => arr,
        None => {
            return None;
        },
    };
    let mut names: Vec<String> = Vec::new();
    let mut i: usize = 0;
    while i < arr.len()
        decreases arr@.len() - i,
    {
        match json_as_str(&arr[i]) {
            Some(name) => {
                names.push(name);
            },
            None => {
                return None;
            },
        }
        i = i + 1;
    }
    Some(names)
}

/// Extracts the visitor data string from a browse response body: the value at
/// `responseContext.visitorData` when present and a string, else `None`.
/// Its absence is a hard failure for the caller, never a silent default.
pub fn extract_visitor_data(body: &str) -> Option<String> {
    let doc = match json_parse(body) {
        Some(doc) => doc,
        None => {
            return None;
        },
    };
    let ctx = match json_member(&doc, "responseContext") {
        Some(ctx) => ctx,
        None => {
            return None;
        },
    };
    let field = match json_member(ctx, "visitorData") {
        Some(field) => field,
        None => {
            return None;
        },
    };
    json_as_str(field)
}

} // verus!
