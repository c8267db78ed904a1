//! Trusted access to parsed JSON documents.
//!
//! Parsing bytes into a JSON document, and reading fields out of one,
//! is the business of `serde_json`; the document value itself is opaque
//! here.  What the decoder can see of a document is captured by a
//! mathematical model: parsing is a function of the bytes alone
//! (`json_wf`, `doc_of`), every value carries a model (`value_model`),
//! and each accessor states exactly what it reads out of that model.
//! The verified decoder is then pinned, value for value, to a spec
//! function of the document model.

use vstd::prelude::*;

use serde_json::Value as JsonValue;

verus! {

#[verifier::external_type_specification]
#[verifier::external_body]
pub struct ExJsonValue(JsonValue);

/// The mathematical model of a JSON document, as far as this library
/// reads one: null, booleans, numbers (remembered by their unsigned
/// 64-bit value where they have one; a negative or fractional number
/// has none), strings, arrays, and objects as maps from field name to
/// field value (a repeated field name keeps its last value, as the
/// parser does).
pub enum JsonModel {
    /// JSON `null`.
    Null,
    /// A JSON boolean.
    Bool(bool),
    /// A JSON number: its unsigned 64-bit value, where it has one.
    Num(Option<u64>),
    /// A JSON string.
    Str(Seq<char>),
    /// A JSON array.
    Arr(Seq<JsonModel>),
    /// A JSON object.
    Obj(Map<Seq<char>, JsonModel>),
}

/// Whether the bytes form a valid JSON document; parsing is a function
/// of the bytes alone.
pub uninterp spec fn json_wf(b: Seq<u8>) -> bool;

/// The document that valid bytes parse to, as a model; meaningful only
/// where `json_wf` holds.
pub uninterp spec fn doc_of(b: Seq<u8>) -> JsonModel;

/// The model of a parsed JSON value.
pub uninterp spec fn value_model(v: JsonValue) -> JsonModel;

/// Relies on `serde_json::from_slice::<Value>`: it returns `Ok` exactly
/// when the bytes are one valid JSON document, the parsed document is a
/// function of the bytes alone, and the error's message describes the
/// parse failure.
#[verifier::external_body]
pub fn parse_json(body: &[u8]) -> (r: Result<JsonValue, String>)
    ensures
        r is Ok <==> json_wf(body@),
        r matches Ok(v) ==> value_model(v) == doc_of(body@),
{
    serde_json::from_slice::<JsonValue>(body).map_err(|e| e.to_string())
}

/// Relies on `serde_json::Value::get`: on an object with the named
/// field it returns that field's value, on anything else `None`.
#[verifier::external_body]
pub fn value_get<'a>(v: &'a JsonValue, key: &str) -> (r: Option<&'a JsonValue>)
    ensures
        (match value_model(*v) {
            JsonModel::Obj(fields) => if fields.contains_key(key@) {
                r matches Some(f) && value_model(*f) == fields[key@]
            } else {
                r is None
            },
            _ => r is None,
        }),
{
    v.get(key)
}

/// Relies on `serde_json::Value::as_u64` and `usize::try_from`: the
/// numeric value of a JSON number that is an unsigned integer fitting
/// in `usize`.
#[verifier::external_body]
pub fn value_as_usize(v: &JsonValue) -> (r: Option<usize>)
    ensures
        (match value_model(*v) {
            JsonModel::Num(n) => match n {
                Some(x) => if x <= usize::MAX as u64 {
                    r == Some(x as usize)
                } else {
                    r is None
                },
                None => r is None,
            },
            _ => r is None,
        }),
{
    v.as_u64().and_then(|n| usize::try_from(n).ok())
}

/// Relies on `serde_json::Value::as_u64`: the numeric value of a JSON
/// number that is an unsigned integer.
#[verifier::external_body]
pub fn value_as_u64(v: &JsonValue) -> (r: Option<u64>)
    ensures
        r == (match value_model(*v) {
            JsonModel::Num(n) => n,
            _ => None::<u64>,
        }),
{
    v.as_u64()
}

/// Relies on `serde_json::Value::as_bool`: the value of a JSON boolean.
#[verifier::external_body]
pub fn value_as_bool(v: &JsonValue) -> (r: Option<bool>)
    ensures
        r == (match value_model(*v) {
            JsonModel::Bool(b) => Some(b),
            _ => None::<bool>,
        }),
{
    v.as_bool()
}

/// Relies on `serde_json::Value::as_str`: the contents of a JSON
/// string, handed out as an owned `String`.
#[verifier::external_body]
pub fn value_as_string(v: &JsonValue) -> (r: Option<String>)
    ensures
        (match value_model(*v) {
            JsonModel::Str(s) => r matches Some(x) && x@ == s,
            _ => r is None,
        }),
{
    v.as_str().map(|s| s.to_owned())
}

/// Relies on `serde_json::Value::as_array`: the elements of a JSON
/// array, in order.
#[verifier::external_body]
pub fn value_as_array<'a>(v: &'a JsonValue) -> (r: Option<&'a Vec<JsonValue>>)
    ensures
        (match value_model(*v) {
            JsonModel::Arr(elems) => r matches Some(a) && a@.len() == elems.len() && (forall|
                j: int,
            |
                0 <= j < elems.len() ==> value_model(#[trigger] a@[j]) == elems[j]),
            _ => r is None,
        }),
{
    v.as_array()
}

} // verus!
