//! JSON documents as `serde_json` holds them, and their mathematical model.
//!
//! The values themselves stay opaque: the library reads them only through the
//! functions below, each of which forwards to one `serde_json` function and
//! states what that function returns in terms of the model.

use vstd::prelude::*;

verus! {

/// A JSON number as `serde_json` holds it.
pub enum JsonNumber {
    /// An integer: non-negative up to `u64::MAX`, negative down to `i64::MIN`.
    Integer(int),
    /// A finite binary64 number, identified by its IEEE 754 bit pattern.
    Binary64(u64),
}

/// The mathematical model of a JSON document.
pub enum Json {
    Null,
    Bool(bool),
    Number(JsonNumber),
    String(Seq<char>),
    Array(Seq<Json>),
    Object(Map<Seq<char>, Json>),
}

/// `serde_json::Value`, carried as it is.
#[verifier::external_type_specification]
#[verifier::external_body]
pub struct ExValue(serde_json::Value);

/// `serde_json::Map`, carried as it is.
#[verifier::external_type_specification]
#[verifier::external_body]
#[verifier::reject_recursive_types(K)]
#[verifier::reject_recursive_types(V)]
pub struct ExMap<K, V>(serde_json::Map<K, V>);

/// `serde_json::Error`, carried as it is.
#[verifier::external_type_specification]
#[verifier::external_body]
pub struct ExError(serde_json::Error);

/// The document that a `serde_json::Value` holds.
pub uninterp spec fn json_model(value: serde_json::Value) -> Json;

/// The entries of a JSON object, each value by the document it holds.
pub uninterp spec fn object_entries(object: serde_json::Map<String, serde_json::Value>) -> Map<
    Seq<char>,
    Json,
>;

/// What `serde_json::from_str` reads from `text` as a `Value`: the document,
/// or nothing where the text is not one well-formed JSON document.
pub uninterp spec fn parsed_json(text: Seq<char>) -> Option<Json>;

/// The text that a `serde_json::Error` displays as.
pub uninterp spec fn error_text(error: serde_json::Error) -> Seq<char>;

/// The text with which `serde_json::from_value::<bool>` rejects a document
/// that is not a boolean.
pub uninterp spec fn bool_mismatch(json: Json) -> Seq<char>;

/// The text with which `serde_json::from_value::<u32>` rejects a document
/// that is not an integer between 0 and `u32::MAX`.
pub uninterp spec fn u32_mismatch(json: Json) -> Seq<char>;

/// The text with which `serde_json::from_value::<String>` rejects a document
/// that is not a string.
pub uninterp spec fn string_mismatch(json: Json) -> Seq<char>;

/// The integer that a document holds, when it is one that fits `u32`.
pub open spec fn as_u32(json: Json) -> Option<u32> {
    match json {
        Json::Number(JsonNumber::Integer(n)) if 0 <= n <= u32::MAX => Some(n as u32),
        _ => None,
    }
}

/// The views of a vector of strings, in order.
pub open spec fn texts(names: Seq<String>) -> Seq<Seq<char>> {
    names.map_values(|name: String| name@)
}

/// `serde_json::from_str::<Value>`: parses `text`. The call succeeds exactly
/// where `parsed_json` names a document, and the value then holds it.
#[verifier::external_body]
pub(crate) fn parse_json(text: &str) -> (r: Result<serde_json::Value, serde_json::Error>)
    ensures
        r is Ok <==> parsed_json(text@) is Some,
        r matches Ok(value) ==> parsed_json(text@) == Some(json_model(value)),
{
    serde_json::from_str::<serde_json::Value>(text)
}

/// `serde_json::Value::as_object`: the map inside `value` when it is an
/// object, and nothing for every other shape.
#[verifier::external_body]
pub(crate) fn as_object(value: &serde_json::Value) -> (r: Option<
    &serde_json::Map<String, serde_json::Value>,
>)
    ensures
        r is Some <==> json_model(*value) is Object,
        r matches Some(object) ==> json_model(*value) == Json::Object(object_entries(*object)),
{
    value.as_object()
}

/// `serde_json::Map::get`: the value stored under `key`, and nothing where the
/// object has no such key.
#[verifier::external_body]
pub(crate) fn object_get<'a>(
    object: &'a serde_json::Map<String, serde_json::Value>,
    key: &str,
) -> (r: Option<&'a serde_json::Value>)
    ensures
        r is Some <==> object_entries(*object).dom().contains(key@),
        r matches Some(value) ==> json_model(*value) == object_entries(*object)[key@],
{
    object.get(key)
}

/// `serde_json::Map::keys`: every key of the object, each exactly once. The
/// order in which they come is left open.
#[verifier::external_body]
pub(crate) fn key_names(kv_map: &serde_json::Map<String, serde_json::Value>) -> (names: Vec<String>)
    ensures
        texts(names@).no_duplicates(),
        texts(names@).to_set() == object_entries(*kv_map).dom(),
{
    kv_map.keys().cloned().collect()
}

/// `serde_json::from_value::<bool>`: succeeds exactly on a JSON boolean, with
/// its value; every other document is rejected with `bool_mismatch`.
#[verifier::external_body]
pub(crate) fn bool_from_value(value: &serde_json::Value) -> (r: Result<bool, serde_json::Error>)
    ensures
        match json_model(*value) {
            Json::Bool(b) => r == Ok::<bool, serde_json::Error>(b),
            other => r matches Err(e) && error_text(e) == bool_mismatch(other),
        },
{
    serde_json::from_value::<bool>(value.clone())
}

/// `serde_json::from_value::<u32>`: succeeds exactly on an integer between 0
/// and `u32::MAX`, with that integer; every other document (a larger or
/// negative integer, a binary64 number, any other shape) is rejected with
/// `u32_mismatch`.
#[verifier::external_body]
pub(crate) fn u32_from_value(value: &serde_json::Value) -> (r: Result<u32, serde_json::Error>)
    ensures
        match as_u32(json_model(*value)) {
            Some(n) => r == Ok::<u32, serde_json::Error>(n),
            None => r matches Err(e) && error_text(e) == u32_mismatch(json_model(*value)),
        },
{
    serde_json::from_value::<u32>(value.clone())
}

/// `serde_json::from_value::<String>`: succeeds exactly on a JSON string, with
/// its text; every other document is rejected with `string_mismatch`.
#[verifier::external_body]
pub(crate) fn string_from_value(value: &serde_json::Value) -> (r: Result<String, serde_json::Error>)
    ensures
        match json_model(*value) {
            Json::String(text) => r matches Ok(s) && s@ == text,
            other => r matches Err(e) && error_text(e) == string_mismatch(other),
        },
{
    serde_json::from_value::<String>(value.clone())
}

/// `ToString::to_string` on a `serde_json::Error`: the text it displays as.
#[verifier::external_body]
pub(crate) fn error_message(error: &serde_json::Error) -> (text: String)
    ensures
        text@ == error_text(*error),
{
    error.to_string()
}

} // verus!
