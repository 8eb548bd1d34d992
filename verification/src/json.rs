//! Mathematical model of JSON documents, and the trusted boundary to
//! serde_json.
//!
//! Every JSON value that the engine inspects or builds is described by the
//! ghost datatype [`JsonData`]. The contents of a `serde_json::Value` are
//! named by the uninterpreted function `json_model`; the small
//! `external_body` wrappers below state, over that name, what each
//! serde_json call does, and all protocol logic is verified against those
//! statements.

use vstd::prelude::*;

verus! {

/// Ghost model of one JSON document. A number is carried as the underlying
/// `serde_json::Number` value, which the core never interprets beyond the
/// accessors named below; an object is a map from key to model, which is
/// faithful because the backing store is a sorted map (no duplicate keys,
/// serialization order determined by the key set).
#[verifier::ext_equal]
pub enum JsonData {
    Null,
    Bool(bool),
    Num(serde_json::Number),
    Str(Seq<char>),
    Arr(Seq<JsonData>),
    Obj(Map<Seq<char>, JsonData>),
}

/// Declares `serde_json::Value`, the decoded JSON document type, so that
/// signatures and fields can carry it; its contents are reached only
/// through `json_model`.
#[verifier::external_type_specification]
#[verifier::external_body]
pub struct ExValue(serde_json::Value);

/// Declares `serde_json::Number`, the arbitrary JSON number type; the core
/// never interprets one beyond `Number::as_i64`.
#[verifier::external_type_specification]
#[verifier::external_body]
pub struct ExNumber(serde_json::Number);

/// Declares `serde_json::Map`, the object representation behind
/// `Value::Object`; backed by a sorted map, so key order in serialization
/// is determined by the key set.
#[verifier::external_type_specification]
#[verifier::external_body]
#[verifier::reject_recursive_types(K)]
#[verifier::reject_recursive_types(V)]
pub struct ExMap<K, V>(serde_json::Map<K, V>);

/// Declares `serde_json::Error`, carried opaquely inside the library's
/// decode-error variant.
#[verifier::external_type_specification]
#[verifier::external_body]
pub struct ExJsonError(serde_json::Error);

/// The contents of a `serde_json::Value`.
pub uninterp spec fn json_model(v: serde_json::Value) -> JsonData;

/// The contents of a `serde_json::Map<String, Value>`.
pub uninterp spec fn json_map_model(m: serde_json::Map<String, serde_json::Value>) -> Map<
    Seq<char>,
    JsonData,
>;

/// What `serde_json::from_slice::<Value>` decodes from a byte sequence:
/// `Some` exactly on well-formed JSON text, and the decoded document depends
/// on the bytes alone.
pub uninterp spec fn json_parse(s: Seq<u8>) -> Option<JsonData>;

/// What the `Display` implementation of `serde_json::Value` prints: the
/// compact serialization, a function of the document alone (object keys come
/// out in sorted order from the sorted backing map).
pub uninterp spec fn json_dump(d: JsonData) -> Seq<char>;

/// What `serde_json::Number::as_i64` returns for a given number.
pub uninterp spec fn number_as_i64(n: serde_json::Number) -> Option<i64>;

/// True when `d` is an object with field `key`.
pub open spec fn obj_has(d: JsonData, key: Seq<char>) -> bool {
    match d {
        JsonData::Obj(m) => m.dom().contains(key),
        _ => false,
    }
}

/// The field `key` of object `d`, `Null` when absent or not an object.
pub open spec fn obj_get(d: JsonData, key: Seq<char>) -> JsonData {
    match d {
        JsonData::Obj(m) => if m.dom().contains(key) {
            m[key]
        } else {
            JsonData::Null
        },
        _ => JsonData::Null,
    }
}

/// The string field `key` of `d`, when present and a string.
pub open spec fn obj_str(d: JsonData, key: Seq<char>) -> Option<Seq<char>> {
    if obj_has(d, key) {
        match obj_get(d, key) {
            JsonData::Str(s) => Some(s),
            _ => None,
        }
    } else {
        None
    }
}

/// Relies on `serde_json::from_slice::<Value>`: decodes exactly the
/// well-formed JSON byte sequences, deterministically.
#[verifier::external_body]
pub(crate) fn parse_json_bytes(bytes: &[u8]) -> (r: Option<serde_json::Value>)
    ensures
        match r {
            Some(v) => json_parse(bytes@) == Some(json_model(v)),
            None => json_parse(bytes@) is None,
        },
{
    serde_json::from_slice::<serde_json::Value>(bytes).ok()
}

/// Relies on `serde_json::Value::get` with a string index: on an object it
/// looks the key up, on every other value it returns `None`.
#[verifier::external_body]
pub(crate) fn json_get<'a>(v: &'a serde_json::Value, key: &str) -> (r: Option<
    &'a serde_json::Value,
>)
    ensures
        r is Some <==> obj_has(json_model(*v), key@),
        r matches Some(w) ==> json_model(*w) == obj_get(json_model(*v), key@),
{
    v.get(key)
}

/// Relies on `serde_json::Value::as_str`: `Some` exactly on a JSON string.
#[verifier::external_body]
pub(crate) fn json_as_str(v: &serde_json::Value) -> (r: Option<String>)
    ensures
        r is Some <==> json_model(*v) is Str,
        r matches Some(s) ==> json_model(*v) == JsonData::Str(s@),
{
    v.as_str().map(|s| s.to_owned())
}

/// Relies on `serde_json::Value::as_bool`: `Some` exactly on a JSON boolean.
#[verifier::external_body]
pub(crate) fn json_as_bool(v: &serde_json::Value) -> (r: Option<bool>)
    ensures
        r is Some <==> json_model(*v) is Bool,
        r matches Some(b) ==> json_model(*v) == JsonData::Bool(b),
{
    v.as_bool()
}

/// Relies on `serde_json::Value::as_i64`: on a JSON number it defers to
/// `Number::as_i64`, on every other value it returns `None`.
#[verifier::external_body]
pub(crate) fn json_as_i64(v: &serde_json::Value) -> (r: Option<i64>)
    ensures
        match json_model(*v) {
            JsonData::Num(n) => r == number_as_i64(n),
            _ => r is None,
        },
{
    v.as_i64()
}

/// Relies on `serde_json::Value::as_number`: `Some` exactly on a JSON number,
/// handing back that number.
#[verifier::external_body]
pub(crate) fn json_as_number(v: &serde_json::Value) -> (r: Option<serde_json::Number>)
    ensures
        r is Some <==> json_model(*v) is Num,
        r matches Some(n) ==> json_model(*v) == JsonData::Num(n),
{
    v.as_number().cloned()
}

/// Relies on `serde_json::Value::as_array`: `Some` exactly on a JSON array,
/// with one element per model element, in order.
#[verifier::external_body]
pub(crate) fn json_as_array<'a>(v: &'a serde_json::Value) -> (r: Option<
    &'a Vec<serde_json::Value>,
>)
    ensures
        r is Some <==> json_model(*v) is Arr,
        r matches Some(a) ==> {
            &&& json_model(*v) matches JsonData::Arr(s)
            &&& a@.len() == s.len()
            &&& forall|i: int| 0 <= i < s.len() ==> json_model(#[trigger] a@[i]) == s[i]
        },
{
    v.as_array()
}

/// Relies on `serde_json::Value::is_null`.
#[verifier::external_body]
pub(crate) fn json_is_null(v: &serde_json::Value) -> (r: bool)
    ensures
        r == (json_model(*v) is Null),
{
    v.is_null()
}

/// Relies on `serde_json::Value::is_object`.
#[verifier::external_body]
pub(crate) fn json_is_object(v: &serde_json::Value) -> (r: bool)
    ensures
        r == (json_model(*v) is Obj),
{
    v.is_object()
}

/// Relies on the derived `Clone` of `serde_json::Value`: a deep copy holds
/// the same document.
pub assume_specification[ <serde_json::Value as Clone>::clone ](v: &serde_json::Value) -> (r:
    serde_json::Value)
    ensures
        json_model(r) == json_model(*v),
;

/// Relies on the `Display` implementation of `serde_json::Value`: the compact
/// serialization, determined by the document.
#[verifier::external_body]
pub(crate) fn json_to_string(v: &serde_json::Value) -> (r: String)
    ensures
        r@ == json_dump(json_model(*v)),
{
    v.to_string()
}

/// Relies on the `serde_json::Value::Null` constructor.
#[verifier::external_body]
pub(crate) fn json_null() -> (r: serde_json::Value)
    ensures
        json_model(r) == JsonData::Null,
{
    serde_json::Value::Null
}

/// Relies on the `serde_json::Value::Bool` constructor.
#[verifier::external_body]
pub(crate) fn json_bool(b: bool) -> (r: serde_json::Value)
    ensures
        json_model(r) == JsonData::Bool(b),
{
    serde_json::Value::Bool(b)
}

/// Relies on the `serde_json::Value::String` constructor.
#[verifier::external_body]
pub(crate) fn json_string(s: &str) -> (r: serde_json::Value)
    ensures
        json_model(r) == JsonData::Str(s@),
{
    serde_json::Value::String(s.to_owned())
}

/// Relies on the `serde_json::Value::Array` constructor.
#[verifier::external_body]
pub(crate) fn json_array(items: Vec<serde_json::Value>) -> (r: serde_json::Value)
    ensures
        json_model(r) matches JsonData::Arr(s) && s.len() == items@.len() && forall|i: int|
            0 <= i < items@.len() ==> s[i] == json_model(#[trigger] items@[i]),
{
    serde_json::Value::Array(items)
}

/// The empty object model.
pub open spec fn empty_obj() -> Map<Seq<char>, JsonData> {
    Map::empty()
}

/// Relies on `serde_json::Map::new`.
#[verifier::external_body]
pub(crate) fn json_map_new() -> (r: serde_json::Map<String, serde_json::Value>)
    ensures
        json_map_model(r) == empty_obj(),
{
    serde_json::Map::new()
}

/// Relies on `serde_json::Map::insert`: adds or replaces the binding for the
/// key.
#[verifier::external_body]
pub(crate) fn json_map_insert(
    m: &mut serde_json::Map<String, serde_json::Value>,
    key: &str,
    v: serde_json::Value,
)
    ensures
        json_map_model(*final(m)) == json_map_model(*old(m)).insert(key@, json_model(v)),
{
    m.insert(key.to_owned(), v);
}

/// The string field `key` of `v`, when present and a string.
pub(crate) fn get_str_field(v: &serde_json::Value, key: &str) -> (r: Option<String>)
    ensures
        r is Some <==> obj_str(json_model(*v), key@) is Some,
        r matches Some(s) ==> obj_str(json_model(*v), key@) == Some(s@),
{
    match json_get(v, key) {
        Some(x) => json_as_str(x),
        None => None,
    }
}

/// A copy of the field `key` of `v`, when present.
pub(crate) fn get_field_clone(v: &serde_json::Value, key: &str) -> (r: Option<serde_json::Value>)
    ensures
        r is Some <==> obj_has(json_model(*v), key@),
        r matches Some(w) ==> json_model(w) == obj_get(json_model(*v), key@),
{
    match json_get(v, key) {
        Some(x) => Some(x.clone()),
        None => None,
    }
}

/// Relies on the `serde_json::Value::Object` constructor.
#[verifier::external_body]
pub(crate) fn json_object(m: serde_json::Map<String, serde_json::Value>) -> (r: serde_json::Value)
    ensures
        json_model(r) == JsonData::Obj(json_map_model(m)),
{
    serde_json::Value::Object(m)
}

} // verus!
