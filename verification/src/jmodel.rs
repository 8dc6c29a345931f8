//! The inbound half of the wire codec's foundation: a mathematical model of
//! a received JSON document, and the trusted boundary to `serde_json`, which
//! parses frame text into `serde_json::Value`.
//!
//! Every verified decoder in this library reads a `serde_json::Value` only
//! through the wrappers below, whose contracts are stated over the model.

use vstd::prelude::*;

verus! {

/// The model of a JSON document: what a `serde_json::Value` holds.
///
/// A number is modeled exactly when it has an integer value; a number with
/// a fractional value is only marked as such, since no decoder of this
/// library reads one.
pub enum JsonData {
    Null,
    Bool(bool),
    Int(int),
    FracNum,
    Str(Seq<char>),
    Arr(Seq<JsonData>),
    Obj(Map<Seq<char>, JsonData>),
}

/// What `Value::as_i64` yields on a value with model `d`.
pub open spec fn m_as_i64(d: JsonData) -> Option<i64> {
    match d {
        JsonData::Int(i) => if i64::MIN <= i <= i64::MAX {
            Some(i as i64)
        } else {
            None
        },
        _ => None,
    }
}

/// What `Value::as_bool` yields on a value with model `d`.
pub open spec fn m_as_bool(d: JsonData) -> Option<bool> {
    match d {
        JsonData::Bool(b) => Some(b),
        _ => None,
    }
}

/// What `Value::as_str` yields on a value with model `d`, as a sequence.
pub open spec fn m_as_str(d: JsonData) -> Option<Seq<char>> {
    match d {
        JsonData::Str(s) => Some(s),
        _ => None,
    }
}

/// Whether `d` is an object holding key `k`.
pub open spec fn m_has_key(d: JsonData, k: Seq<char>) -> bool {
    match d {
        JsonData::Obj(m) => m.contains_key(k),
        _ => false,
    }
}

/// The value an object with model `d` holds at key `k`.
pub open spec fn m_key(d: JsonData, k: Seq<char>) -> JsonData
    recommends
        m_has_key(d, k),
{
    match d {
        JsonData::Obj(m) => if m.contains_key(k) {
            m[k]
        } else {
            JsonData::Null
        },
        _ => JsonData::Null,
    }
}

#[verifier::external_type_specification]
#[verifier::external_body]
pub struct ExValue(serde_json::Value);

/// The model of a parsed `serde_json::Value`.
pub uninterp spec fn value_model(v: serde_json::Value) -> JsonData;

/// What `serde_json::from_str::<Value>` yields on a text: the parse is a
/// deterministic function of the input alone.
pub uninterp spec fn parsed(s: Seq<char>) -> Option<JsonData>;

/// Relies on `serde_json::from_str::<Value>`: parses a JSON text, and
/// fails exactly on malformed text.
#[verifier::external_body]
pub fn parse_text(s: &str) -> (r: Option<serde_json::Value>)
    ensures
        match r {
            Some(v) => parsed(s@) == Some(value_model(v)),
            None => parsed(s@) is None,
        },
{
    serde_json::from_str::<serde_json::Value>(s).ok()
}

/// Relies on `serde_json::Value::get` with a string index: looks a key up
/// in an object, and yields nothing on a missing key or a non-object.
#[verifier::external_body]
pub fn jv_get<'a>(v: &'a serde_json::Value, key: &str) -> (r: Option<&'a serde_json::Value>)
    ensures
        match r {
            Some(u) => m_has_key(value_model(*v), key@) && value_model(*u) == m_key(
                value_model(*v),
                key@,
            ),
            None => !m_has_key(value_model(*v), key@),
        },
{
    v.get(key)
}

/// Relies on `serde_json::Value::as_str`: yields the string a value holds,
/// and nothing on a non-string.
#[verifier::external_body]
pub fn jv_as_str<'a>(v: &'a serde_json::Value) -> (r: Option<&'a str>)
    ensures
        match r {
            Some(s) => value_model(*v) == JsonData::Str(s@),
            None => !(value_model(*v) is Str),
        },
{
    v.as_str()
}

/// Relies on `serde_json::Value::as_i64`: yields a number's value exactly
/// when it is an integer representable as `i64`.
#[verifier::external_body]
pub fn jv_as_i64(v: &serde_json::Value) -> (r: Option<i64>)
    ensures
        r == m_as_i64(value_model(*v)),
{
    v.as_i64()
}

/// Relies on `serde_json::Value::as_bool`: yields the boolean a value
/// holds, and nothing on a non-boolean.
#[verifier::external_body]
pub fn jv_as_bool(v: &serde_json::Value) -> (r: Option<bool>)
    ensures
        r == m_as_bool(value_model(*v)),
{
    v.as_bool()
}

/// Relies on `serde_json::Value::is_null`.
#[verifier::external_body]
pub fn jv_is_null(v: &serde_json::Value) -> (r: bool)
    ensures
        r == (value_model(*v) is Null),
{
    v.is_null()
}

/// Relies on `serde_json::Value::is_object`.
#[verifier::external_body]
pub fn jv_is_object(v: &serde_json::Value) -> (r: bool)
    ensures
        r == (value_model(*v) is Obj),
{
    v.is_object()
}

/// Relies on `serde_json::Value::as_array`: yields the element vector of
/// an array, and nothing on a non-array.
#[verifier::external_body]
pub fn jv_as_array<'a>(v: &'a serde_json::Value) -> (r: Option<&'a Vec<serde_json::Value>>)
    ensures
        match r {
            Some(a) => value_model(*v) == JsonData::Arr(
                a@.map_values(|x: serde_json::Value| value_model(x)),
            ),
            None => !(value_model(*v) is Arr),
        },
{
    v.as_array()
}

/// Relies on `serde_json::Value::clone`: an exact copy.
#[verifier::external_body]
pub fn jv_clone(v: &serde_json::Value) -> (r: serde_json::Value)
    ensures
        value_model(r) == value_model(*v),
{
    v.clone()
}

} // verus!
