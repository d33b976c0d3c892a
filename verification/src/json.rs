//! The JSON objects a structured reply decodes into.  The object itself is a
//! `serde_json` map, opaque to verification; what the decoders read from it
//! is named here and stated in the contracts of small trusted accessors.

use vstd::prelude::*;

verus! {

#[verifier::external_type_specification]
#[verifier::external_body]
#[verifier::reject_recursive_types(K)]
#[verifier::reject_recursive_types(V)]
pub struct ExJsonMap<K, V>(serde_json::Map<K, V>);

#[verifier::external_type_specification]
#[verifier::external_body]
pub struct ExJsonValue(serde_json::Value);

/// The decoded form of a structured reply: one JSON object.
pub type JsonObj = serde_json::Map<String, serde_json::Value>;

/// Whether a text is exactly one JSON object, as `serde_json` parses it.
pub uninterp spec fn parses_as_object(s: Seq<char>) -> bool;

/// The set of keys an object holds.
pub uninterp spec fn obj_keys(m: JsonObj) -> Set<Seq<char>>;

/// The object's fields whose value is a JSON string, as key to text.
pub uninterp spec fn obj_str_fields(m: JsonObj) -> Map<Seq<char>, Seq<char>>;

/// The object's fields whose value is an integer-typed JSON number that an
/// `i64` holds exactly, as key to value.  A field written as a float (such
/// as `4.5`, or `4.0`) is not in this map.
pub uninterp spec fn obj_int_fields(m: JsonObj) -> Map<Seq<char>, int>;

/// The canonical serialization of an object: the text `serde_json` writes
/// for it, keys in sorted order.
pub uninterp spec fn json_text_of(m: JsonObj) -> Seq<char>;

/// Relies on `serde_json::from_str` for `Map<String, Value>`: it succeeds
/// exactly when the text is one JSON object.
#[verifier::external_body]
pub(crate) fn parse_object(s: &str) -> (r: Option<JsonObj>)
    ensures
        r is Some <==> parses_as_object(s@),
{
    serde_json::from_str::<serde_json::Map<String, serde_json::Value>>(s).ok()
}

/// Relies on `serde_json::Map::contains_key`.
#[verifier::external_body]
pub(crate) fn obj_has_key(m: &JsonObj, key: &str) -> (r: bool)
    ensures
        r == obj_keys(*m).contains(key@),
{
    m.contains_key(key)
}

/// Relies on `serde_json::Map::get` and `Value::as_str`: the lookup returns
/// the value at the key, and `as_str` hands its text out exactly when that
/// value is a JSON string.
#[verifier::external_body]
pub(crate) fn obj_get_str(m: &JsonObj, key: &str) -> (r: Option<String>)
    ensures
        r is Some <==> obj_str_fields(*m).contains_key(key@),
        r is Some ==> r.unwrap()@ == obj_str_fields(*m)[key@],
{
    match m.get(key) {
        Some(v) => match v.as_str() {
            Some(s) => Some(s.to_string()),
            None => None,
        },
        None => None,
    }
}

/// Relies on `serde_json::Map::get` and `Value::as_i64`: `as_i64` returns
/// the value exactly when it is an integer-typed number in `i64` range; a
/// number written with a fraction or exponent is a float and yields `None`.
#[verifier::external_body]
pub(crate) fn obj_get_i64(m: &JsonObj, key: &str) -> (r: Option<i64>)
    ensures
        r is Some <==> obj_int_fields(*m).contains_key(key@),
        r is Some ==> r.unwrap() as int == obj_int_fields(*m)[key@],
{
    match m.get(key) {
        Some(v) => v.as_i64(),
        None => None,
    }
}

/// Relies on `serde_json::to_string`: serializing a string-keyed map of
/// values cannot fail, and the output is a deterministic function of the
/// map's contents.
#[verifier::external_body]
pub(crate) fn obj_to_text(m: &JsonObj) -> (r: String)
    ensures
        r@ == json_text_of(*m),
{
    serde_json::to_string(m).unwrap()
}

} // verus!
