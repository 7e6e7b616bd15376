use vstd::prelude::*;

verus! {

/// A JSON value of serde_json, carried through opaquely.
#[verifier::external_type_specification]
#[verifier::external_body]
pub struct ExValue(serde_json::Value);

/// A JSON object of serde_json, carried through opaquely.
#[verifier::external_type_specification]
#[verifier::external_body]
#[verifier::reject_recursive_types(K)]
#[verifier::reject_recursive_types(V)]
pub struct ExJsonMap<K, V>(serde_json::Map<K, V>);

/// A JSON object with string keys.
pub type JsonObject = serde_json::Map<String, serde_json::Value>;

/// What a JSON object holds: its keys and their values.
pub uninterp spec fn entries(m: JsonObject) -> Map<Seq<char>, serde_json::Value>;

/// An object with no keys.
pub open spec fn empty_entries() -> Map<Seq<char>, serde_json::Value> {
    Map::empty()
}

/// What `Value::as_bool` gives for `v`.
pub uninterp spec fn bool_of(v: serde_json::Value) -> Option<bool>;

/// What `Value::as_str` gives for `v`.
pub uninterp spec fn str_of(v: serde_json::Value) -> Option<Seq<char>>;

/// What `Value::as_array` gives for `v`.
pub uninterp spec fn array_of(v: serde_json::Value) -> Option<Seq<serde_json::Value>>;

/// The entries of the object that `Value::as_object` gives for `v`.
pub uninterp spec fn object_of(v: serde_json::Value) -> Option<Map<Seq<char>, serde_json::Value>>;

/// What `Value::is_null` gives for `v`.
pub uninterp spec fn null_of(v: serde_json::Value) -> bool;

/// The value that `serde_json::from_str` parses from `s`, if it parses.
pub uninterp spec fn parsed_of(s: Seq<char>) -> Option<serde_json::Value>;

/// Relies on `Map::new`: an object with no keys.
#[verifier::external_body]
pub(crate) fn object_new() -> (r: JsonObject)
    ensures
        entries(r) == empty_entries(),
{
    serde_json::Map::new()
}

/// Relies on `Map::insert`: `k` now maps to `v`, every other key is kept.
#[verifier::external_body]
pub(crate) fn object_insert(m: &mut JsonObject, k: String, v: serde_json::Value)
    ensures
        entries(*final(m)) == entries(*old(m)).insert(k@, v),
{
    m.insert(k, v);
}

/// Relies on `Map::remove`: `k` is gone, every other key is kept, and its value comes back.
#[verifier::external_body]
pub(crate) fn object_remove(m: &mut JsonObject, k: &str) -> (r: Option<serde_json::Value>)
    ensures
        entries(*final(m)) == entries(*old(m)).remove(k@),
        r == (if entries(*old(m)).contains_key(k@) {
            Some(entries(*old(m))[k@])
        } else {
            None
        }),
{
    m.remove(k)
}

/// Relies on `Map::get`: the value under `k`, cloned.
#[verifier::external_body]
pub(crate) fn object_get(m: &JsonObject, k: &str) -> (r: Option<serde_json::Value>)
    ensures
        r == (if entries(*m).contains_key(k@) {
            Some(entries(*m)[k@])
        } else {
            None
        }),
{
    m.get(k).cloned()
}

/// Relies on `Value::as_bool`.
#[verifier::external_body]
pub(crate) fn as_bool(v: &serde_json::Value) -> (r: Option<bool>)
    ensures
        r == bool_of(*v),
{
    v.as_bool()
}

/// Relies on `Value::as_str`, the text copied out.
#[verifier::external_body]
pub(crate) fn as_str(v: &serde_json::Value) -> (r: Option<String>)
    ensures
        r.is_some() == str_of(*v).is_some(),
        r.is_some() ==> r.unwrap()@ == str_of(*v).unwrap(),
{
    v.as_str().map(|s| s.to_string())
}

/// Relies on `Value::as_array`, the items cloned.
#[verifier::external_body]
pub(crate) fn as_array(v: &serde_json::Value) -> (r: Option<Vec<serde_json::Value>>)
    ensures
        r.is_some() == array_of(*v).is_some(),
        r.is_some() ==> r.unwrap()@ == array_of(*v).unwrap(),
{
    v.as_array().cloned()
}

/// Relies on `Value::as_object`, the object cloned.
#[verifier::external_body]
pub(crate) fn as_object(v: &serde_json::Value) -> (r: Option<JsonObject>)
    ensures
        r.is_some() == object_of(*v).is_some(),
        r.is_some() ==> entries(r.unwrap()) == object_of(*v).unwrap(),
{
    v.as_object().cloned()
}

/// Relies on `Value::is_null`.
#[verifier::external_body]
pub(crate) fn is_null(v: &serde_json::Value) -> (r: bool)
    ensures
        r == null_of(*v),
{
    v.is_null()
}

/// Relies on `Value::Bool`: `as_bool` gives `b` back.
#[verifier::external_body]
pub(crate) fn bool_value(b: bool) -> (r: serde_json::Value)
    ensures
        bool_of(r) == Some(b),
{
    serde_json::Value::Bool(b)
}

/// Relies on `Value::String`: `as_str` gives `s` back, and it is not null.
#[verifier::external_body]
pub(crate) fn string_value(s: String) -> (r: serde_json::Value)
    ensures
        str_of(r) == Some(s@),
        !null_of(r),
{
    serde_json::Value::String(s)
}

/// Relies on `Value::Array`: `as_array` gives the items back, and it is not null.
#[verifier::external_body]
pub(crate) fn array_value(items: Vec<serde_json::Value>) -> (r: serde_json::Value)
    ensures
        array_of(r) == Some(items@),
        !null_of(r),
{
    serde_json::Value::Array(items)
}

/// Relies on `Value::Object`: `as_object` gives the entries back.
#[verifier::external_body]
pub(crate) fn object_value(m: JsonObject) -> (r: serde_json::Value)
    ensures
        object_of(r) == Some(entries(m)),
{
    serde_json::Value::Object(m)
}

/// Relies on `Value::Null`: `is_null` holds of it.
#[verifier::external_body]
pub(crate) fn null_value() -> (r: serde_json::Value)
    ensures
        null_of(r),
{
    serde_json::Value::Null
}

/// Relies on `serde_json::from_str`: the parsed value, or the parser's message.
#[verifier::external_body]
pub(crate) fn parse_json(s: &str) -> (r: Result<serde_json::Value, String>)
    ensures
        r.is_ok() == parsed_of(s@).is_some(),
        r.is_ok() ==> r.unwrap() == parsed_of(s@).unwrap(),
{
    serde_json::from_str::<serde_json::Value>(s).map_err(|e| e.to_string())
}

} // verus!
