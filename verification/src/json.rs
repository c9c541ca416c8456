//! Reading JSON documents: parsing text into `serde_json::Value` and the
//! few accessors the library's readers use. Each is a call into
//! `serde_json`, and what it gives is named here as a function of its
//! arguments.
use vstd::prelude::*;

verus! {

/// What `serde_json::from_str::<serde_json::Value>` reads from a text;
/// `None` where the text is not JSON.
pub uninterp spec fn json_parsed(raw: Seq<char>) -> Option<serde_json::Value>;

/// Whether a text is a JSON document.
pub open spec fn json_parses(raw: Seq<char>) -> bool {
    json_parsed(raw) is Some
}

/// What `Value::get` gives for a key: the member of an object under that
/// key; `None` for a missing key or a value that is not an object.
pub uninterp spec fn json_field(v: serde_json::Value, key: Seq<char>) -> Option<serde_json::Value>;

/// What `Value::as_str` gives: the text of a JSON string, `None` for
/// anything else.
pub uninterp spec fn json_string(v: serde_json::Value) -> Option<Seq<char>>;

/// What `Value::as_array` gives: the elements of a JSON array in order,
/// `None` for anything else.
pub uninterp spec fn json_array(v: serde_json::Value) -> Option<Seq<serde_json::Value>>;

/// What `Value::as_object` gives: the members of a JSON object in the
/// map's order, `None` for anything else.
pub uninterp spec fn json_entries(v: serde_json::Value) -> Option<Seq<(Seq<char>, serde_json::Value)>>;

/// What inserting `key` with the JSON string `s` into an object gives
/// (`Map::insert` through `Value::as_object_mut`); a value that is not an
/// object stays as it is.
pub uninterp spec fn json_with_string(v: serde_json::Value, key: Seq<char>, s: Seq<char>) -> serde_json::Value;

/// The text of an optional member where it is a string.
pub open spec fn string_member(v: Option<serde_json::Value>) -> Option<Seq<char>> {
    match v {
        Some(m) => json_string(m),
        None => None,
    }
}

/// Wraps `serde_json::from_str::<serde_json::Value>`.
#[verifier::external_body]
pub fn parse_json(raw: &str) -> (r: Option<serde_json::Value>)
    ensures
        r == json_parsed(raw@),
{
    serde_json::from_str::<serde_json::Value>(raw).ok()
}

/// Wraps `serde_json::Value::get` with a string key.
#[verifier::external_body]
pub fn json_get<'a>(v: &'a serde_json::Value, key: &str) -> (r: Option<&'a serde_json::Value>)
    ensures
        match r {
            Some(m) => json_field(*v, key@) == Some(*m),
            None => json_field(*v, key@) is None,
        },
{
    v.get(key)
}

/// Wraps `serde_json::Value::as_str`.
#[verifier::external_body]
pub fn json_as_str(v: &serde_json::Value) -> (r: Option<&str>)
    ensures
        match r {
            Some(s) => json_string(*v) == Some(s@),
            None => json_string(*v) is None,
        },
{
    v.as_str()
}

/// Wraps `serde_json::Value::as_array`, the elements cloned in order.
#[verifier::external_body]
pub fn json_elements(v: &serde_json::Value) -> (r: Option<Vec<serde_json::Value>>)
    ensures
        match r {
            Some(a) => json_array(*v) == Some(a@),
            None => json_array(*v) is None,
        },
{
    v.as_array().cloned()
}

/// Wraps `serde_json::Value::as_object`, the members cloned in the map's
/// order as key and value pairs.
#[verifier::external_body]
pub fn json_members(v: &serde_json::Value) -> (r: Option<Vec<(String, serde_json::Value)>>)
    ensures
        match r {
            Some(es) => json_entries(*v) == Some(es@.map_values(|e: (String, serde_json::Value)| (e.0@, e.1))),
            None => json_entries(*v) is None,
        },
{
    v.as_object().map(|o| o.iter().map(|(k, m)| (k.clone(), m.clone())).collect())
}

/// Wraps `serde_json::Map::insert` of a JSON string on an object value.
#[verifier::external_body]
pub fn json_set_string(v: &mut serde_json::Value, key: &str, s: String)
    ensures
        *final(v) == json_with_string(*old(v), key@, s@),
{
    if let Some(obj) = v.as_object_mut() {
        obj.insert(key.to_string(), serde_json::Value::String(s));
    }
}

/// Wraps `serde_json::Value::Array`: a JSON array of the items, which
/// `Value::as_array` gives back in order.
#[verifier::external_body]
pub fn json_array_value(items: Vec<serde_json::Value>) -> (r: serde_json::Value)
    ensures
        json_array(r) == Some(items@),
{
    serde_json::Value::Array(items)
}

} // verus!
