//! The JSON documents of the REST interface, built with serde_json.
//!
//! serde_json's objects are opaque here. What an object holds is named by
//! `json_object_entries`; each value that is put in one is named after the
//! serde_json call that makes it.

use serde_json::Value;

use vstd::prelude::*;

verus! {

/// `serde_json::Value`, opaque here.
#[verifier::external_type_specification]
#[verifier::external_body]
pub struct ExJsonValue(Value);

/// `serde_json::Map`, opaque here.
#[verifier::external_type_specification]
#[verifier::external_body]
#[verifier::reject_recursive_types(K)]
#[verifier::reject_recursive_types(V)]
pub struct ExJsonMap<K, V>(serde_json::Map<K, V>);

/// The members of a JSON object: each key's text and the value under it.
pub uninterp spec fn json_object_entries(m: serde_json::Map<String, Value>) -> Map<Seq<char>, Value>;

/// The value that `serde_json::Value::String` makes of a text.
pub uninterp spec fn json_string(s: Seq<char>) -> Value;

/// The value that `serde_json::Value::from` makes of an unsigned number.
pub uninterp spec fn json_u64(n: u64) -> Value;

/// The value that `serde_json::Value::Object` makes of an object with these members.
pub uninterp spec fn json_object(entries: Map<Seq<char>, Value>) -> Value;

/// The text that `serde_json::to_string` writes for an object with these members.
pub uninterp spec fn json_text(entries: Map<Seq<char>, Value>) -> Seq<char>;

/// The members that `serde_json::from_str` reads from a text that holds a
/// JSON object, or `None` where the text is no JSON object.
pub uninterp spec fn json_object_parse(text: Seq<char>) -> Option<Map<Seq<char>, Value>>;

/// The members of an empty object.
pub open spec fn no_members() -> Map<Seq<char>, Value> {
    Map::empty()
}

/// `serde_json::Map::new`: an object without members.
#[verifier::external_body]
pub(crate) fn json_map_new() -> (obj: serde_json::Map<String, Value>)
    ensures
        json_object_entries(obj) == no_members(),
{
    serde_json::Map::new()
}

/// `serde_json::Map::insert`: puts `value` under `key`, replacing what was
/// there; the replaced value is dropped.
#[verifier::external_body]
pub(crate) fn json_map_insert(m: &mut serde_json::Map<String, Value>, key: String, value: Value)
    ensures
        json_object_entries(*final(m)) == json_object_entries(*old(m)).insert(key@, value),
{
    m.insert(key, value);
}

/// `serde_json::Value::String`: the JSON string holding `s`.
#[verifier::external_body]
pub(crate) fn json_string_value(s: String) -> (v: Value)
    ensures
        v == json_string(s@),
{
    Value::String(s)
}

/// `serde_json::Value::from(u64)`: the JSON number `n`.
#[verifier::external_body]
pub(crate) fn json_u64_value(n: u64) -> (v: Value)
    ensures
        v == json_u64(n),
{
    Value::from(n)
}

/// `serde_json::Value::Object`: the JSON object with the members of `m`.
#[verifier::external_body]
pub(crate) fn json_object_value(m: serde_json::Map<String, Value>) -> (v: Value)
    ensures
        v == json_object(json_object_entries(m)),
{
    Value::Object(m)
}

/// `serde_json::to_string` on an object. Serialising a map with text keys
/// cannot fail (serde_json fails only on maps with other keys), so the
/// error case is not reached. serde_json is built here without its
/// `preserve_order` feature, so its objects keep their members in key
/// order and the text depends on the members alone.
#[verifier::external_body]
pub(crate) fn json_to_string(m: &serde_json::Map<String, Value>) -> (s: String)
    ensures
        s@ == json_text(json_object_entries(*m)),
{
    serde_json::to_string(m).unwrap()
}

/// `serde_json::from_str` read as an object: `Some` exactly when the text
/// holds a JSON object, and then its members. The error is dropped.
#[verifier::external_body]
pub(crate) fn json_object_from_str(s: &str) -> (m: Option<serde_json::Map<String, Value>>)
    ensures
        m is Some <==> json_object_parse(s@) is Some,
        m matches Some(o) ==> Some(json_object_entries(o)) == json_object_parse(s@),
{
    serde_json::from_str::<serde_json::Map<String, Value>>(s).ok()
}

} // verus!
