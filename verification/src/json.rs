//! The JSON object that carries an event's payload.
//!
//! The object is a `serde_json::Map`. Verus cannot look inside one, so this
//! module names what the object holds and states, without proof, what the few
//! operations used by the crate do to it.

use vstd::prelude::*;

verus! {

/// Makes `serde_json::Map` known as a type whose inside is not looked into.
#[verifier::external_type_specification]
#[verifier::external_body]
#[verifier::reject_recursive_types(K)]
#[verifier::reject_recursive_types(V)]
pub struct ExJsonMap<K, V>(serde_json::Map<K, V>);

/// Makes `serde_json::Value` known as a type whose inside is not looked
/// into.
#[verifier::external_type_specification]
#[verifier::external_body]
pub struct ExJsonValue(serde_json::Value);

/// What a JSON object holds: each key of the object, with `Some(s)` where the
/// value under that key is the JSON string `s` and `None` where the value is
/// of any other JSON kind.
pub uninterp spec fn json_entries(m: serde_json::Map<String, serde_json::Value>) -> Map<Seq<char>, Option<Seq<char>>>;

/// Calls `serde_json::Map::new`, which makes an object without entries.
#[verifier::external_body]
pub(crate) fn json_object_new() -> (object: serde_json::Map<String, serde_json::Value>)
    ensures
        json_entries(object) =~= Map::empty(),
{
    serde_json::Map::new()
}

/// Calls `serde_json::Map::insert` with the JSON string `value`. Afterwards
/// `key` holds that string, whether or not the key was present before, and
/// every other entry is as it was.
#[verifier::external_body]
pub(crate) fn json_object_insert_string(
    m: &mut serde_json::Map<String, serde_json::Value>,
    key: String,
    value: String,
)
    ensures
        json_entries(*final(m)) == json_entries(*old(m)).insert(key@, Some(value@)),
{
    m.insert(key, serde_json::Value::String(value));
}

/// Calls `serde_json::Map::get` and hands out a copy of the string found
/// under `key`. The result is `None` where the object has no such key and
/// where the value under it is not a JSON string.
#[verifier::external_body]
pub(crate) fn json_object_get_string(
    m: &serde_json::Map<String, serde_json::Value>,
    key: &str,
) -> (found: Option<String>)
    ensures
        match found {
            Some(s) => json_entries(*m).contains_key(key@) && json_entries(*m)[key@] == Some(s@),
            None => !json_entries(*m).contains_key(key@) || json_entries(*m)[key@] is None,
        },
{
    match m.get(key) {
        Some(serde_json::Value::String(s)) => Some(s.clone()),
        _ => None,
    }
}

} // verus!
