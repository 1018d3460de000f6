//! The JSON objects that the comic API answers with, read through `serde_json`.
use vstd::prelude::*;

verus! {

#[verifier::external_type_specification]
#[verifier::external_body]
pub struct ExValue(serde_json::Value);

#[verifier::external_type_specification]
#[verifier::external_body]
#[verifier::reject_recursive_types(K)]
#[verifier::reject_recursive_types(V)]
pub struct ExJsonMap<K, V>(serde_json::Map<K, V>);

/// A member's value, as far as the comic fields need to tell values apart.
pub enum JsonMember {
    /// A JSON string.
    Text(Seq<char>),
    /// A JSON number that is an integer within `i64`.
    Integer(int),
    /// Anything else: another number, `null`, a boolean, an array or an object.
    Other,
}

/// What a parsed JSON object holds: each key, with its value seen as a [`JsonMember`].
pub uninterp spec fn object_members(m: serde_json::Map<String, serde_json::Value>) -> Map<
    Seq<char>,
    JsonMember,
>;

/// The members of the JSON object written in `text`, or `None` where `text` is not
/// the text of a JSON object.
pub uninterp spec fn json_object(text: Seq<char>) -> Option<Map<Seq<char>, JsonMember>>;

/// Relies on `serde_json::from_str` into a `serde_json::Map`: it succeeds exactly on
/// the text of a JSON object, and what it yields depends on the text alone.
#[verifier::external_body]
pub(crate) fn parse_object(text: &str) -> (r: Option<serde_json::Map<String, serde_json::Value>>)
    ensures
        r is None <==> json_object(text@) is None,
        r matches Some(m) ==> json_object(text@) == Some(object_members(m)),
{
    serde_json::from_str(text).ok()
}

/// Relies on `serde_json::Map::get` and `serde_json::Value::as_str`: the string
/// stored under `key`, if the member is there and is a string.
#[verifier::external_body]
pub(crate) fn text_member(m: &serde_json::Map<String, serde_json::Value>, key: &str) -> (r: Option<
    String,
>)
    ensures
        r is Some <==> (object_members(*m).contains_key(key@) && object_members(
            *m,
        )[key@] is Text),
        r matches Some(t) ==> object_members(*m)[key@] == JsonMember::Text(t@),
{
    match m.get(key) {
        Some(v) => match v.as_str() {
            Some(t) => Some(t.to_string()),
            None => None,
        },
        None => None,
    }
}

/// Relies on `serde_json::Map::get` and `serde_json::Value::as_i64`: the integer
/// stored under `key`, if the member is there and is an integer within `i64`.
#[verifier::external_body]
pub(crate) fn integer_member(m: &serde_json::Map<String, serde_json::Value>, key: &str) -> (r: Option<
    i64,
>)
    ensures
        r is Some <==> (object_members(*m).contains_key(key@) && object_members(
            *m,
        )[key@] is Integer),
        r matches Some(i) ==> object_members(*m)[key@] == JsonMember::Integer(i as int),
{
    match m.get(key) {
        Some(v) => v.as_i64(),
        None => None,
    }
}

} // verus!
