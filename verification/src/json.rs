//! JSON documents as `serde_json` holds them, and what this library takes
//! from that crate without proof.
//!
//! A value of `serde_json` is opaque to the verifier. Its contents are named
//! by `json_tree` and `json_members`, as a tree of mathematical values, and
//! each function below says over those names what the crate's function does.

use vstd::prelude::*;

verus! {

/// `serde_json::Value`, of which the verifier sees nothing.
#[verifier::external_type_specification]
#[verifier::external_body]
pub struct ExJsonValue(serde_json::Value);

/// `serde_json::Map`, of which the verifier sees nothing.
#[verifier::external_type_specification]
#[verifier::external_body]
#[verifier::reject_recursive_types(K)]
#[verifier::reject_recursive_types(V)]
pub struct ExJsonMap<K, V>(serde_json::Map<K, V>);

/// The members of a JSON object, as `serde_json` holds them.
pub type JsonMap = serde_json::Map<String, serde_json::Value>;

/// A JSON value, as far as this library reads and writes one.
pub enum Json {
    /// A string.
    Text(Seq<char>),
    /// An array: its elements in order.
    List(Seq<Json>),
    /// An object: its members by key.
    Table(Map<Seq<char>, Json>),
    /// Null, a boolean or a number.
    Other,
}

/// The member of an object under `key`.
pub open spec fn member(t: Json, key: Seq<char>) -> Option<Json> {
    match t {
        Json::Table(members) => if members.dom().contains(key) {
            Some(members[key])
        } else {
            None
        },
        _ => None,
    }
}

/// An object without members.
pub open spec fn no_members() -> Map<Seq<char>, Json> {
    Map::empty()
}

/// A tree of strings, arrays and objects only.
pub open spec fn is_plain(t: Json) -> bool
    decreases t,
{
    match t {
        Json::Text(_) => true,
        Json::List(items) => forall|i: int| 0 <= i < items.len() ==> is_plain(#[trigger] items[i]),
        Json::Table(members) => forall|k: Seq<char>|
            members.dom().contains(k) ==> is_plain(#[trigger] members[k]),
        Json::Other => false,
    }
}

/// The trees that the values of a list hold, in order.
pub open spec fn json_trees(items: Seq<serde_json::Value>) -> Seq<Json> {
    items.map_values(|v: serde_json::Value| json_tree(v))
}

/// What a `serde_json::Value` holds.
pub uninterp spec fn json_tree(v: serde_json::Value) -> Json;

/// The members that a `serde_json::Map` holds, by key.
pub uninterp spec fn json_members(m: JsonMap) -> Map<
    Seq<char>,
    Json,
>;

/// The value that `serde_json::from_str` reads from a text; nothing where
/// it reports an error.
pub uninterp spec fn json_read(text: Seq<char>) -> Option<Json>;

/// The text that `serde_json::to_string_pretty` writes for a value of
/// strings, arrays and objects only.
pub uninterp spec fn json_pretty(t: Json) -> Seq<char>;

/// `serde_json::from_str`, reading a `Value`. The result depends on the
/// text alone.
#[verifier::external_body]
pub(crate) fn json_from_str(text: &str) -> (r: Option<serde_json::Value>)
    ensures
        match r {
            Some(v) => json_read(text@) == Some(json_tree(v)),
            None => json_read(text@) is None,
        },
{
    serde_json::from_str::<serde_json::Value>(text).ok()
}

/// `Value::get` with a string: the member under that key, where the value
/// is an object that has one.
#[verifier::external_body]
pub(crate) fn json_get<'a>(v: &'a serde_json::Value, key: &str) -> (r: Option<
    &'a serde_json::Value,
>)
    ensures
        match r {
            Some(found) => member(json_tree(*v), key@) == Some(json_tree(*found)),
            None => member(json_tree(*v), key@) is None,
        },
{
    v.get(key)
}

/// `Value::as_array`: the elements, where the value is an array.
#[verifier::external_body]
pub(crate) fn json_as_array(v: &serde_json::Value) -> (r: Option<&Vec<serde_json::Value>>)
    ensures
        match r {
            Some(items) => json_tree(*v) == Json::List(json_trees(items@)),
            None => !(json_tree(*v) is List),
        },
{
    v.as_array()
}

/// `Value::as_str`: the string, where the value is one.
#[verifier::external_body]
pub(crate) fn json_as_str(v: &serde_json::Value) -> (r: Option<&str>)
    ensures
        match r {
            Some(s) => json_tree(*v) == Json::Text(s@),
            None => !(json_tree(*v) is Text),
        },
{
    v.as_str()
}

/// The variant `Value::String`.
#[verifier::external_body]
pub(crate) fn json_string(s: String) -> (v: serde_json::Value)
    ensures
        json_tree(v) == Json::Text(s@),
{
    serde_json::Value::String(s)
}

/// The variant `Value::Array`.
#[verifier::external_body]
pub(crate) fn json_array(items: Vec<serde_json::Value>) -> (v: serde_json::Value)
    ensures
        json_tree(v) == Json::List(json_trees(items@)),
{
    serde_json::Value::Array(items)
}

/// The variant `Value::Object`.
#[verifier::external_body]
pub(crate) fn json_object(m: JsonMap) -> (v: serde_json::Value)
    ensures
        json_tree(v) == Json::Table(json_members(m)),
{
    serde_json::Value::Object(m)
}

/// `Map::new`: a map without members.
#[verifier::external_body]
pub(crate) fn json_map_new() -> (m: JsonMap)
    ensures
        json_members(m) == no_members(),
{
    serde_json::Map::new()
}

/// `Map::insert`: the value stands under the key afterwards, in the place
/// of what stood there.
#[verifier::external_body]
pub(crate) fn json_insert(m: &mut JsonMap, k: String, v: serde_json::Value)
    ensures
        json_members(*final(m)) == json_members(*old(m)).insert(k@, json_tree(v)),
{
    m.insert(k, v);
}

/// `serde_json::to_string_pretty` on a value. For one of strings, arrays
/// and objects only the crate's serialiser reports no error, and the text
/// depends on what the value holds alone: members are written in the order
/// of their keys.
#[verifier::external_body]
pub(crate) fn json_to_string_pretty(v: &serde_json::Value) -> (r: String)
    requires
        is_plain(json_tree(*v)),
    ensures
        r@ == json_pretty(json_tree(*v)),
{
    serde_json::to_string_pretty(v).unwrap_or_default()
}

} // verus!
