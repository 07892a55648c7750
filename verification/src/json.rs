//! JSON documents, as `serde_json` holds them, and their mathematical model.
//!
//! The documents themselves stay values of `serde_json`. Contracts speak of
//! them through [`Json`], and the functions of `serde_json` that the crate
//! calls are given contracts over that model here. None of these contracts is
//! proved: each states what the documentation of `serde_json` says of the
//! function it stands for.

use vstd::prelude::*;

verus! {

/// The model of a JSON document.
pub enum Json {
    Null,
    Bool(bool),
    /// A number, held as the text that `serde_json` writes for it.
    Number(Seq<char>),
    String(Seq<char>),
    Array(Seq<Json>),
    /// An object: its members by key. A key occurs once.
    Object(Map<Seq<char>, Json>),
}

/// `serde_json::Value`, a JSON document in memory.
#[verifier::external_type_specification]
#[verifier::external_body]
pub struct ExValue(serde_json::Value);

/// `serde_json::Error`, the fault that encoding or decoding reports.
#[verifier::external_type_specification]
#[verifier::external_body]
pub struct ExError(serde_json::Error);

/// `serde_json::Map`, the members of a JSON object.
#[verifier::external_type_specification]
#[verifier::external_body]
#[verifier::reject_recursive_types(K)]
#[verifier::reject_recursive_types(V)]
pub struct ExMap<K, V>(serde_json::Map<K, V>);

/// The document that a `serde_json::Value` holds.
pub uninterp spec fn json_of(value: serde_json::Value) -> Json;

/// The members that a `serde_json::Map` holds, by key.
pub uninterp spec fn members_of(map: serde_json::Map<String, serde_json::Value>) -> Map<Seq<char>, Json>;

/// The document that `serde_json::from_str` reads from a text, `None` where
/// it reports a fault.
pub uninterp spec fn json_decoding(text: Seq<char>) -> Option<Json>;

/// `serde_json::from_str` at `serde_json::Value`: reads a text as one JSON
/// document. Whether it succeeds, and the document that it reads, depend on
/// the text alone: they are given by [`json_decoding`].
#[verifier::external_body]
pub(crate) fn decode(text: &str) -> (decoded: Result<serde_json::Value, serde_json::Error>)
    ensures
        decoded is Ok <==> json_decoding(text@) is Some,
        decoded matches Ok(value) ==> json_decoding(text@) == Some(json_of(value)),
{
    serde_json::from_str::<serde_json::Value>(text)
}

/// The text that `serde_json::to_string` writes for a document, `None` where
/// it reports a fault.
pub uninterp spec fn json_encoding(json: Json) -> Option<Seq<char>>;

/// `serde_json::to_string` at `serde_json::Value`: writes a document as
/// text. Whether it succeeds, and the text that it writes, depend on the
/// document alone: they are given by [`json_encoding`]. (This crate builds
/// `serde_json` without its feature `preserve_order`: an object keeps its
/// members in the order of their keys, and the order in which they were put
/// plays no part.)
#[verifier::external_body]
pub(crate) fn encode(value: &serde_json::Value) -> (encoded: Result<String, serde_json::Error>)
    ensures
        encoded is Ok <==> json_encoding(json_of(*value)) is Some,
        encoded matches Ok(text) ==> json_encoding(json_of(*value)) == Some(text@),
{
    serde_json::to_string(value)
}

/// `serde_json::Value::as_object`: the members of an object, `None` for any
/// other document.
pub assume_specification[ serde_json::Value::as_object ](value: &serde_json::Value) -> (object: Option<&serde_json::Map<String, serde_json::Value>>)
    ensures
        object is Some <==> json_of(*value) is Object,
        object matches Some(map) ==> json_of(*value) == Json::Object(members_of(*map)),
;

/// `serde_json::Value::as_str`: the text of a string, `None` for any other
/// document.
pub assume_specification[ serde_json::Value::as_str ](value: &serde_json::Value) -> (string: Option<&str>)
    ensures
        string is Some <==> json_of(*value) is String,
        string matches Some(text) ==> json_of(*value) == Json::String(text@),
;

/// `serde_json::Map::get` with a `str` key: the member under the key, `None`
/// where the object has no such member.
#[verifier::external_body]
pub(crate) fn member<'a>(map: &'a serde_json::Map<String, serde_json::Value>, key: &str) -> (found: Option<&'a serde_json::Value>)
    ensures
        found is Some <==> members_of(*map).contains_key(key@),
        found matches Some(value) ==> json_of(*value) == members_of(*map)[key@],
{
    map.get(key)
}

/// `serde_json::Map::new`: an object without members.
pub assume_specification[ serde_json::Map::new ]() -> (object: serde_json::Map<String, serde_json::Value>)
    ensures
        members_of(object) == (Map::<Seq<char>, Json>::empty()),
;

/// `serde_json::Map::insert`: puts a member under a key, in place of the
/// member that the key had, and hands that earlier member back.
pub assume_specification[ serde_json::Map::insert ](
    map: &mut serde_json::Map<String, serde_json::Value>,
    k: String,
    v: serde_json::Value,
) -> (earlier: Option<serde_json::Value>)
    ensures
        members_of(*final(map)) == members_of(*old(map)).insert(k@, json_of(v)),
        earlier is Some <==> members_of(*old(map)).contains_key(k@),
        earlier matches Some(value) ==> json_of(value) == members_of(*old(map))[k@],
;

/// The variant `serde_json::Value::String`: the document that is one string.
#[verifier::external_body]
pub(crate) fn string_value(text: String) -> (value: serde_json::Value)
    ensures
        json_of(value) == Json::String(text@),
{
    serde_json::Value::String(text)
}

/// The variant `serde_json::Value::Object`: the document that is one object.
#[verifier::external_body]
pub(crate) fn object_value(map: serde_json::Map<String, serde_json::Value>) -> (value: serde_json::Value)
    ensures
        json_of(value) == Json::Object(members_of(map)),
{
    serde_json::Value::Object(map)
}

} // verus!
