//! JSON documents, read and patched through `serde_json`.
//!
//! A document is an opaque `serde_json::Value`. What the rest of the crate
//! reads from one is named here by uninterpreted functions, and each call into
//! `serde_json` is a small wrapper whose contract is stated over those names.
//! None of these contracts is proved: they describe `serde_json`.

use vstd::prelude::*;

verus! {

#[verifier::external_type_specification]
#[verifier::external_body]
pub struct ExJsonValue(serde_json::Value);

/// The document that `serde_json::from_str` reads from `text`; `None` where
/// it reports an error.
pub uninterp spec fn json_document(text: Seq<char>) -> Option<serde_json::Value>;

/// Whether `doc` is a JSON object.
pub uninterp spec fn json_is_object(doc: serde_json::Value) -> bool;

/// The member names of a JSON object; empty for any other value.
pub uninterp spec fn json_keys(doc: serde_json::Value) -> Set<Seq<char>>;

/// The members of a JSON object whose value is a string, by name.
pub uninterp spec fn json_strings(doc: serde_json::Value) -> Map<Seq<char>, Seq<char>>;

/// The members of a JSON object whose value is an integer in the range of `i64`.
pub uninterp spec fn json_integers(doc: serde_json::Value) -> Map<Seq<char>, int>;

/// The members of a JSON object whose value is `true` or `false`.
pub uninterp spec fn json_bools(doc: serde_json::Value) -> Map<Seq<char>, bool>;

/// Whether `doc` is an object whose member `key` is an array.
pub uninterp spec fn json_member_is_array(doc: serde_json::Value, key: Seq<char>) -> bool;

/// The first element of a JSON array; `None` for an empty array and for any
/// other value.
pub uninterp spec fn json_first_element(doc: serde_json::Value) -> Option<serde_json::Value>;

/// `doc` after `Map::insert` of the integer `n` under `key`; `doc` itself
/// where it is no object.
pub uninterp spec fn json_with_integer(doc: serde_json::Value, key: Seq<char>, n: int)
    -> serde_json::Value;

/// `doc` after `Map::insert` of the string `s` under `key`; `doc` itself
/// where it is no object.
pub uninterp spec fn json_with_string(doc: serde_json::Value, key: Seq<char>, s: Seq<char>)
    -> serde_json::Value;

/// `doc` after `Map::insert` of the boolean `b` under `key`; `doc` itself
/// where it is no object.
pub uninterp spec fn json_with_bool(doc: serde_json::Value, key: Seq<char>, b: bool)
    -> serde_json::Value;

/// The text that `serde_json::to_string` writes for `doc`; `None` where it
/// reports an error.
pub uninterp spec fn json_text(doc: serde_json::Value) -> Option<Seq<char>>;

/// `Value::clone`, which `serde_json` derives: the copy is the same document.
pub assume_specification[ <serde_json::Value as Clone>::clone ](doc: &serde_json::Value) -> (r:
    serde_json::Value)
    ensures
        r == *doc,
;

/// `serde_json::from_str` into a `Value`. The error's detail is dropped.
#[verifier::external_body]
pub(crate) fn parse_document(text: &str) -> (r: Option<serde_json::Value>)
    ensures
        r == json_document(text@),
{
    serde_json::from_str::<serde_json::Value>(text).ok()
}

/// `Value::is_object`.
#[verifier::external_body]
pub(crate) fn is_object(doc: &serde_json::Value) -> (r: bool)
    ensures
        r == json_is_object(*doc),
{
    doc.is_object()
}

/// `Value::get` with a string key: whether the object has that member.
#[verifier::external_body]
pub(crate) fn has_member(doc: &serde_json::Value, key: &str) -> (r: bool)
    ensures
        r == json_keys(*doc).contains(key@),
{
    doc.get(key).is_some()
}

/// Indexing by `key`, then `Value::as_str`: the string member under `key`.
#[verifier::external_body]
pub(crate) fn get_string(doc: &serde_json::Value, key: &str) -> (r: Option<String>)
    ensures
        r is Some == json_strings(*doc).contains_key(key@),
        r is Some ==> r.unwrap()@ == json_strings(*doc)[key@],
{
    doc[key].as_str().map(|s| s.to_string())
}

/// Indexing by `key`, then `Value::as_i64`: the integer member under `key`.
#[verifier::external_body]
pub(crate) fn get_integer(doc: &serde_json::Value, key: &str) -> (r: Option<i64>)
    ensures
        r is Some == json_integers(*doc).contains_key(key@),
        r is Some ==> r.unwrap() == json_integers(*doc)[key@],
{
    doc[key].as_i64()
}

/// Indexing by `key`, then `Value::as_bool`: the boolean member under `key`.
#[verifier::external_body]
pub(crate) fn get_bool(doc: &serde_json::Value, key: &str) -> (r: Option<bool>)
    ensures
        r is Some == json_bools(*doc).contains_key(key@),
        r is Some ==> r.unwrap() == json_bools(*doc)[key@],
{
    doc[key].as_bool()
}

/// Indexing by `key`, then `Value::is_array`.
#[verifier::external_body]
pub(crate) fn member_is_array(doc: &serde_json::Value, key: &str) -> (r: bool)
    ensures
        r == json_member_is_array(*doc, key@),
{
    doc[key].is_array()
}

/// `Value::as_array`, then the first element of the vector, cloned.
#[verifier::external_body]
pub(crate) fn first_element(doc: &serde_json::Value) -> (r: Option<serde_json::Value>)
    ensures
        r == json_first_element(*doc),
{
    doc.as_array().and_then(|items| items.first()).cloned()
}

/// `Map::insert` of an integer under `key`, where `doc` is an object.
#[verifier::external_body]
pub(crate) fn insert_integer(doc: &mut serde_json::Value, key: &str, n: i64)
    ensures
        *final(doc) == json_with_integer(*old(doc), key@, n as int),
{
    if let Some(members) = doc.as_object_mut() {
        members.insert(key.to_string(), serde_json::Value::from(n));
    }
}

/// `Map::insert` of a string under `key`, where `doc` is an object.
#[verifier::external_body]
pub(crate) fn insert_string(doc: &mut serde_json::Value, key: &str, s: &str)
    ensures
        *final(doc) == json_with_string(*old(doc), key@, s@),
{
    if let Some(members) = doc.as_object_mut() {
        members.insert(key.to_string(), serde_json::Value::from(s));
    }
}

/// `Map::insert` of a boolean under `key`, where `doc` is an object.
#[verifier::external_body]
pub(crate) fn insert_bool(doc: &mut serde_json::Value, key: &str, b: bool)
    ensures
        *final(doc) == json_with_bool(*old(doc), key@, b),
{
    if let Some(members) = doc.as_object_mut() {
        members.insert(key.to_string(), serde_json::Value::from(b));
    }
}

/// `serde_json::to_string`. The error's detail is dropped.
#[verifier::external_body]
pub(crate) fn to_text(doc: &serde_json::Value) -> (r: Option<String>)
    ensures
        r is Some == json_text(*doc) is Some,
        r is Some ==> r.unwrap()@ == json_text(*doc).unwrap(),
{
    serde_json::to_string(doc).ok()
}

} // verus!
