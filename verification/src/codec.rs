//! JSON text in and out, by way of `serde_json`.
//!
//! Nothing here is proved about the text format itself: the functions of this
//! module are the boundary to `serde_json`, and their contracts are taken on
//! trust. They claim one thing only, that each call is a function of its
//! argument, and give that function a name for the rest of the library to
//! speak of.

use vstd::prelude::*;
use crate::json::Json;

verus! {

/// `serde_json::Value`, the tree that the parser builds.
#[verifier::external_type_specification]
#[verifier::external_body]
pub struct ExValue(serde_json::Value);

/// `serde_json::Error`, the parser's reason for rejecting a text.
#[verifier::external_type_specification]
#[verifier::external_body]
pub struct ExError(serde_json::Error);

/// The value that `serde_json::from_slice` reads from `data`, or `None`
/// where it rejects `data`.
pub uninterp spec fn json_from_bytes(data: Seq<u8>) -> Option<Json>;

/// The value that `serde_json::from_str` reads from `text`, or `None` where
/// it rejects `text`.
pub uninterp spec fn json_from_text(text: Seq<char>) -> Option<Json>;

/// The compact text that `serde_json` prints for `value`.
pub uninterp spec fn json_text(value: Json) -> Seq<char>;

/// Rebuilds a `serde_json::Value` as a [`Json`], variant for variant.
/// An object's members come in the order in which `serde_json` walks them.
#[verifier::external_body]
fn from_value(value: serde_json::Value) -> Json {
    match value {
        serde_json::Value::Null => Json::Null,
        serde_json::Value::Bool(b) => Json::Bool(b),
        serde_json::Value::Number(n) => Json::Number(n),
        serde_json::Value::String(s) => Json::Text(s),
        serde_json::Value::Array(items) => Json::Array(items.into_iter().map(from_value).collect()),
        serde_json::Value::Object(map) => {
            Json::Object(map.into_iter().map(|(k, v)| (k, from_value(v))).collect())
        },
    }
}

/// Rebuilds a [`Json`] as a `serde_json::Value`, variant for variant. The
/// members of an object go into a `serde_json::Map` one by one, in order,
/// through `Map::insert`, so a later member replaces an earlier one with the
/// same key.
#[verifier::external_body]
fn to_value(value: &Json) -> serde_json::Value {
    match value {
        Json::Null => serde_json::Value::Null,
        Json::Bool(b) => serde_json::Value::Bool(*b),
        Json::Number(n) => serde_json::Value::Number(n.clone()),
        Json::Text(s) => serde_json::Value::String(s.clone()),
        Json::Array(items) => serde_json::Value::Array(items.iter().map(to_value).collect()),
        Json::Object(members) => {
            let mut map = serde_json::Map::new();
            for (key, member) in members {
                map.insert(key.clone(), to_value(member));
            }
            serde_json::Value::Object(map)
        },
    }
}

/// Calls `serde_json::from_slice` for a `Value`. The call succeeds or fails
/// by the bytes alone, and what it reads depends on them alone.
#[verifier::external_body]
pub(crate) fn read_bytes(data: &[u8]) -> (read: Result<Json, serde_json::Error>)
    ensures
        match read {
            Ok(value) => json_from_bytes(data@) == Some(value),
            Err(_) => json_from_bytes(data@) is None,
        },
{
    serde_json::from_slice::<serde_json::Value>(data).map(from_value)
}

/// Calls `serde_json::from_str` for a `Value`. The call succeeds or fails by
/// the text alone, and what it reads depends on the text alone.
#[verifier::external_body]
pub(crate) fn read_text(text: &str) -> (read: Result<Json, serde_json::Error>)
    ensures
        match read {
            Ok(value) => json_from_text(text@) == Some(value),
            Err(_) => json_from_text(text@) is None,
        },
{
    serde_json::from_str::<serde_json::Value>(text).map(from_value)
}

/// Prints `value` through the `Display` of `serde_json::Value`, which writes
/// compact JSON. The text depends on the value alone.
#[verifier::external_body]
pub(crate) fn write_text(value: &Json) -> (text: String)
    ensures
        text@ == json_text(*value),
{
    to_value(value).to_string()
}

/// Writes out what `error` says, through its `Display`. Nothing is claimed
/// of the wording.
#[verifier::external_body]
pub(crate) fn complaint(error: &serde_json::Error) -> String {
    error.to_string()
}

} // verus!
