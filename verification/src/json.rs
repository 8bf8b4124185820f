//! JSON values, as `serde_json` reads, holds and writes them.
//!
//! A value of `serde_json` is opaque here. What it holds has a mathematical
//! name, [`json_model`], and each function below says over that name what
//! the function of `serde_json` it calls is documented to do.
use serde_json::Value;
use vstd::prelude::*;

verus! {

#[verifier::external_type_specification]
#[verifier::external_body]
pub struct ExValue(serde_json::Value);

/// What a JSON value holds.
pub enum JsonModel {
    Null,
    Bool(bool),
    /// A number held as a 64-bit integer, with or without sign.
    Integer(int),
    /// A number held as a 64-bit float, told apart by the bits of the float.
    Fraction { bits: u64 },
    Text(Seq<char>),
    Array(Seq<JsonModel>),
    /// The members of an object by key; a key occurs once.
    Object(Map<Seq<char>, JsonModel>),
}

/// What `value` holds.
pub uninterp spec fn json_model(value: serde_json::Value) -> JsonModel;

/// The value that `serde_json::from_str` reads from `text`; `None` where it
/// reports an error.
pub uninterp spec fn parsed_json(text: Seq<char>) -> Option<JsonModel>;

/// The text that `Display` writes for a value that holds `model`.
pub uninterp spec fn displayed_json(model: JsonModel) -> Seq<char>;

/// The text that `serde_json::to_string` writes for a value that holds
/// `model`.
pub uninterp spec fn serialized_json(model: JsonModel) -> Seq<char>;

/// The object whose members are `entries`; of two entries with one key the
/// later one stays.
pub open spec fn object_of(entries: Seq<(Seq<char>, JsonModel)>) -> Map<Seq<char>, JsonModel>
    decreases entries.len(),
{
    if entries.len() == 0 {
        Map::empty()
    } else {
        object_of(entries.drop_last()).insert(entries.last().0, entries.last().1)
    }
}

/// `serde_json::from_str` for a `Value`: the value read from `text`, or the
/// words of the error that `serde_json` reports. Whether and what is read
/// depends on the text alone.
#[verifier::external_body]
pub(crate) fn parse(text: &str) -> (r: Result<Value, String>)
    ensures
        match r {
            Ok(value) => parsed_json(text@) == Some(json_model(value)),
            Err(_) => parsed_json(text@) is None,
        },
{
    serde_json::from_str::<Value>(text).map_err(|error| error.to_string())
}

/// `Value::get` with a string index: the member of an object under `key`;
/// `None` where `value` is no object or has no such member.
#[verifier::external_body]
pub(crate) fn member<'a>(value: &'a Value, key: &str) -> (r: Option<&'a Value>)
    ensures
        match json_model(*value) {
            JsonModel::Object(members) if members.contains_key(key@) => r is Some && json_model(
                *r->0,
            ) == members[key@],
            _ => r is None,
        },
{
    value.get(key)
}

/// `Value::as_str`: the text of a JSON string; `None` for any other value.
#[verifier::external_body]
pub(crate) fn as_text<'a>(value: &'a Value) -> (r: Option<&'a str>)
    ensures
        match json_model(*value) {
            JsonModel::Text(text) => r is Some && r->0@ == text,
            _ => r is None,
        },
{
    value.as_str()
}

/// `Value::as_array`: the elements of a JSON array, in order; `None` for any
/// other value.
#[verifier::external_body]
pub(crate) fn as_items<'a>(value: &'a Value) -> (r: Option<&'a Vec<Value>>)
    ensures
        match json_model(*value) {
            JsonModel::Array(items) => r is Some && r->0@.len() == items.len() && forall|i: int|
                0 <= i < items.len() ==> json_model(#[trigger] r->0@[i]) == items[i],
            _ => r is None,
        },
{
    value.as_array()
}

/// `Value::as_i64`: an integer that fits 64 bits with sign; `None` for any
/// other value.
#[verifier::external_body]
pub(crate) fn as_integer(value: &Value) -> (r: Option<i64>)
    ensures
        match json_model(*value) {
            JsonModel::Integer(n) if i64::MIN <= n <= i64::MAX => r == Some(n as i64),
            _ => r is None,
        },
{
    value.as_i64()
}

/// `Value::Null`.
#[verifier::external_body]
pub(crate) fn null() -> (value: Value)
    ensures
        json_model(value) == JsonModel::Null,
{
    Value::Null
}

/// `Value::String` of a copy of `text`.
#[verifier::external_body]
pub(crate) fn string(text: &str) -> (value: Value)
    ensures
        json_model(value) == JsonModel::Text(text@),
{
    Value::String(text.to_owned())
}

/// `Value::Object` of `serde_json::Map::new()`: an object without members.
#[verifier::external_body]
pub(crate) fn empty_object() -> (value: Value)
    ensures
        json_model(value) == JsonModel::Object(Map::empty()),
{
    Value::Object(serde_json::Map::new())
}

/// `Value::as_object_mut`, and `serde_json::Map::insert` on the map that it
/// gives for an object: the object holds `value` under `key`, in place of
/// what it held there before, and its other members as before. A value that
/// is no object stays as it is.
#[verifier::external_body]
pub(crate) fn insert_member(object: &mut Value, key: String, value: Value)
    ensures
        json_model(*final(object)) == match json_model(*old(object)) {
            JsonModel::Object(members) => JsonModel::Object(
                members.insert(key@, json_model(value)),
            ),
            other => other,
        },
{
    if let Some(members) = object.as_object_mut() {
        members.insert(key, value);
    }
}

/// `Display` of a `Value`: its compact JSON text, which depends on what the
/// value holds alone.
#[verifier::external_body]
pub(crate) fn display(value: &Value) -> (text: String)
    ensures
        text@ == displayed_json(json_model(*value)),
{
    value.to_string()
}

/// `serde_json::to_string` of a `Value`: its JSON text, which depends on
/// what the value holds alone. The function reports an error where a key of
/// a map is no string or the writer fails; the keys of a `Value` are strings
/// and the text is written to memory, so it succeeds.
#[verifier::external_body]
pub(crate) fn serialize(value: &Value) -> (r: Result<String, String>)
    ensures
        match r {
            Ok(text) => text@ == serialized_json(json_model(*value)),
            Err(_) => false,
        },
{
    serde_json::to_string(value).map_err(|error| error.to_string())
}

} // verus!
