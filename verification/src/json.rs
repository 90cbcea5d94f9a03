//! JSON values as the crate sees them.
//!
//! Values are `serde_json::Value`s. The verifier cannot look into one, so this
//! module describes what a value holds by [`json_shape`] and gives every
//! `serde_json` operation that the crate uses a contract over that
//! description. Those contracts are taken on trust from `serde_json`; nothing
//! else in the crate is.

use serde_json::Value;
use vstd::prelude::*;

verus! {

/// `serde_json::Value`, a JSON value. The verifier carries it around without
/// looking into it.
#[verifier::external_type_specification]
#[verifier::external_body]
pub struct ExValue(serde_json::Value);

/// `serde_json::Error`, what `serde_json` reports when it cannot read or
/// write. The crate only tells it from success.
#[verifier::external_type_specification]
#[verifier::external_body]
pub struct ExJsonError(serde_json::Error);

/// What a JSON value holds, one level deep: the members of an object and the
/// items of a list are values themselves. The variants are those of
/// `serde_json::Value`.
pub enum JsonShape {
    /// `Value::Null`.
    Null,
    /// `Value::Bool`.
    Bool(bool),
    /// `Value::Number` with a number that is held as an integer.
    Integer(int),
    /// `Value::Number` with a number that is held as a float; which one is
    /// not modelled.
    Real,
    /// `Value::String`.
    Text(Seq<char>),
    /// `Value::Array`, with the items in their order.
    List(Seq<Value>),
    /// `Value::Object`, with the members by their keys. The order of the
    /// members is not modelled: `serde_json` keeps them sorted by key.
    Object(Map<Seq<char>, Value>),
}

/// What `value` holds. Every contract on a `serde_json` operation below is
/// stated over this description.
pub uninterp spec fn json_shape(value: Value) -> JsonShape;

/// The value that `serde_json::from_slice` reads from `bytes`, `None` where it
/// reports an error.
pub uninterp spec fn json_parsed(bytes: Seq<u8>) -> Option<Value>;

/// The text that `serde_json::to_string` writes for `value`, `None` where it
/// reports an error.
pub uninterp spec fn json_written(value: Value) -> Option<Seq<char>>;

/// The member of an object under `key`; `None` for a missing member and for
/// anything that is not an object.
pub open spec fn json_field(shape: JsonShape, key: Seq<char>) -> Option<Value> {
    match shape {
        JsonShape::Object(members) => if members.contains_key(key) {
            Some(members[key])
        } else {
            None
        },
        _ => None,
    }
}

/// `Value::Null`.
#[verifier::external_body]
pub(crate) fn json_null() -> (value: Value)
    ensures
        json_shape(value) == JsonShape::Null,
{
    Value::Null
}

/// `Value::Bool`: the value holds the flag.
#[verifier::external_body]
pub(crate) fn json_bool(flag: bool) -> (value: Value)
    ensures
        json_shape(value) == JsonShape::Bool(flag),
{
    Value::Bool(flag)
}

/// `Value::from` on an `i64`: a number that holds the integer.
#[verifier::external_body]
pub(crate) fn json_integer(number: i64) -> (value: Value)
    ensures
        json_shape(value) == JsonShape::Integer(number as int),
{
    Value::from(number)
}

/// `Value::String`: the value holds the text.
#[verifier::external_body]
pub(crate) fn json_string(text: String) -> (value: Value)
    ensures
        json_shape(value) == JsonShape::Text(text@),
{
    Value::String(text)
}

/// `Value::Array`: the value holds the items in their order.
#[verifier::external_body]
pub(crate) fn json_list(items: Vec<Value>) -> (value: Value)
    ensures
        json_shape(value) == JsonShape::List(items@),
{
    Value::Array(items)
}

/// `Value::Object` on `Map::new`: an object without members.
#[verifier::external_body]
pub(crate) fn json_object() -> (value: Value)
    ensures
        json_shape(value) == JsonShape::Object(Map::empty()),
{
    Value::Object(serde_json::Map::new())
}

/// `Map::insert` on the members of an object: the member under `key` is
/// `member` afterwards, whether or not the key was there, and the other
/// members stay.
#[verifier::external_body]
pub(crate) fn json_insert(object: &mut Value, key: String, member: Value)
    requires
        json_shape(*old(object)) is Object,
    ensures
        json_shape(*final(object)) == JsonShape::Object(
            json_shape(*old(object))->Object_0.insert(key@, member),
        ),
{
    if let Value::Object(members) = object {
        members.insert(key, member);
    }
}

/// `Value::get` with a text key: the member of an object under the key.
#[verifier::external_body]
pub(crate) fn json_member<'a>(value: &'a Value, key: &str) -> (member: Option<&'a Value>)
    ensures
        match member {
            Some(found) => json_field(json_shape(*value), key@) == Some(*found),
            None => json_field(json_shape(*value), key@) is None,
        },
{
    value.get(key)
}

/// `Value::as_str`: the text of a value that holds text, `None` for any other.
#[verifier::external_body]
pub(crate) fn json_as_text<'a>(value: &'a Value) -> (text: Option<&'a str>)
    ensures
        match text {
            Some(found) => json_shape(*value) == JsonShape::Text(found@),
            None => !(json_shape(*value) is Text),
        },
{
    value.as_str()
}

/// `Value::is_null`.
#[verifier::external_body]
pub(crate) fn json_is_null(value: &Value) -> (null: bool)
    ensures
        null == (json_shape(*value) is Null),
{
    value.is_null()
}

/// `Value::clone`: the copy is the same value.
#[verifier::external_body]
pub(crate) fn json_clone(value: &Value) -> (copy: Value)
    ensures
        copy == *value,
{
    value.clone()
}

/// `serde_json::from_slice` for a `Value`. What it reads depends on the bytes
/// alone; the contract names it and says nothing more about it.
#[verifier::external_body]
pub(crate) fn json_parse(bytes: &[u8]) -> (parsed: Result<Value, serde_json::Error>)
    ensures
        match parsed {
            Ok(value) => json_parsed(bytes@) == Some(value),
            Err(_) => json_parsed(bytes@) is None,
        },
{
    serde_json::from_slice::<Value>(bytes)
}

/// `serde_json::to_string` on a `Value`. What it writes depends on the value
/// alone; the contract names it. The compact form that it writes has no
/// white space between tokens and escapes every control character inside a
/// string, so the text holds no line feed.
#[verifier::external_body]
pub(crate) fn json_write(value: &Value) -> (written: Result<String, serde_json::Error>)
    ensures
        match written {
            Ok(text) => json_written(*value) == Some(text@) && !text@.contains('\n'),
            Err(_) => json_written(*value) is None,
        },
{
    serde_json::to_string(value)
}

} // verus!
