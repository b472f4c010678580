//! JSON documents: their mathematical model, and the calls into `serde_json` that read and
//! change them.

use serde_json::Value;
use vstd::prelude::*;

verus! {

/// A JSON document as a mathematical value. Numbers are kept as their JSON text, and an object
/// is the map from its member names to its members: the order of members carries no meaning.
pub enum Json {
    Null,
    Bool(bool),
    Number(Seq<char>),
    Text(Seq<char>),
    Array(Seq<Json>),
    Object(Map<Seq<char>, Json>),
}

impl Json {
    /// The members of an object; every other document has none.
    pub open spec fn members(self) -> Map<Seq<char>, Json> {
        match self {
            Json::Object(m) => m,
            _ => Map::empty(),
        }
    }
}

#[verifier::external_type_specification]
#[verifier::external_body]
pub struct ExValue(Value);

#[verifier::external_type_specification]
#[verifier::external_body]
#[verifier::reject_recursive_types(K)]
#[verifier::reject_recursive_types(V)]
pub struct ExJsonMap<K, V>(serde_json::Map<K, V>);

#[verifier::external_type_specification]
#[verifier::external_body]
pub struct ExJsonError(serde_json::Error);

/// The document that a `serde_json::Value` holds.
pub uninterp spec fn json(value: Value) -> Json;

/// The members that a `serde_json::Map` holds.
pub uninterp spec fn json_members(map: serde_json::Map<String, Value>) -> Map<Seq<char>, Json>;

/// `Value::get` with a string: the member of that name, if the document is an object that has it.
#[verifier::external_body]
pub(crate) fn member<'a>(value: &'a Value, name: &str) -> (found: Option<&'a Value>)
    ensures
        match found {
            Some(m) => json(*value).members().contains_key(name@) && json(*m) == json(
                *value,
            ).members()[name@],
            None => !json(*value).members().contains_key(name@),
        },
{
    value.get(name)
}

/// `Value::get_mut` with a string: a borrow of the member of that name.
#[verifier::external_body]
pub(crate) fn member_mut<'a>(value: &'a mut Value, name: &str) -> (found: Option<&'a mut Value>)
    ensures
        match found {
            Some(m) => {
                &&& json(*old(value)) is Object
                &&& json(*old(value)).members().contains_key(name@)
                &&& json(*m) == json(*old(value)).members()[name@]
                &&& json(*final(value)) == Json::Object(
                    json(*old(value)).members().insert(name@, json(*final(m))),
                )
            },
            None => !json(*old(value)).members().contains_key(name@) && *final(value) == *old(
                value,
            ),
        },
{
    value.get_mut(name)
}

/// `Value::as_object_mut`: a borrow of the members, if the document is an object.
#[verifier::external_body]
pub(crate) fn members_mut(value: &mut Value) -> (found: Option<
    &mut serde_json::Map<String, Value>,
>)
    ensures
        match found {
            Some(m) => {
                &&& json(*old(value)) == Json::Object(json_members(*m))
                &&& json(*final(value)) == Json::Object(json_members(*final(m)))
            },
            None => !(json(*old(value)) is Object) && *final(value) == *old(value),
        },
{
    value.as_object_mut()
}

/// `Map::insert`: the member of that name becomes `member`, whatever it was before.
#[verifier::external_body]
pub(crate) fn insert_member(map: &mut serde_json::Map<String, Value>, name: String, member: Value)
    ensures
        json_members(*final(map)) == json_members(*old(map)).insert(name@, json(member)),
{
    map.insert(name, member);
}

/// `Map::remove`: the member of that name goes, if there is one.
#[verifier::external_body]
pub(crate) fn remove_member(map: &mut serde_json::Map<String, Value>, name: &str)
    ensures
        json_members(*final(map)) == json_members(*old(map)).remove(name@),
{
    map.remove(name);
}

/// `Map::new`: no members.
#[verifier::external_body]
pub(crate) fn no_members() -> (map: serde_json::Map<String, Value>)
    ensures
        json_members(map).is_empty(),
{
    serde_json::Map::new()
}

/// `Map::clone`: the same members.
#[verifier::external_body]
pub(crate) fn clone_members(map: &serde_json::Map<String, Value>) -> (copy: serde_json::Map<
    String,
    Value,
>)
    ensures
        json_members(copy) == json_members(*map),
{
    map.clone()
}

/// `Value::as_object`: the members, if the document is an object.
#[verifier::external_body]
pub(crate) fn members_of(value: &Value) -> (found: Option<&serde_json::Map<String, Value>>)
    ensures
        match found {
            Some(map) => json(*value) == Json::Object(json_members(*map)),
            None => !(json(*value) is Object),
        },
{
    value.as_object()
}

/// `Value::is_null`: the document is null.
#[verifier::external_body]
pub(crate) fn is_null(value: &Value) -> (null: bool)
    ensures
        null == (json(*value) is Null),
{
    value.is_null()
}

/// `Value::from` a map: the object with those members.
#[verifier::external_body]
pub(crate) fn object_from(map: serde_json::Map<String, Value>) -> (value: Value)
    ensures
        json(value) == Json::Object(json_members(map)),
{
    Value::from(map)
}

/// `Value::from` a string: the document that is that text.
#[verifier::external_body]
pub(crate) fn text_from(text: String) -> (value: Value)
    ensures
        json(value) == Json::Text(text@),
{
    Value::from(text)
}

/// Assignment to `value[name]`: the member of that name becomes `member`. A null document counts
/// as an object without members; on any other document that is no object the assignment panics.
#[verifier::external_body]
pub(crate) fn set_member(value: &mut Value, name: &str, member: Value)
    requires
        json(*old(value)) is Object || json(*old(value)) is Null,
    ensures
        json(*final(value)) == Json::Object(
            json(*old(value)).members().insert(name@, json(member)),
        ),
{
    value[name] = member;
}

/// What reading a JSON text gives: the document, or the text of the error.
pub enum Reading {
    Document(Json),
    Malformed(Seq<char>),
}

/// What writing a JSON document gives: the bytes, or the text of the error.
pub enum Writing {
    Written(Seq<u8>),
    Failed(Seq<char>),
}

/// What `serde_json` reads in those bytes.
pub uninterp spec fn read_slice(bytes: Seq<u8>) -> Reading;

/// What `serde_json` reads in that text.
pub uninterp spec fn read_str(text: Seq<char>) -> Reading;

/// What `serde_json` writes for that document.
pub uninterp spec fn write_vec(document: Json) -> Writing;

/// The text that a `serde_json::Error` displays.
pub uninterp spec fn json_error_text(error: serde_json::Error) -> Seq<char>;

/// `serde_json::from_slice` into a `Value`.
#[verifier::external_body]
pub(crate) fn from_slice(bytes: &[u8]) -> (result: Result<Value, serde_json::Error>)
    ensures
        match result {
            Ok(value) => read_slice(bytes@) == Reading::Document(json(value)),
            Err(error) => read_slice(bytes@) == Reading::Malformed(json_error_text(error)),
        },
{
    serde_json::from_slice(bytes)
}

/// `serde_json::from_str` into a `Value`.
#[verifier::external_body]
pub(crate) fn from_str(text: &str) -> (result: Result<Value, serde_json::Error>)
    ensures
        match result {
            Ok(value) => read_str(text@) == Reading::Document(json(value)),
            Err(error) => read_str(text@) == Reading::Malformed(json_error_text(error)),
        },
{
    serde_json::from_str(text)
}

/// `serde_json::to_vec` of a `Value`. Without the feature `preserve_order`, which this crate does
/// not ask for, a map holds its members in the order of their names and they are written in that
/// order, so the bytes depend on nothing but the document.
#[verifier::external_body]
pub(crate) fn to_vec(value: &Value) -> (result: Result<Vec<u8>, serde_json::Error>)
    ensures
        match result {
            Ok(bytes) => write_vec(json(*value)) == Writing::Written(bytes@),
            Err(error) => write_vec(json(*value)) == Writing::Failed(json_error_text(error)),
        },
{
    serde_json::to_vec(value)
}

/// `ToString::to_string` of a `serde_json::Error`.
#[verifier::external_body]
pub(crate) fn json_error_string(error: &serde_json::Error) -> (text: String)
    ensures
        text@ == json_error_text(*error),
{
    error.to_string()
}

} // verus!
