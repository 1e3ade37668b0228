//! JSON values: what a `serde_json::Value` holds, and the few operations on
//! it that the other modules use.
use vstd::prelude::*;
use crate::number::decimal;

verus! {

/// What a JSON value holds. A number is held by its text.
pub enum JsonModel {
    Null,
    Bool(bool),
    Number(Seq<char>),
    Text(Seq<char>),
    List(Seq<JsonModel>),
    Object(Map<Seq<char>, JsonModel>),
}

/// `serde_json::Value`, a tree of JSON values.
#[verifier::external_type_specification]
#[verifier::external_body]
pub struct ExValue(serde_json::Value);

/// What a `serde_json::Value` holds.
pub uninterp spec fn json_of(v: serde_json::Value) -> JsonModel;

/// What comes of reading a text as JSON: the value it denotes, or what is said
/// of its first fault.
pub uninterp spec fn json_read(text: Seq<char>) -> Result<JsonModel, Seq<char>>;

/// The JSON value that a run of bytes denotes, if it is JSON that `serde_json` accepts.
pub uninterp spec fn json_parsed_bytes(bytes: Seq<u8>) -> Option<JsonModel>;

/// The compact JSON encoding of a value.
pub uninterp spec fn json_encoded(v: JsonModel) -> Seq<u8>;

/// The JSON value that a text denotes, if it is JSON that `serde_json` accepts.
pub open spec fn json_parsed(text: Seq<char>) -> Option<JsonModel> {
    match json_read(text) {
        Ok(v) => Some(v),
        Err(_) => None,
    }
}

/// What an optional value holds.
pub open spec fn opt_json(v: Option<serde_json::Value>) -> Option<JsonModel> {
    match v {
        Some(x) => Some(json_of(x)),
        None => None,
    }
}

/// The member `key` of a value: what an object holds under that key, if it is
/// an object and has one.
pub open spec fn member(v: JsonModel, key: Seq<char>) -> Option<JsonModel> {
    match v {
        JsonModel::Object(m) => if m.dom().contains(key) {
            Some(m[key])
        } else {
            None
        },
        _ => None,
    }
}

/// The text of the member `key`, if there is one and it is a string.
pub open spec fn text_member(v: Option<JsonModel>, key: Seq<char>) -> Option<Seq<char>> {
    match v {
        Some(x) => match member(x, key) {
            Some(JsonModel::Text(t)) => Some(t),
            _ => None,
        },
        None => None,
    }
}

/// `Value::Bool` holds the boolean it was made from.
#[verifier::external_body]
pub(crate) fn json_bool(b: bool) -> (r: serde_json::Value)
    ensures
        json_of(r) == JsonModel::Bool(b),
{
    serde_json::Value::Bool(b)
}

/// `Value::from` on an unsigned integer makes the number with that decimal text.
#[verifier::external_body]
pub(crate) fn json_number(n: u64) -> (r: serde_json::Value)
    ensures
        json_of(r) == JsonModel::Number(decimal(n as nat)),
{
    serde_json::Value::from(n)
}

/// `Value::String` holds the text it was made from.
#[verifier::external_body]
pub(crate) fn json_text(s: &str) -> (r: serde_json::Value)
    ensures
        json_of(r) == JsonModel::Text(s@),
{
    serde_json::Value::String(s.to_owned())
}

/// `serde_json::Map::new`, as a value, is the object without members.
#[verifier::external_body]
pub(crate) fn json_object() -> (r: serde_json::Value)
    ensures
        json_of(r) == JsonModel::Object(Map::empty()),
{
    serde_json::Value::Object(serde_json::Map::new())
}

/// `serde_json::Map::insert` sets one member of an object, replacing the one
/// that had the same key.
#[verifier::external_body]
pub(crate) fn json_insert(object: &mut serde_json::Value, key: &str, value: serde_json::Value)
    requires
        json_of(*old(object)) is Object,
    ensures
        json_of(*final(object)) == JsonModel::Object(json_of(*old(object))->Object_0.insert(key@, json_of(value))),
{
    if let serde_json::Value::Object(m) = object {
        m.insert(key.to_owned(), value);
    }
}

/// `Value::get` with a string key gives the member of an object, and nothing
/// on any other value.
#[verifier::external_body]
pub(crate) fn json_get<'a>(v: &'a serde_json::Value, key: &str) -> (r: Option<&'a serde_json::Value>)
    ensures
        match r {
            Some(x) => member(json_of(*v), key@) == Some(json_of(*x)),
            None => member(json_of(*v), key@) is None,
        },
{
    v.get(key)
}

/// `Value::as_str` gives the text of a string, and nothing on any other value.
#[verifier::external_body]
pub(crate) fn json_as_str<'a>(v: &'a serde_json::Value) -> (r: Option<&'a str>)
    ensures
        match r {
            Some(s) => json_of(*v) == JsonModel::Text(s@),
            None => !(json_of(*v) is Text),
        },
{
    v.as_str()
}

/// `serde_json::from_str` on a text gives the value it denotes, or an error
/// that says what is wrong with it. Which texts are JSON, and which words the
/// error chooses, is left to the name.
#[verifier::external_body]
pub(crate) fn json_from_str(text: &str) -> (r: Result<serde_json::Value, String>)
    ensures
        match r {
            Ok(v) => json_read(text@) == Ok::<JsonModel, Seq<char>>(json_of(v)),
            Err(why) => json_read(text@) == Err::<JsonModel, Seq<char>>(why@),
        },
{
    serde_json::from_str::<serde_json::Value>(text).map_err(|e| e.to_string())
}

/// `serde_json::from_slice` on bytes gives the value they denote, or an error,
/// which is dropped here. Which bytes are JSON is left to the name.
#[verifier::external_body]
pub(crate) fn json_from_slice(bytes: &[u8]) -> (r: Option<serde_json::Value>)
    ensures
        opt_json(r) == json_parsed_bytes(bytes@),
{
    serde_json::from_slice::<serde_json::Value>(bytes).ok()
}

/// `serde_json::to_vec` encodes a value; on a `Value` it does not fail. The
/// encoding itself is left to the name.
#[verifier::external_body]
pub(crate) fn json_to_vec(v: &serde_json::Value) -> (r: Vec<u8>)
    ensures
        r@ == json_encoded(json_of(*v)),
{
    serde_json::to_vec(v).unwrap_or_default()
}

/// The text of the member `key`, if `v` is an object that has a string there.
pub fn string_member<'a>(v: &'a Option<serde_json::Value>, key: &str) -> (r: Option<&'a str>)
    ensures
        crate::text::opt_str(r) == text_member(opt_json(*v), key@),
{
    match v {
        Some(x) => match json_get(x, key) {
            Some(m) => json_as_str(m),
            None => None,
        },
        None => None,
    }
}

} // verus!
