//! JSON values: what one holds, and the `serde_json` calls that build, read,
//! write and parse one.

use serde_json::Value;
use vstd::prelude::*;

verus! {

/// `serde_json::Value`, whose contents are known through [`json_of`] alone.
#[verifier::external_type_specification]
#[verifier::external_body]
pub struct ExValue(serde_json::Value);

/// What a JSON value holds.
///
/// A number is either an integer that fits `u64`, or any other number, which is
/// told apart by the text that it is written as.
pub enum Json {
    Null,
    Bool(bool),
    Unsigned(u64),
    OtherNumber(Seq<char>),
    Text(Seq<char>),
    Array(Seq<Json>),
    Object(Map<Seq<char>, Json>),
}

/// What `value` holds.
pub uninterp spec fn json_of(value: Value) -> Json;

/// The compact text that `serde_json` writes for a value.
pub uninterp spec fn json_text(json: Json) -> Seq<char>;

/// What `serde_json` reads from a text: the value, or the words in which it
/// refuses the text.
pub uninterp spec fn parsed_json(text: Seq<char>) -> Result<Json, Seq<char>>;

/// `text` is read as the value `json`.
pub open spec fn reads_as(text: Seq<char>, json: Json) -> bool {
    parsed_json(text) == Ok::<Json, Seq<char>>(json)
}

/// The member of an object under `key`; nothing of any other value.
pub open spec fn member(json: Json, key: Seq<char>) -> Option<Json> {
    match json {
        Json::Object(members) => if members.dom().contains(key) {
            Some(members[key])
        } else {
            None
        },
        _ => None,
    }
}

/// The object with no members.
pub open spec fn empty_object() -> Json {
    Json::Object(Map::empty())
}

/// The string member of an object under `key`.
pub open spec fn text_member(json: Json, key: Seq<char>) -> Option<Seq<char>> {
    match member(json, key) {
        Some(Json::Text(text)) => Some(text),
        _ => None,
    }
}

/// Arrays and objects are nested at most `depth` deep in `json`, and every
/// number in it is an integer that fits `u64`.
pub open spec fn is_shallow(json: Json, depth: nat) -> bool
    decreases depth,
{
    match json {
        Json::OtherNumber(_) => false,
        Json::Array(items) => depth > 0 && forall|i: int|
            0 <= i < items.len() ==> is_shallow(#[trigger] items[i], (depth - 1) as nat),
        Json::Object(members) => depth > 0 && forall|key: Seq<char>|
            members.dom().contains(key) ==> is_shallow(
                #[trigger] members[key],
                (depth - 1) as nat,
            ),
        _ => true,
    }
}

/// What each value of a listing holds.
pub open spec fn json_list(values: Seq<Value>) -> Seq<Json> {
    values.map_values(|value: Value| json_of(value))
}

/// `Value::get` with a string index: the member under `key` of an object,
/// nothing where there is no such member or the value is no object.
#[verifier::external_body]
pub(crate) fn get<'a>(value: &'a Value, key: &str) -> (found: Option<&'a Value>)
    ensures
        match found {
            Some(inner) => member(json_of(*value), key@) == Some(json_of(*inner)),
            None => member(json_of(*value), key@) is None,
        },
{
    value.get(key)
}

/// `Value::as_str`: the text of a string, nothing of any other value.
#[verifier::external_body]
pub(crate) fn as_str(value: &Value) -> (text: Option<&str>)
    ensures
        match text {
            Some(t) => json_of(*value) == Json::Text(t@),
            None => !(json_of(*value) is Text),
        },
{
    value.as_str()
}

/// `PartialEq::eq` of `Value`, against an integer that fits `u64` or a string:
/// equal where both hold the same. Nothing is claimed of other right-hand
/// sides, since the two zeros of a float compare equal and are written apart.
#[verifier::external_body]
pub(crate) fn equals(left: &Value, right: &Value) -> (equal: bool)
    ensures
        json_of(*right) is Unsigned || json_of(*right) is Text ==> equal == (json_of(*left)
            == json_of(*right)),
{
    left == right
}

/// `Value::clone`: a value that holds the same.
#[verifier::external_body]
pub(crate) fn duplicate(value: &Value) -> (copy: Value)
    ensures
        json_of(copy) == json_of(*value),
{
    value.clone()
}

/// `Value::default`: null.
#[verifier::external_body]
pub(crate) fn null() -> (value: Value)
    ensures
        json_of(value) == Json::Null,
{
    Value::default()
}

/// `Value::from` for `u64`: that integer.
#[verifier::external_body]
pub(crate) fn number(n: u64) -> (value: Value)
    ensures
        json_of(value) == Json::Unsigned(n),
{
    Value::from(n)
}

/// `Value::from` for `&str`: a string with that text.
#[verifier::external_body]
pub(crate) fn string(text: &str) -> (value: Value)
    ensures
        json_of(value) == Json::Text(text@),
{
    Value::from(text)
}

/// `Value::Object` of `Map::new`: an object without members.
#[verifier::external_body]
pub(crate) fn object() -> (value: Value)
    ensures
        json_of(value) == empty_object(),
{
    Value::Object(serde_json::Map::new())
}

/// Assignment through `IndexMut` of `Value` with a string index, on an object:
/// the member under `key` becomes `inner`, and the others stay. On what is
/// neither an object nor null the call panics.
#[verifier::external_body]
pub(crate) fn set(value: &mut Value, key: &str, inner: Value)
    requires
        json_of(*old(value)) is Object,
    ensures
        json_of(*final(value)) == Json::Object(
            json_of(*old(value))->Object_0.insert(key@, json_of(inner)),
        ),
{
    value[key] = inner;
}

/// `Display` of `Value`, by `to_string`: the compact text, which is a function
/// of what the value holds, because objects are kept in the order of their
/// keys. Parsing the text gives back what was written, where nothing in it is
/// nested deeper than the parser goes and every number is an integer that fits
/// `u64`; of floats, which the parser may round, nothing is claimed.
#[verifier::external_body]
pub(crate) fn write(value: &Value) -> (text: String)
    ensures
        text@ == json_text(json_of(*value)),
        is_shallow(json_of(*value), 127) ==> reads_as(text@, json_of(*value)),
{
    value.to_string()
}

/// `serde_json::from_str` into a `Value`: what it reads from the text, or the
/// words of its error, both of them a function of the text.
#[verifier::external_body]
pub(crate) fn parse(text: &str) -> (parsed: Result<Value, String>)
    ensures
        match parsed {
            Ok(value) => reads_as(text@, json_of(value)),
            Err(reason) => parsed_json(text@) matches Err(words) && words == reason@,
        },
{
    serde_json::from_str(text).map_err(|e: serde_json::Error| e.to_string())
}

} // verus!
