//! The JSON values that travel through the client, and the calls into
//! `serde_json` that read, build, parse and encode them.
//!
//! A JSON value stays a `serde_json::Value` from the moment it is parsed or
//! built until it is encoded or handed to the caller. The verifier never looks
//! inside one: `Json` is the model of what a value holds, `json_view` names
//! the content of a given value, and each function of this module says,
//! without proof, how one `serde_json` call relates to that content.

use std::borrow::Cow;
use vstd::prelude::*;

verus! {

/// A JSON value of any kind.
#[verifier::external_type_specification]
#[verifier::external_body]
pub struct ExValue(serde_json::Value);

/// The error that `serde_json` reports when parsing, decoding or encoding fails.
#[verifier::external_type_specification]
#[verifier::external_body]
pub struct ExJsonError(serde_json::Error);

/// A JSON object under construction: member names with their values.
#[verifier::external_type_specification]
#[verifier::external_body]
#[verifier::reject_recursive_types(K)]
#[verifier::reject_recursive_types(V)]
pub struct ExJsonMap<K, V>(serde_json::Map<K, V>);

/// A JSON object as request bodies carry it.
pub type Object = serde_json::Map<String, serde_json::Value>;

/// What a JSON value holds: the mathematical content of a `serde_json::Value`.
pub enum Json {
    /// `null`.
    Null,
    /// `true` or `false`.
    Bool(bool),
    /// A number, by the text that `serde_json` writes for it.
    Number(Seq<char>),
    /// A string.
    Text(Seq<char>),
    /// An array, by its elements in their order.
    List(Seq<Json>),
    /// An object, by its values under their names.
    Object(Map<Seq<char>, Json>),
}

/// What a JSON object holds: its values by member name.
pub type Members = Map<Seq<char>, Json>;

impl Json {
    /// The text of a string, and nothing for any other value.
    pub open spec fn text(self) -> Option<Seq<char>> {
        match self {
            Json::Text(text) => Some(text),
            _ => None,
        }
    }

    /// The elements of an array, and nothing for any other value.
    pub open spec fn elements(self) -> Option<Seq<Json>> {
        match self {
            Json::List(items) => Some(items),
            _ => None,
        }
    }

    /// The member of an object under `name`, and nothing for an object
    /// without such a member or for any other value.
    pub open spec fn member(self, name: Seq<char>) -> Option<Json> {
        match self {
            Json::Object(members) => if members.contains_key(name) {
                Some(members[name])
            } else {
                None
            },
            _ => None,
        }
    }
}

/// What a JSON value holds.
pub uninterp spec fn json_view(value: serde_json::Value) -> Json;

/// The members that a JSON object holds.
pub uninterp spec fn object_members(object: Object) -> Members;

/// The value that `bytes` spell as JSON text, where they spell one.
pub uninterp spec fn parsed_json(bytes: Seq<u8>) -> Option<Json>;

/// The JSON text of the object with the given members, where it can be written.
pub uninterp spec fn encoded_object(members: Members) -> Option<Seq<u8>>;

/// The JSON text of a list of pairs of strings, where it can be written.
pub uninterp spec fn encoded_list(pairs: Seq<(Seq<char>, Seq<char>)>) -> Option<Seq<u8>>;

/// `serde_json::Map::new`: an object without members.
#[verifier::external_body]
pub(crate) fn new_object() -> (object: Object)
    ensures
        object_members(object) == Members::empty(),
{
    serde_json::Map::new()
}

/// `serde_json::Map::insert`: afterwards the object holds `value` under
/// `name`, in place of any member it had under that name, and every other
/// member as before.
#[verifier::external_body]
pub(crate) fn insert_member(object: &mut Object, name: String, value: serde_json::Value)
    ensures
        object_members(*final(object)) == object_members(*old(object)).insert(
            name@,
            json_view(value),
        ),
{
    object.insert(name, value);
}

/// `serde_json::Map::append`: moves every member of `other` into `object`,
/// where a member of `other` replaces one of the same name, and leaves
/// `other` without members.
#[verifier::external_body]
pub(crate) fn append_members(object: &mut Object, other: &mut Object)
    ensures
        object_members(*final(object)) == object_members(*old(object)).union_prefer_right(
            object_members(*old(other)),
        ),
        object_members(*final(other)) == Members::empty(),
{
    object.append(other);
}

/// `serde_json::Map::is_empty`: whether the object has no member at all.
#[verifier::external_body]
pub(crate) fn has_no_members(object: &Object) -> (empty: bool)
    ensures
        empty == (object_members(*object) == Members::empty()),
{
    object.is_empty()
}

/// `serde_json::Value::from` on a `String`: the JSON string with that text.
#[verifier::external_body]
pub(crate) fn string_value(text: String) -> (value: serde_json::Value)
    ensures
        json_view(value) == Json::Text(text@),
{
    serde_json::Value::from(text)
}

/// `serde_json::Value::get` with a member name: the member of that name if
/// `value` is an object and has one, and nothing otherwise.
#[verifier::external_body]
pub(crate) fn member<'a>(value: &'a serde_json::Value, name: &str) -> (found: Option<&'a serde_json::Value>)
    ensures
        found is Some == json_view(*value).member(name@) is Some,
        found is Some ==> json_view(*found->0) == json_view(*value).member(name@)->0,
{
    value.get(name)
}

/// `serde_json::Value::as_str`: the text if `value` is a JSON string, and
/// nothing otherwise.
#[verifier::external_body]
pub(crate) fn text_of(value: &serde_json::Value) -> (text: Option<String>)
    ensures
        text is Some == json_view(*value).text() is Some,
        text is Some ==> text->0@ == json_view(*value).text()->0,
{
    value.as_str().map(String::from)
}

/// `serde_json::Value::as_array`: the elements if `value` is a JSON array,
/// and nothing otherwise.
#[verifier::external_body]
pub(crate) fn elements_of(value: &serde_json::Value) -> (elements: Option<&Vec<serde_json::Value>>)
    ensures
        elements is Some == json_view(*value).elements() is Some,
        elements is Some ==> elements->0@.len() == json_view(*value).elements()->0.len(),
        elements is Some ==> forall|i: int|
            0 <= i < elements->0@.len() ==> json_view(#[trigger] elements->0@[i]) == json_view(
                *value,
            ).elements()->0[i],
{
    value.as_array()
}

/// `serde_json::from_slice` for a `Value`: the value that the bytes spell,
/// or the parser's error where they spell none. The same bytes always give
/// the same content, and no bytes at all spell no value: the parser then
/// reports the end of the input.
#[verifier::external_body]
pub(crate) fn parse(bytes: &[u8]) -> (parsed: Result<serde_json::Value, serde_json::Error>)
    ensures
        parsed is Ok == parsed_json(bytes@) is Some,
        parsed is Ok ==> json_view(parsed->Ok_0) == parsed_json(bytes@)->0,
        bytes@.len() == 0 ==> parsed is Err,
{
    serde_json::from_slice::<serde_json::Value>(bytes)
}

/// `serde_json::to_vec` on an object: its JSON text, or the encoder's error.
/// The text depends on the object's members alone.
#[verifier::external_body]
pub(crate) fn encode(object: &Object) -> (encoded: Result<Vec<u8>, serde_json::Error>)
    ensures
        encoded is Ok == encoded_object(object_members(*object)) is Some,
        encoded is Ok ==> encoded->Ok_0@ == encoded_object(object_members(*object))->0,
{
    serde_json::to_vec(object)
}

/// `serde_json::to_vec` on a list of pairs of strings: its JSON text, or the
/// encoder's error. The text depends on the strings alone.
#[verifier::external_body]
pub(crate) fn encode_list(pairs: &Vec<(Cow<'_, str>, Cow<'_, str>)>) -> (encoded: Result<Vec<u8>, serde_json::Error>)
    ensures
        encoded is Ok == encoded_list(pairs.deep_view()) is Some,
        encoded is Ok ==> encoded->Ok_0@ == encoded_list(pairs.deep_view())->0,
{
    serde_json::to_vec(pairs)
}

} // verus!
