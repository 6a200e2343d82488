//! JSON values as the envelopes need them.
//!
//! Payloads are `serde_json::Value`s that the library carries through without
//! looking inside. What the envelope logic needs to know of a value is stated
//! over [`JsonModel`], the mathematical tree that a value stands for. Every
//! function in this file that has no verified body is a statement about
//! `serde_json`, taken on trust.

use vstd::prelude::*;

verus! {

#[verifier::external_type_specification]
#[verifier::external_body]
pub struct ExValue(serde_json::Value);

#[verifier::external_type_specification]
#[verifier::external_body]
pub struct ExJsonError(serde_json::Error);

/// A JSON number: a non-negative integer up to `u64::MAX`, a negative integer
/// down to `i64::MIN`, or any other number, told apart by the bit pattern of
/// its binary64 form.
pub enum JsonNumber {
    Unsigned(u64),
    Negative(i64),
    Real(u64),
}

/// The tree that a JSON value stands for.
pub enum JsonModel {
    Null,
    Bool(bool),
    Number(JsonNumber),
    Text(Seq<char>),
    Array(Seq<JsonModel>),
    Object(Map<Seq<char>, JsonModel>),
}

/// The tree that `value` stands for.
pub uninterp spec fn json_model(value: serde_json::Value) -> JsonModel;

/// The tree that `serde_json::from_str` reads from `text`, or `None` where it
/// rejects the text.
pub uninterp spec fn json_parse(text: Seq<char>) -> Option<JsonModel>;

/// The text that `serde_json::to_string` writes for a value that stands for
/// `model`, or `None` where it fails.
pub uninterp spec fn json_text(model: JsonModel) -> Option<Seq<char>>;

impl JsonModel {
    /// The member `key` of an object; `None` for a missing member and for
    /// anything that is not an object.
    pub open spec fn member(self, key: Seq<char>) -> Option<JsonModel> {
        match self {
            JsonModel::Object(members) => if members.contains_key(key) {
                Some(members[key])
            } else {
                None
            },
            _ => None,
        }
    }

    /// The string that a JSON string holds.
    pub open spec fn as_text(self) -> Option<Seq<char>> {
        match self {
            JsonModel::Text(s) => Some(s),
            _ => None,
        }
    }

    /// The value of a number that is a non-negative integer.
    pub open spec fn as_unsigned(self) -> Option<u64> {
        match self {
            JsonModel::Number(JsonNumber::Unsigned(n)) => Some(n),
            _ => None,
        }
    }
}

/// Whether no two of `members` have the same key.
pub open spec fn distinct_keys(members: Seq<(String, serde_json::Value)>) -> bool {
    forall|i: int, j: int|
        0 <= i < j < members.len() ==> (#[trigger] members[i]).0@ != (#[trigger] members[j]).0@
}

/// The object that holds exactly `members`.
pub open spec fn object_of(members: Seq<(String, serde_json::Value)>) -> Map<Seq<char>, JsonModel>
    decreases members.len(),
{
    if members.len() == 0 {
        Map::empty()
    } else {
        object_of(members.drop_last()).insert(members.last().0@, json_model(members.last().1))
    }
}

/// `serde_json::from_str` at type `Value`: the value read from `text`. It
/// succeeds exactly where `json_parse` has a tree, and the value stands for
/// that tree.
#[verifier::external_body]
pub(crate) fn parse_value(text: &str) -> (r: Result<serde_json::Value, serde_json::Error>)
    ensures
        r is Ok <==> json_parse(text@) is Some,
        r matches Ok(value) ==> json_parse(text@) == Some(json_model(value)),
{
    serde_json::from_str::<serde_json::Value>(text)
}

/// `serde_json::to_string` on a `Value`: its JSON text, which depends on the
/// tree alone.
#[verifier::external_body]
pub(crate) fn value_text(value: &serde_json::Value) -> (r: Result<String, serde_json::Error>)
    ensures
        r is Ok <==> json_text(json_model(*value)) is Some,
        r matches Ok(text) ==> json_text(json_model(*value)) == Some(text@),
{
    serde_json::to_string(value)
}

/// `Value::get` with a string index: the member of that name where the value
/// is an object that has one, `None` otherwise.
#[verifier::external_body]
pub(crate) fn value_member<'a>(value: &'a serde_json::Value, key: &str) -> (r: Option<
    &'a serde_json::Value,
>)
    ensures
        r is Some <==> json_model(*value).member(key@) is Some,
        r matches Some(found) ==> json_model(*value).member(key@) == Some(json_model(*found)),
{
    value.get(key)
}

/// `Value::as_str`: the contents of a JSON string, `None` for anything else.
pub assume_specification<'a>[ serde_json::Value::as_str ](value: &'a serde_json::Value) -> (r:
    Option<&'a str>)
    ensures
        r is Some <==> json_model(*value).as_text() is Some,
        r matches Some(s) ==> json_model(*value).as_text() == Some(s@),
;

/// `Value::as_u64`: the value of a number that is a non-negative integer,
/// `None` for anything else.
pub assume_specification[ serde_json::Value::as_u64 ](value: &serde_json::Value) -> (r: Option<u64>)
    ensures
        r == json_model(*value).as_unsigned(),
;

/// `Value::is_null`: whether the value is JSON `null`.
pub assume_specification[ serde_json::Value::is_null ](value: &serde_json::Value) -> (r: bool)
    ensures
        r == (json_model(*value) == JsonModel::Null),
;

/// `Value::clone`: an equal value.
pub assume_specification[ <serde_json::Value as Clone>::clone ](
    value: &serde_json::Value,
) -> (r: serde_json::Value)
    ensures
        r == *value,
;

/// `Value::from` on a `String`: the JSON string with those contents.
pub assume_specification[ <serde_json::Value as From<String>>::from ](text: String) -> (r:
    serde_json::Value)
    ensures
        json_model(r) == JsonModel::Text(text@),
;

/// `Value::from` on a `u16`: the JSON number with that value.
pub assume_specification[ <serde_json::Value as From<u16>>::from ](n: u16) -> (r: serde_json::Value)
    ensures
        json_model(r) == JsonModel::Number(JsonNumber::Unsigned(n as u64)),
;

/// Collecting `(String, Value)` pairs into a `Value`: the object whose
/// members are those pairs. Keys must differ, so that no pair is dropped.
#[verifier::external_body]
pub(crate) fn object_value(members: Vec<(String, serde_json::Value)>) -> (r: serde_json::Value)
    requires
        distinct_keys(members@),
    ensures
        json_model(r) == JsonModel::Object(object_of(members@)),
{
    members.into_iter().collect()
}

} // verus!
