//! Reading and writing the members of an envelope.
//!
//! An envelope is a JSON object. A member that must be there is an error when
//! it is missing or of the wrong kind; a member that may be left out counts as
//! left out when it is `null`; a member that is written is written under a
//! name that the object does not hold yet.

use crate::error::KuzzleError;
use crate::json::{distinct_keys, json_model, object_of, value_member, JsonModel};
use vstd::prelude::*;

verus! {

/// The string under `key`, which must be there.
pub open spec fn required_text(object: JsonModel, key: Seq<char>) -> Result<
    Seq<char>,
    KuzzleError,
> {
    match object.member(key) {
        Some(JsonModel::Text(s)) => Ok(s),
        _ => Err(KuzzleError::Deserialization),
    }
}

/// The string under `key`, or `fallback` where the object has no such member.
pub open spec fn defaulted_text(object: JsonModel, key: Seq<char>, fallback: Seq<char>) -> Result<
    Seq<char>,
    KuzzleError,
> {
    match object.member(key) {
        None => Ok(fallback),
        Some(JsonModel::Text(s)) => Ok(s),
        _ => Err(KuzzleError::Deserialization),
    }
}

/// The string under `key`, if the member is there and not `null`.
pub open spec fn optional_text(object: JsonModel, key: Seq<char>) -> Result<
    Option<Seq<char>>,
    KuzzleError,
> {
    match object.member(key) {
        None => Ok(None),
        Some(JsonModel::Null) => Ok(None),
        Some(JsonModel::Text(s)) => Ok(Some(s)),
        _ => Err(KuzzleError::Deserialization),
    }
}

/// The value under `key`, if the member is there and not `null`.
pub open spec fn optional_value(object: JsonModel, key: Seq<char>) -> Option<JsonModel> {
    match object.member(key) {
        None => None,
        Some(JsonModel::Null) => None,
        Some(value) => Some(value),
    }
}

/// The 16-bit code under `key`, which must be there, a non-negative integer
/// and at most 65535.
pub open spec fn required_code(object: JsonModel, key: Seq<char>) -> Result<u16, KuzzleError> {
    match object.member(key) {
        Some(value) => match value.as_unsigned() {
            Some(n) => if n <= u16::MAX {
                Ok(n as u16)
            } else {
                Err(KuzzleError::Deserialization)
            },
            None => Err(KuzzleError::Deserialization),
        },
        None => Err(KuzzleError::Deserialization),
    }
}

/// `members` with the string `text` under `key`.
pub open spec fn with_text(
    members: Map<Seq<char>, JsonModel>,
    key: Seq<char>,
    text: Seq<char>,
) -> Map<Seq<char>, JsonModel> {
    members.insert(key, JsonModel::Text(text))
}

/// `members` with the string `text` under `key`, if there is one.
pub open spec fn with_optional_text(
    members: Map<Seq<char>, JsonModel>,
    key: Seq<char>,
    text: Option<Seq<char>>,
) -> Map<Seq<char>, JsonModel> {
    match text {
        Some(s) => members.insert(key, JsonModel::Text(s)),
        None => members,
    }
}

/// `members` with `value` under `key`, if there is one.
pub open spec fn with_optional_value(
    members: Map<Seq<char>, JsonModel>,
    key: Seq<char>,
    value: Option<JsonModel>,
) -> Map<Seq<char>, JsonModel> {
    match value {
        Some(v) => members.insert(key, v),
        None => members,
    }
}

/// What a string that may be absent holds.
pub open spec fn text_view(text: Option<String>) -> Option<Seq<char>> {
    match text {
        Some(s) => Some(s@),
        None => None,
    }
}

/// The tree of a payload that may be absent.
pub open spec fn value_view(value: Option<serde_json::Value>) -> Option<JsonModel> {
    match value {
        Some(v) => Some(json_model(v)),
        None => None,
    }
}

/// Reads the string under `key`, which must be there.
pub fn read_text(object: &serde_json::Value, key: &str) -> (r: Result<String, KuzzleError>)
    ensures
        match required_text(json_model(*object), key@) {
            Ok(s) => r matches Ok(text) && text@ == s,
            Err(e) => r == Err::<String, KuzzleError>(e),
        },
{
    match value_member(object, key) {
        Some(value) => match value.as_str() {
            Some(s) => Ok(s.to_owned()),
            None => Err(KuzzleError::Deserialization),
        },
        None => Err(KuzzleError::Deserialization),
    }
}

/// Reads the string under `key`, or takes `fallback` where the object has no
/// such member.
pub fn read_defaulted_text(object: &serde_json::Value, key: &str, fallback: String) -> (r: Result<
    String,
    KuzzleError,
>)
    ensures
        match defaulted_text(json_model(*object), key@, fallback@) {
            Ok(s) => r matches Ok(text) && text@ == s,
            Err(e) => r == Err::<String, KuzzleError>(e),
        },
{
    match value_member(object, key) {
        Some(value) => match value.as_str() {
            Some(s) => Ok(s.to_owned()),
            None => Err(KuzzleError::Deserialization),
        },
        None => Ok(fallback),
    }
}

/// Reads the string under `key`, if the member is there and not `null`.
pub fn read_optional_text(object: &serde_json::Value, key: &str) -> (r: Result<
    Option<String>,
    KuzzleError,
>)
    ensures
        match optional_text(json_model(*object), key@) {
            Ok(s) => r matches Ok(text) && text_view(text) == s,
            Err(e) => r == Err::<Option<String>, KuzzleError>(e),
        },
{
    match value_member(object, key) {
        None => Ok(None),
        Some(value) => if value.is_null() {
            Ok(None)
        } else {
            match value.as_str() {
                Some(s) => Ok(Some(s.to_owned())),
                None => Err(KuzzleError::Deserialization),
            }
        },
    }
}

/// Reads the value under `key`, if the member is there and not `null`.
pub fn read_optional_value(object: &serde_json::Value, key: &str) -> (r: Option<serde_json::Value>)
    ensures
        value_view(r) == optional_value(json_model(*object), key@),
{
    match value_member(object, key) {
        None => None,
        Some(value) => if value.is_null() {
            None
        } else {
            Some(value.clone())
        },
    }
}

/// Reads the 16-bit code under `key`, which must be there.
pub fn read_code(object: &serde_json::Value, key: &str) -> (r: Result<u16, KuzzleError>)
    ensures
        r == required_code(json_model(*object), key@),
{
    match value_member(object, key) {
        Some(value) => match value.as_u64() {
            Some(n) => if n <= 65535 {
                Ok(n as u16)
            } else {
                Err(KuzzleError::Deserialization)
            },
            None => Err(KuzzleError::Deserialization),
        },
        None => Err(KuzzleError::Deserialization),
    }
}

/// The names of the members of the envelopes differ from one another.
pub proof fn lemma_member_names_differ()
    ensures
        "requestId"@ != "action"@,
        "requestId"@ != "controller"@,
        "requestId"@ != "index"@,
        "requestId"@ != "collection"@,
        "requestId"@ != "jwt"@,
        "requestId"@ != "body"@,
        "requestId"@ != "status"@,
        "requestId"@ != "node"@,
        "requestId"@ != "error"@,
        "requestId"@ != "result"@,
        "requestId"@ != "volatile"@,
        "requestId"@ != "room"@,
        "action"@ != "controller"@,
        "action"@ != "index"@,
        "action"@ != "collection"@,
        "action"@ != "jwt"@,
        "action"@ != "body"@,
        "action"@ != "status"@,
        "action"@ != "node"@,
        "action"@ != "error"@,
        "action"@ != "result"@,
        "action"@ != "volatile"@,
        "action"@ != "room"@,
        "controller"@ != "index"@,
        "controller"@ != "collection"@,
        "controller"@ != "jwt"@,
        "controller"@ != "body"@,
        "controller"@ != "status"@,
        "controller"@ != "node"@,
        "controller"@ != "error"@,
        "controller"@ != "result"@,
        "controller"@ != "volatile"@,
        "controller"@ != "room"@,
        "index"@ != "collection"@,
        "index"@ != "jwt"@,
        "index"@ != "body"@,
        "index"@ != "status"@,
        "index"@ != "node"@,
        "index"@ != "error"@,
        "index"@ != "result"@,
        "index"@ != "volatile"@,
        "index"@ != "room"@,
        "collection"@ != "jwt"@,
        "collection"@ != "body"@,
        "collection"@ != "status"@,
        "collection"@ != "node"@,
        "collection"@ != "error"@,
        "collection"@ != "result"@,
        "collection"@ != "volatile"@,
        "collection"@ != "room"@,
        "jwt"@ != "body"@,
        "jwt"@ != "status"@,
        "jwt"@ != "node"@,
        "jwt"@ != "error"@,
        "jwt"@ != "result"@,
        "jwt"@ != "volatile"@,
        "jwt"@ != "room"@,
        "body"@ != "status"@,
        "body"@ != "node"@,
        "body"@ != "error"@,
        "body"@ != "result"@,
        "body"@ != "volatile"@,
        "body"@ != "room"@,
        "status"@ != "node"@,
        "status"@ != "error"@,
        "status"@ != "result"@,
        "status"@ != "volatile"@,
        "status"@ != "room"@,
        "node"@ != "error"@,
        "node"@ != "result"@,
        "node"@ != "volatile"@,
        "node"@ != "room"@,
        "error"@ != "result"@,
        "error"@ != "volatile"@,
        "error"@ != "room"@,
        "result"@ != "volatile"@,
        "result"@ != "room"@,
        "volatile"@ != "room"@,
{
    reveal_strlit("requestId");
    reveal_strlit("action");
    reveal_strlit("controller");
    reveal_strlit("index");
    reveal_strlit("collection");
    reveal_strlit("jwt");
    reveal_strlit("body");
    reveal_strlit("status");
    reveal_strlit("node");
    reveal_strlit("error");
    reveal_strlit("result");
    reveal_strlit("volatile");
    reveal_strlit("room");
    assert("requestId"@.len() == 9);
    assert("action"@.len() == 6);
    assert("controller"@.len() == 10);
    assert("index"@.len() == 5);
    assert("collection"@.len() == 10);
    assert("jwt"@.len() == 3);
    assert("body"@.len() == 4);
    assert("status"@.len() == 6);
    assert("node"@.len() == 4);
    assert("error"@.len() == 5);
    assert("result"@.len() == 6);
    assert("volatile"@.len() == 8);
    assert("room"@.len() == 4);
    assert("requestId"@[0] == 'r');
    assert("action"@[0] == 'a');
    assert("controller"@[0] == 'c');
    assert("index"@[0] == 'i');
    assert("collection"@[0] == 'c');
    assert("jwt"@[0] == 'j');
    assert("body"@[0] == 'b');
    assert("status"@[0] == 's');
    assert("node"@[0] == 'n');
    assert("error"@[0] == 'e');
    assert("result"@[0] == 'r');
    assert("volatile"@[0] == 'v');
    assert("room"@[0] == 'r');
    assert("controller"@[2] == 'n');
    assert("collection"@[2] == 'l');
}

/// An object holds a member for each of its pairs.
pub proof fn lemma_object_holds_keys(members: Seq<(String, serde_json::Value)>, i: int)
    requires
        0 <= i < members.len(),
    ensures
        object_of(members).contains_key(members[i].0@),
    decreases members.len(),
{
    if i < members.len() - 1 {
        lemma_object_holds_keys(members.drop_last(), i);
    }
}

/// Adds the member `key`: `value` to `members`, which holds none of that name.
pub fn write_member(members: &mut Vec<(String, serde_json::Value)>, key: &str, value: serde_json::Value)
    requires
        distinct_keys(old(members)@),
        !object_of(old(members)@).contains_key(key@),
    ensures
        distinct_keys(final(members)@),
        object_of(final(members)@) == object_of(old(members)@).insert(key@, json_model(value)),
{
    let name = key.to_owned();
    members.push((name, value));
    proof {
        let before = old(members)@;
        let after = members@;
        assert(after.drop_last() =~= before);
        assert forall|i: int, j: int| 0 <= i < j < after.len() implies (#[trigger] after[i]).0@ != (
        #[trigger] after[j]).0@ by {
            if j == after.len() - 1 {
                lemma_object_holds_keys(before, i);
            }
        }
    }
}

} // verus!
