//! The response as the API's controllers see it: a reply or a notification
//! pushed to a room.

use crate::error::KuzzleError;
use crate::json::{json_model, json_parse, json_text, object_value, parse_value, value_text, JsonModel, JsonNumber};
use crate::types::fields::{
    lemma_member_names_differ, optional_text, optional_value, read_code, read_optional_text,
    read_optional_value, required_code, text_view, value_view, with_optional_text,
    with_optional_value, write_member,
};
use vstd::prelude::*;

verus! {

/// A reply, or a notification pushed to a room.
#[derive(Debug, Clone)]
pub struct Response {
    pub action: Option<String>,
    pub collection: Option<String>,
    pub controller: Option<String>,
    pub error: Option<serde_json::Value>,
    pub index: Option<String>,
    pub result: Option<serde_json::Value>,
    /// The room that a notification was pushed to.
    pub room: Option<String>,
    pub status: u16,
    pub volatile: Option<serde_json::Value>,
}

/// What a response holds.
pub struct ResponseView {
    pub action: Option<Seq<char>>,
    pub collection: Option<Seq<char>>,
    pub controller: Option<Seq<char>>,
    pub error: Option<JsonModel>,
    pub index: Option<Seq<char>>,
    pub result: Option<JsonModel>,
    pub room: Option<Seq<char>>,
    pub status: u16,
    pub volatile: Option<JsonModel>,
}

impl View for Response {
    type V = ResponseView;

    open spec fn view(&self) -> ResponseView {
        ResponseView {
            action: text_view(self.action),
            collection: text_view(self.collection),
            controller: text_view(self.controller),
            error: value_view(self.error),
            index: text_view(self.index),
            result: value_view(self.result),
            room: text_view(self.room),
            status: self.status,
            volatile: value_view(self.volatile),
        }
    }
}

/// The members of the JSON object that carries `response`: `status` always,
/// each of the others only where the response has it.
pub open spec fn response_members(response: ResponseView) -> Map<Seq<char>, JsonModel> {
    let status = Map::<Seq<char>, JsonModel>::empty().insert(
        "status"@,
        JsonModel::Number(JsonNumber::Unsigned(response.status as u64)),
    );
    let named = with_optional_text(
        with_optional_text(
            with_optional_text(
                with_optional_text(
                    with_optional_text(status, "action"@, response.action),
                    "collection"@,
                    response.collection,
                ),
                "controller"@,
                response.controller,
            ),
            "index"@,
            response.index,
        ),
        "room"@,
        response.room,
    );
    with_optional_value(
        with_optional_value(
            with_optional_value(named, "error"@, response.error),
            "result"@,
            response.result,
        ),
        "volatile"@,
        response.volatile,
    )
}

/// The JSON object that carries `response`.
pub open spec fn response_model(response: ResponseView) -> JsonModel {
    JsonModel::Object(response_members(response))
}

/// The response that the JSON value `json` carries. The value is refused
/// where `status` is missing or not an integer from 0 to 65535, or `action`,
/// `collection`, `controller`, `index` or `room` is neither a string nor
/// `null`.
pub open spec fn response_of_model(json: JsonModel) -> Result<ResponseView, KuzzleError> {
    let action = optional_text(json, "action"@);
    let collection = optional_text(json, "collection"@);
    let controller = optional_text(json, "controller"@);
    let index = optional_text(json, "index"@);
    let room = optional_text(json, "room"@);
    let status = required_code(json, "status"@);
    if action is Ok && collection is Ok && controller is Ok && index is Ok && room is Ok
        && status is Ok {
        Ok(
            ResponseView {
                action: action->Ok_0,
                collection: collection->Ok_0,
                controller: controller->Ok_0,
                error: optional_value(json, "error"@),
                index: index->Ok_0,
                result: optional_value(json, "result"@),
                room: room->Ok_0,
                status: status->Ok_0,
                volatile: optional_value(json, "volatile"@),
            },
        )
    } else {
        Err(KuzzleError::Deserialization)
    }
}

/// The response that the JSON text `text` carries; text that is not JSON is
/// refused.
pub open spec fn response_of_text(text: Seq<char>) -> Result<ResponseView, KuzzleError> {
    match json_parse(text) {
        Some(json) => response_of_model(json),
        None => Err(KuzzleError::Deserialization),
    }
}

/// What a decoded response holds, or the error in its place.
pub open spec fn decoded_view(r: Result<Response, KuzzleError>) -> Result<
    ResponseView,
    KuzzleError,
> {
    match r {
        Ok(response) => Ok(response@),
        Err(e) => Err(e),
    }
}

impl Response {
    /// The error that the backend reported, if any.
    pub fn get_error(&self) -> (error: Option<&serde_json::Value>)
        ensures
            error is Some <==> self.error is Some,
            error matches Some(held) ==> self.error == Some(*held),
    {
        self.error.as_ref()
    }

    /// The payload of the reply, if any.
    pub fn get_result(&self) -> (result: Option<&serde_json::Value>)
        ensures
            result is Some <==> self.result is Some,
            result matches Some(held) ==> self.result == Some(*held),
    {
        self.result.as_ref()
    }

    /// The room that the notification was pushed to, if any.
    pub fn get_room(&self) -> (room: Option<&String>)
        ensures
            room is Some <==> self.room is Some,
            room matches Some(held) ==> self.room == Some(*held),
    {
        self.room.as_ref()
    }

    /// The status code.
    pub fn get_status(&self) -> (status: &u16)
        ensures
            *status == self.status,
    {
        &self.status
    }

    /// What the request asked to have echoed, if anything.
    pub fn get_volatile(&self) -> (volatile: Option<&serde_json::Value>)
        ensures
            volatile is Some <==> self.volatile is Some,
            volatile matches Some(held) ==> self.volatile == Some(*held),
    {
        self.volatile.as_ref()
    }

    /// The JSON object that carries this response.
    pub fn to_json(&self) -> (json: serde_json::Value)
        ensures
            json_model(json) == response_model(self@),
    {
        proof {
            lemma_member_names_differ();
        }
        let mut members: Vec<(String, serde_json::Value)> = Vec::new();
        write_member(&mut members, "status", serde_json::Value::from(self.status));
        if let Some(action) = &self.action {
            write_member(&mut members, "action", serde_json::Value::from(action.clone()));
        }
        if let Some(collection) = &self.collection {
            write_member(&mut members, "collection", serde_json::Value::from(collection.clone()));
        }
        if let Some(controller) = &self.controller {
            write_member(&mut members, "controller", serde_json::Value::from(controller.clone()));
        }
        if let Some(index) = &self.index {
            write_member(&mut members, "index", serde_json::Value::from(index.clone()));
        }
        if let Some(room) = &self.room {
            write_member(&mut members, "room", serde_json::Value::from(room.clone()));
        }
        if let Some(error) = &self.error {
            write_member(&mut members, "error", error.clone());
        }
        if let Some(result) = &self.result {
            write_member(&mut members, "result", result.clone());
        }
        if let Some(volatile) = &self.volatile {
            write_member(&mut members, "volatile", volatile.clone());
        }
        object_value(members)
    }

    /// The JSON text that carries this response.
    pub fn to_text(&self) -> (r: Result<String, KuzzleError>)
        ensures
            match json_text(response_model(self@)) {
                Some(text) => r matches Ok(written) && written@ == text,
                None => r == Err::<String, KuzzleError>(KuzzleError::Serialization),
            },
    {
        let json = self.to_json();
        match value_text(&json) {
            Ok(text) => Ok(text),
            Err(_) => Err(KuzzleError::Serialization),
        }
    }

    /// The response that `json` carries.
    pub fn from_json(json: &serde_json::Value) -> (r: Result<Response, KuzzleError>)
        ensures
            decoded_view(r) == response_of_model(json_model(*json)),
    {
        let action = match read_optional_text(json, "action") {
            Ok(text) => text,
            Err(e) => return Err(e),
        };
        let collection = match read_optional_text(json, "collection") {
            Ok(text) => text,
            Err(e) => return Err(e),
        };
        let controller = match read_optional_text(json, "controller") {
            Ok(text) => text,
            Err(e) => return Err(e),
        };
        let index = match read_optional_text(json, "index") {
            Ok(text) => text,
            Err(e) => return Err(e),
        };
        let room = match read_optional_text(json, "room") {
            Ok(text) => text,
            Err(e) => return Err(e),
        };
        let status = match read_code(json, "status") {
            Ok(code) => code,
            Err(e) => return Err(e),
        };
        let error = read_optional_value(json, "error");
        let result = read_optional_value(json, "result");
        let volatile = read_optional_value(json, "volatile");
        Ok(Response { action, collection, controller, error, index, result, room, status, volatile })
    }

    /// The response that the JSON text `text` carries. Text that is not JSON,
    /// and JSON that is not a response, give `Deserialization`.
    pub fn from_text(text: &str) -> (r: Result<Response, KuzzleError>)
        ensures
            decoded_view(r) == response_of_text(text@),
    {
        match parse_value(text) {
            Ok(json) => Response::from_json(&json),
            Err(_) => Err(KuzzleError::Deserialization),
        }
    }
}

/// A response that is written as a JSON object and read back is the same
/// response, its room included, unless one of its payloads is `null`, which
/// reads as no payload.
pub proof fn lemma_response_round_trip(response: ResponseView)
    requires
        response.error != Some(JsonModel::Null),
        response.result != Some(JsonModel::Null),
        response.volatile != Some(JsonModel::Null),
    ensures
        response_of_model(response_model(response)) == Ok::<ResponseView, KuzzleError>(response),
{
    lemma_member_names_differ();
    let json = response_model(response);
    assert(json.member("status"@) == Some(
        JsonModel::Number(JsonNumber::Unsigned(response.status as u64)),
    ));
    assert(optional_text(json, "action"@) == Ok::<Option<Seq<char>>, KuzzleError>(response.action));
    assert(optional_text(json, "collection"@) == Ok::<Option<Seq<char>>, KuzzleError>(
        response.collection,
    ));
    assert(optional_text(json, "controller"@) == Ok::<Option<Seq<char>>, KuzzleError>(
        response.controller,
    ));
    assert(optional_text(json, "index"@) == Ok::<Option<Seq<char>>, KuzzleError>(response.index));
    assert(optional_text(json, "room"@) == Ok::<Option<Seq<char>>, KuzzleError>(response.room));
    assert(optional_value(json, "error"@) == response.error);
    assert(optional_value(json, "result"@) == response.result);
    assert(optional_value(json, "volatile"@) == response.volatile);
}

} // verus!
