//! The response envelope.

use crate::error::KuzzleError;
use crate::json::{json_model, json_parse, json_text, object_value, parse_value, value_text, JsonModel, JsonNumber};
use crate::types::fields::{
    lemma_member_names_differ, optional_text, optional_value, read_code, read_optional_text,
    read_optional_value, read_text, required_code, required_text, text_view, value_view,
    with_optional_text, with_optional_value, with_text, write_member,
};
use vstd::prelude::*;

verus! {

/// One reply of the backend.
#[derive(Debug, Clone)]
pub struct Response {
    /// The identifier of the request that this answers; written as
    /// `requestId`.
    pub request_id: String,
    /// HTTP-style status code.
    pub status: u16,
    /// The server that answered.
    pub node: Option<String>,
    pub action: String,
    pub controller: String,
    pub index: Option<String>,
    pub collection: Option<String>,
    /// Set where the request failed, whatever `result` holds.
    pub error: Option<serde_json::Value>,
    pub result: Option<serde_json::Value>,
    pub volatile: Option<serde_json::Value>,
}

/// What a response holds.
pub struct ResponseView {
    pub request_id: Seq<char>,
    pub status: u16,
    pub node: Option<Seq<char>>,
    pub action: Seq<char>,
    pub controller: Seq<char>,
    pub index: Option<Seq<char>>,
    pub collection: Option<Seq<char>>,
    pub error: Option<JsonModel>,
    pub result: Option<JsonModel>,
    pub volatile: Option<JsonModel>,
}

impl View for Response {
    type V = ResponseView;

    open spec fn view(&self) -> ResponseView {
        ResponseView {
            request_id: self.request_id@,
            status: self.status,
            node: text_view(self.node),
            action: self.action@,
            controller: self.controller@,
            index: text_view(self.index),
            collection: text_view(self.collection),
            error: value_view(self.error),
            result: value_view(self.result),
            volatile: value_view(self.volatile),
        }
    }
}

/// The members of the JSON object that carries `response`: `requestId`,
/// `status`, `action` and `controller` always, each of the others only where
/// the response has it.
pub open spec fn response_members(response: ResponseView) -> Map<Seq<char>, JsonModel> {
    let required = with_text(
        with_text(
            with_text(Map::empty(), "requestId"@, response.request_id).insert(
                "status"@,
                JsonModel::Number(JsonNumber::Unsigned(response.status as u64)),
            ),
            "action"@,
            response.action,
        ),
        "controller"@,
        response.controller,
    );
    let named = with_optional_text(
        with_optional_text(
            with_optional_text(required, "node"@, response.node),
            "index"@,
            response.index,
        ),
        "collection"@,
        response.collection,
    );
    with_optional_value(
        with_optional_value(
            with_optional_value(named, "error"@, response.error),
            "result"@,
            response.result,
        ),
        "volatile"@,
        response.volatile,
    )
}

/// The JSON object that carries `response`.
pub open spec fn response_model(response: ResponseView) -> JsonModel {
    JsonModel::Object(response_members(response))
}

/// The response that the JSON value `json` carries. The value is refused
/// where `requestId`, `action` or `controller` is missing or not a string,
/// `status` is missing or not an integer from 0 to 65535, or `node`, `index`
/// or `collection` is neither a string nor `null`.
pub open spec fn response_of_model(json: JsonModel) -> Result<ResponseView, KuzzleError> {
    let request_id = required_text(json, "requestId"@);
    let status = required_code(json, "status"@);
    let node = optional_text(json, "node"@);
    let action = required_text(json, "action"@);
    let controller = required_text(json, "controller"@);
    let index = optional_text(json, "index"@);
    let collection = optional_text(json, "collection"@);
    if request_id is Ok && status is Ok && node is Ok && action is Ok && controller is Ok
        && index is Ok && collection is Ok {
        Ok(
            ResponseView {
                request_id: request_id->Ok_0,
                status: status->Ok_0,
                node: node->Ok_0,
                action: action->Ok_0,
                controller: controller->Ok_0,
                index: index->Ok_0,
                collection: collection->Ok_0,
                error: optional_value(json, "error"@),
                result: optional_value(json, "result"@),
                volatile: optional_value(json, "volatile"@),
            },
        )
    } else {
        Err(KuzzleError::Deserialization)
    }
}

/// The response that the JSON text `text` carries; text that is not JSON is
/// refused.
pub open spec fn response_of_text(text: Seq<char>) -> Result<ResponseView, KuzzleError> {
    match json_parse(text) {
        Some(json) => response_of_model(json),
        None => Err(KuzzleError::Deserialization),
    }
}

/// What a decoded response holds, or the error in its place.
pub open spec fn decoded_view(r: Result<Response, KuzzleError>) -> Result<
    ResponseView,
    KuzzleError,
> {
    match r {
        Ok(response) => Ok(response@),
        Err(e) => Err(e),
    }
}

impl Response {
    /// The JSON object that carries this response.
    pub fn to_json(&self) -> (json: serde_json::Value)
        ensures
            json_model(json) == response_model(self@),
    {
        proof {
            lemma_member_names_differ();
        }
        let mut members: Vec<(String, serde_json::Value)> = Vec::new();
        write_member(&mut members, "requestId", serde_json::Value::from(self.request_id.clone()));
        write_member(&mut members, "status", serde_json::Value::from(self.status));
        write_member(&mut members, "action", serde_json::Value::from(self.action.clone()));
        write_member(&mut members, "controller", serde_json::Value::from(self.controller.clone()));
        if let Some(node) = &self.node {
            write_member(&mut members, "node", serde_json::Value::from(node.clone()));
        }
        if let Some(index) = &self.index {
            write_member(&mut members, "index", serde_json::Value::from(index.clone()));
        }
        if let Some(collection) = &self.collection {
            write_member(&mut members, "collection", serde_json::Value::from(collection.clone()));
        }
        if let Some(error) = &self.error {
            write_member(&mut members, "error", error.clone());
        }
        if let Some(result) = &self.result {
            write_member(&mut members, "result", result.clone());
        }
        if let Some(volatile) = &self.volatile {
            write_member(&mut members, "volatile", volatile.clone());
        }
        object_value(members)
    }

    /// The JSON text that carries this response.
    pub fn to_text(&self) -> (r: Result<String, KuzzleError>)
        ensures
            match json_text(response_model(self@)) {
                Some(text) => r matches Ok(written) && written@ == text,
                None => r == Err::<String, KuzzleError>(KuzzleError::Serialization),
            },
    {
        let json = self.to_json();
        match value_text(&json) {
            Ok(text) => Ok(text),
            Err(_) => Err(KuzzleError::Serialization),
        }
    }

    /// The response that `json` carries.
    pub fn from_json(json: &serde_json::Value) -> (r: Result<Response, KuzzleError>)
        ensures
            decoded_view(r) == response_of_model(json_model(*json)),
    {
        let request_id = match read_text(json, "requestId") {
            Ok(text) => text,
            Err(e) => return Err(e),
        };
        let status = match read_code(json, "status") {
            Ok(code) => code,
            Err(e) => return Err(e),
        };
        let node = match read_optional_text(json, "node") {
            Ok(text) => text,
            Err(e) => return Err(e),
        };
        let action = match read_text(json, "action") {
            Ok(text) => text,
            Err(e) => return Err(e),
        };
        let controller = match read_text(json, "controller") {
            Ok(text) => text,
            Err(e) => return Err(e),
        };
        let index = match read_optional_text(json, "index") {
            Ok(text) => text,
            Err(e) => return Err(e),
        };
        let collection = match read_optional_text(json, "collection") {
            Ok(text) => text,
            Err(e) => return Err(e),
        };
        let error = read_optional_value(json, "error");
        let result = read_optional_value(json, "result");
        let volatile = read_optional_value(json, "volatile");
        Ok(
            Response {
                request_id,
                status,
                node,
                action,
                controller,
                index,
                collection,
                error,
                result,
                volatile,
            },
        )
    }

    /// The response that the JSON text `text` carries. Text that is not JSON,
    /// and JSON that is not a response, give `Deserialization`.
    pub fn from_text(text: &str) -> (r: Result<Response, KuzzleError>)
        ensures
            decoded_view(r) == response_of_text(text@),
    {
        match parse_value(text) {
            Ok(json) => Response::from_json(&json),
            Err(_) => Err(KuzzleError::Deserialization),
        }
    }
}

/// A response that is written as a JSON object and read back is the same
/// response, unless one of its payloads is `null`, which reads as no payload.
pub proof fn lemma_response_round_trip(response: ResponseView)
    requires
        response.error != Some(JsonModel::Null),
        response.result != Some(JsonModel::Null),
        response.volatile != Some(JsonModel::Null),
    ensures
        response_of_model(response_model(response)) == Ok::<ResponseView, KuzzleError>(response),
{
    lemma_member_names_differ();
    let json = response_model(response);
    assert(json.member("requestId"@) == Some(JsonModel::Text(response.request_id)));
    assert(json.member("status"@) == Some(
        JsonModel::Number(JsonNumber::Unsigned(response.status as u64)),
    ));
    assert(json.member("action"@) == Some(JsonModel::Text(response.action)));
    assert(json.member("controller"@) == Some(JsonModel::Text(response.controller)));
    assert(optional_text(json, "node"@) == Ok::<Option<Seq<char>>, KuzzleError>(response.node));
    assert(optional_text(json, "index"@) == Ok::<Option<Seq<char>>, KuzzleError>(response.index));
    assert(optional_text(json, "collection"@) == Ok::<Option<Seq<char>>, KuzzleError>(
        response.collection,
    ));
    assert(optional_value(json, "error"@) == response.error);
    assert(optional_value(json, "result"@) == response.result);
    assert(optional_value(json, "volatile"@) == response.volatile);
}

/// A reply that holds an `error` and no `result` is still a response: it
/// decodes, and hands on its status and its error as they came.
pub proof fn lemma_error_reply_decodes(json: JsonModel, error: JsonModel)
    requires
        required_text(json, "requestId"@) is Ok,
        required_text(json, "action"@) is Ok,
        required_text(json, "controller"@) is Ok,
        required_code(json, "status"@) is Ok,
        optional_text(json, "node"@) is Ok,
        optional_text(json, "index"@) is Ok,
        optional_text(json, "collection"@) is Ok,
        json.member("error"@) == Some(error),
        error != JsonModel::Null,
        json.member("result"@) is None,
    ensures
        response_of_model(json) matches Ok(response) && response.error == Some(error)
            && response.result is None && Ok::<u16, KuzzleError>(response.status) == required_code(
            json,
            "status"@,
        ),
{
}

} // verus!
