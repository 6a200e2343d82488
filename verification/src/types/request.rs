//! The request envelope.

use crate::error::KuzzleError;
use crate::json::{json_model, json_parse, json_text, object_value, parse_value, value_text, JsonModel};
use crate::types::fields::{
    defaulted_text, optional_text, optional_value, read_defaulted_text, read_optional_text,
    read_optional_value, read_text, lemma_member_names_differ, required_text, text_view, value_view, with_optional_text,
    with_optional_value, with_text, write_member,
};
use vstd::prelude::*;

verus! {

/// One request to the backend.
#[derive(Debug, Clone)]
pub struct Request {
    /// Identifies the request; written as `requestId`.
    pub request_id: String,
    pub action: String,
    pub controller: String,
    pub index: Option<String>,
    pub collection: Option<String>,
    /// Bearer credential.
    pub jwt: Option<String>,
    /// Payload, carried through as it is.
    pub body: Option<serde_json::Value>,
}

/// What a request holds.
pub struct RequestView {
    pub request_id: Seq<char>,
    pub action: Seq<char>,
    pub controller: Seq<char>,
    pub index: Option<Seq<char>>,
    pub collection: Option<Seq<char>>,
    pub jwt: Option<Seq<char>>,
    pub body: Option<JsonModel>,
}

impl View for Request {
    type V = RequestView;

    open spec fn view(&self) -> RequestView {
        RequestView {
            request_id: self.request_id@,
            action: self.action@,
            controller: self.controller@,
            index: text_view(self.index),
            collection: text_view(self.collection),
            jwt: text_view(self.jwt),
            body: value_view(self.body),
        }
    }
}

/// The members of the JSON object that carries `request`: `requestId`,
/// `action` and `controller` always, each of the others only where the
/// request has it.
pub open spec fn request_members(request: RequestView) -> Map<Seq<char>, JsonModel> {
    let required = with_text(
        with_text(
            with_text(Map::empty(), "requestId"@, request.request_id),
            "action"@,
            request.action,
        ),
        "controller"@,
        request.controller,
    );
    with_optional_value(
        with_optional_text(
            with_optional_text(
                with_optional_text(required, "index"@, request.index),
                "collection"@,
                request.collection,
            ),
            "jwt"@,
            request.jwt,
        ),
        "body"@,
        request.body,
    )
}

/// The JSON object that carries `request`.
pub open spec fn request_model(request: RequestView) -> JsonModel {
    JsonModel::Object(request_members(request))
}

/// The request that the JSON value `json` carries, with `fallback_id` as its
/// identifier where the value names none. The value is refused where
/// `requestId`, `action` or `controller` is not a string, `action` or
/// `controller` is missing, or `index`, `collection` or `jwt` is neither a
/// string nor `null`.
pub open spec fn request_of_model(json: JsonModel, fallback_id: Seq<char>) -> Result<
    RequestView,
    KuzzleError,
> {
    let request_id = defaulted_text(json, "requestId"@, fallback_id);
    let action = required_text(json, "action"@);
    let controller = required_text(json, "controller"@);
    let index = optional_text(json, "index"@);
    let collection = optional_text(json, "collection"@);
    let jwt = optional_text(json, "jwt"@);
    if request_id is Ok && action is Ok && controller is Ok && index is Ok && collection is Ok
        && jwt is Ok {
        Ok(
            RequestView {
                request_id: request_id->Ok_0,
                action: action->Ok_0,
                controller: controller->Ok_0,
                index: index->Ok_0,
                collection: collection->Ok_0,
                jwt: jwt->Ok_0,
                body: optional_value(json, "body"@),
            },
        )
    } else {
        Err(KuzzleError::Deserialization)
    }
}

/// The request that the JSON text `text` carries.
pub open spec fn request_of_text(text: Seq<char>, fallback_id: Seq<char>) -> Result<
    RequestView,
    KuzzleError,
> {
    match json_parse(text) {
        Some(json) => request_of_model(json, fallback_id),
        None => Err(KuzzleError::Deserialization),
    }
}

/// What a decoded request holds, or the error in its place.
pub open spec fn decoded_view(r: Result<Request, KuzzleError>) -> Result<RequestView, KuzzleError> {
    match r {
        Ok(request) => Ok(request@),
        Err(e) => Err(e),
    }
}

/// Whether `text` is a UUID in its hyphenated lower-case form, of version 4
/// and of the RFC variant.
pub open spec fn is_uuid_text(text: Seq<char>) -> bool {
    &&& text.len() == 36
    &&& forall|i: int|
        0 <= i < 36 ==> if i == 8 || i == 13 || i == 18 || i == 23 {
            #[trigger] text[i] == '-'
        } else {
            ('0' <= text[i] <= '9') || ('a' <= text[i] <= 'f')
        }
    &&& text[14] == '4'
    &&& (text[19] == '8' || text[19] == '9' || text[19] == 'a' || text[19] == 'b')
}

/// `Uuid::new_v4` written with `to_string`: a fresh random UUID in hyphenated
/// lower-case form. Which one is not known.
#[verifier::external_body]
pub(crate) fn default_uuid_string() -> (id: String)
    ensures
        is_uuid_text(id@),
{
    uuid::Uuid::new_v4().to_string()
}

impl Request {
    /// The JSON object that carries this request.
    pub fn to_json(&self) -> (json: serde_json::Value)
        ensures
            json_model(json) == request_model(self@),
    {
        proof {
            lemma_member_names_differ();
        }
        let mut members: Vec<(String, serde_json::Value)> = Vec::new();
        write_member(&mut members, "requestId", serde_json::Value::from(self.request_id.clone()));
        write_member(&mut members, "action", serde_json::Value::from(self.action.clone()));
        write_member(&mut members, "controller", serde_json::Value::from(self.controller.clone()));
        if let Some(index) = &self.index {
            write_member(&mut members, "index", serde_json::Value::from(index.clone()));
        }
        if let Some(collection) = &self.collection {
            write_member(&mut members, "collection", serde_json::Value::from(collection.clone()));
        }
        if let Some(jwt) = &self.jwt {
            write_member(&mut members, "jwt", serde_json::Value::from(jwt.clone()));
        }
        if let Some(body) = &self.body {
            write_member(&mut members, "body", body.clone());
        }
        object_value(members)
    }

    /// The JSON text that carries this request.
    pub fn to_text(&self) -> (r: Result<String, KuzzleError>)
        ensures
            match json_text(request_model(self@)) {
                Some(text) => r matches Ok(written) && written@ == text,
                None => r == Err::<String, KuzzleError>(KuzzleError::Serialization),
            },
    {
        let json = self.to_json();
        match value_text(&json) {
            Ok(text) => Ok(text),
            Err(_) => Err(KuzzleError::Serialization),
        }
    }

    /// The request that `json` carries, with `fallback_id` as its identifier
    /// where `json` names none.
    pub fn from_json(json: &serde_json::Value, fallback_id: String) -> (r: Result<
        Request,
        KuzzleError,
    >)
        ensures
            decoded_view(r) == request_of_model(json_model(*json), fallback_id@),
    {
        let request_id = match read_defaulted_text(json, "requestId", fallback_id) {
            Ok(text) => text,
            Err(e) => return Err(e),
        };
        let action = match read_text(json, "action") {
            Ok(text) => text,
            Err(e) => return Err(e),
        };
        let controller = match read_text(json, "controller") {
            Ok(text) => text,
            Err(e) => return Err(e),
        };
        let index = match read_optional_text(json, "index") {
            Ok(text) => text,
            Err(e) => return Err(e),
        };
        let collection = match read_optional_text(json, "collection") {
            Ok(text) => text,
            Err(e) => return Err(e),
        };
        let jwt = match read_optional_text(json, "jwt") {
            Ok(text) => text,
            Err(e) => return Err(e),
        };
        let body = read_optional_value(json, "body");
        Ok(Request { request_id, action, controller, index, collection, jwt, body })
    }

    /// The request that the JSON text `text` carries, with `fallback_id` as
    /// its identifier where the text names none.
    pub fn from_text(text: &str, fallback_id: String) -> (r: Result<Request, KuzzleError>)
        ensures
            decoded_view(r) == request_of_text(text@, fallback_id@),
    {
        match parse_value(text) {
            Ok(json) => Request::from_json(&json, fallback_id),
            Err(_) => Err(KuzzleError::Deserialization),
        }
    }
}

/// Whether `r` is what `json` decodes to when `id` stands in for a missing
/// identifier.
pub open spec fn forged_with(json: JsonModel, id: Seq<char>, r: Result<Request, KuzzleError>) -> bool {
    is_uuid_text(id) && decoded_view(r) == request_of_model(json, id)
}

/// The request that `json` carries. Where `json` names no identifier, the
/// request gets a fresh UUID.
pub fn forge_request_from_json(json: serde_json::Value) -> (r: Result<Request, KuzzleError>)
    ensures
        exists|id: Seq<char>| #[trigger] forged_with(json_model(json), id, r),
{
    let id = default_uuid_string();
    let ghost fresh = id@;
    let r = Request::from_json(&json, id);
    assert(forged_with(json_model(json), fresh, r));
    r
}

/// A request that is written as a JSON object and read back is the same
/// request, whatever identifier stands by for a missing one. A payload that
/// is `null` is the exception: it is written as `null`, which reads as no
/// payload.
pub proof fn lemma_request_round_trip(request: RequestView, fallback_id: Seq<char>)
    requires
        request.body != Some(JsonModel::Null),
    ensures
        request_of_model(request_model(request), fallback_id) == Ok::<RequestView, KuzzleError>(
            request,
        ),
{
    lemma_member_names_differ();
    let json = request_model(request);
    assert(json.member("requestId"@) == Some(JsonModel::Text(request.request_id)));
    assert(json.member("action"@) == Some(JsonModel::Text(request.action)));
    assert(json.member("controller"@) == Some(JsonModel::Text(request.controller)));
    assert(optional_text(json, "index"@) == Ok::<Option<Seq<char>>, KuzzleError>(request.index));
    assert(optional_text(json, "collection"@) == Ok::<Option<Seq<char>>, KuzzleError>(
        request.collection,
    ));
    assert(optional_text(json, "jwt"@) == Ok::<Option<Seq<char>>, KuzzleError>(request.jwt));
    assert(optional_value(json, "body"@) == request.body);
}

/// A JSON object without a `requestId` reads as a request whose identifier is
/// the one that stood by.
pub proof fn lemma_missing_id_is_replaced(json: JsonModel, fallback_id: Seq<char>)
    requires
        json.member("requestId"@) is None,
    ensures
        request_of_model(json, fallback_id) matches Ok(request) ==> request.request_id
            == fallback_id,
{
}

} // verus!
