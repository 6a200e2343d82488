use kuzzle::api::objects;
use kuzzle::types::Response;
use kuzzle::KuzzleError;
use serde_json::Value;

fn parse(text: &str) -> Value {
    serde_json::from_str(text).unwrap()
}

#[test]
fn test_response_serde() {
    let response_str = String::from(
        r#"{
                "requestId":"0",
                "status":200,
                "node":"foo",
                "action":"bar",
                "controller":"baz",
                "index":"qux",
                "collection":"quux",
                "error": {
                    "message":"error message",
                    "code":1
                }
            }"#,
    );

    let response: Response = Response::from_text(&response_str).unwrap();

    assert_eq!(response.request_id, "0");
    assert_eq!(response.status, 200);
    assert_eq!(response.node, Some(String::from("foo")));
    assert_eq!(response.action, String::from("bar"));
    assert_eq!(response.controller, String::from("baz"));
    assert_eq!(response.index, Some(String::from("qux")));
    assert_eq!(response.collection, Some(String::from("quux")));
    assert_eq!(
        response.error,
        Some(parse(r#"{"message":"error message", "code":1 }"#))
    );
    assert_eq!(response.result, None);
    assert_eq!(response.volatile, None);
}

#[test]
fn response_round_trips_through_text() {
    let response = Response {
        request_id: String::from("id"),
        status: 206,
        node: Some(String::from("node-1")),
        action: String::from("search"),
        controller: String::from("document"),
        index: Some(String::from("nyc")),
        collection: None,
        error: None,
        result: Some(parse(r#"{"hits":[{"_id":"a"},{"_id":"b"}],"total":2}"#)),
        volatile: Some(parse(r#"{"sdk":"rust"}"#)),
    };
    let back = Response::from_text(&response.to_text().unwrap()).unwrap();
    assert_eq!(back.request_id, response.request_id);
    assert_eq!(back.status, response.status);
    assert_eq!(back.node, response.node);
    assert_eq!(back.action, response.action);
    assert_eq!(back.controller, response.controller);
    assert_eq!(back.index, response.index);
    assert_eq!(back.collection, response.collection);
    assert_eq!(back.error, response.error);
    assert_eq!(back.result, response.result);
    assert_eq!(back.volatile, response.volatile);
}

#[test]
fn response_wire_object_has_exact_member_names() {
    let response = Response {
        request_id: String::from("id"),
        status: 200,
        node: Some(String::from("n")),
        action: String::from("a"),
        controller: String::from("c"),
        index: Some(String::from("i")),
        collection: Some(String::from("l")),
        error: Some(parse(r#"{"message":"m","code":3}"#)),
        result: Some(parse("[1]")),
        volatile: Some(parse("true")),
    };
    assert_eq!(
        response.to_json(),
        parse(
            r#"{"requestId":"id","status":200,"node":"n","action":"a","controller":"c",
                "index":"i","collection":"l","error":{"message":"m","code":3},"result":[1],
                "volatile":true}"#
        )
    );
}

#[test]
fn status_bounds() {
    let at = |status: &str| {
        Response::from_text(&format!(
            r#"{{"requestId":"0","action":"a","controller":"c","status":{}}}"#,
            status
        ))
    };
    assert_eq!(at("0").unwrap().status, 0);
    assert_eq!(at("65535").unwrap().status, 65535);
    assert_eq!(at("65536").err(), Some(KuzzleError::Deserialization));
    assert_eq!(at("-1").err(), Some(KuzzleError::Deserialization));
    assert_eq!(at("200.5").err(), Some(KuzzleError::Deserialization));
    assert_eq!(at("200.0").err(), Some(KuzzleError::Deserialization));
    assert_eq!(at("\"200\"").err(), Some(KuzzleError::Deserialization));
    assert_eq!(at("null").err(), Some(KuzzleError::Deserialization));
}

#[test]
fn malformed_responses_are_refused() {
    let refused = [
        "NOT A VALID JSON STRING",
        "",
        r#"{"requestId":"0","action":"a","controller":"c"}"#,
        r#"{"status":200,"action":"a","controller":"c"}"#,
        r#"{"requestId":"0","status":200,"controller":"c"}"#,
        r#"{"requestId":"0","status":200,"action":"a"}"#,
        r#"{"requestId":null,"status":200,"action":"a","controller":"c"}"#,
        r#"{"requestId":"0","status":200,"action":"a","controller":"c","node":1}"#,
        r#"{"requestId":"0","status":200,"action":"a","controller":"c","index":[]}"#,
        r#"{"requestId":"0","status":200,"action":"a","controller":"c","collection":false}"#,
        r#"[200]"#,
    ];
    for text in refused {
        assert_eq!(
            Response::from_text(text).err(),
            Some(KuzzleError::Deserialization),
            "{}",
            text
        );
    }
}

#[test]
fn error_only_reply_exposes_status_and_error() {
    let response = Response::from_text(
        r#"{"requestId":"9","status":404,"action":"get","controller":"document",
            "error":{"message":"Not found","code":117506049,"stack":["a","b"]}}"#,
    )
    .unwrap();
    assert_eq!(response.status, 404);
    assert_eq!(
        response.error,
        Some(parse(r#"{"message":"Not found","code":117506049,"stack":["a","b"]}"#))
    );
    assert_eq!(response.result, None);
}

#[test]
fn null_payloads_read_as_absent() {
    let response = Response::from_text(
        r#"{"requestId":"9","status":200,"action":"a","controller":"c","node":null,
            "index":null,"collection":null,"error":null,"result":null,"volatile":null}"#,
    )
    .unwrap();
    assert_eq!(response.node, None);
    assert_eq!(response.index, None);
    assert_eq!(response.collection, None);
    assert_eq!(response.error, None);
    assert_eq!(response.result, None);
    assert_eq!(response.volatile, None);
}

#[test]
fn api_response_getters() {
    let response = objects::Response::from_text(
        r#"{"status":200,"room":"room-1","result":{"count":1},"volatile":{"who":"me"},
            "action":"publish","controller":"realtime"}"#,
    )
    .unwrap();
    assert_eq!(response.get_status(), &200);
    assert_eq!(response.get_room(), Some(&String::from("room-1")));
    assert_eq!(response.get_result(), Some(&parse(r#"{"count":1}"#)));
    assert_eq!(response.get_volatile(), Some(&parse(r#"{"who":"me"}"#)));
    assert_eq!(response.get_error(), None);
    assert_eq!(response.action, Some(String::from("publish")));
    assert_eq!(response.controller, Some(String::from("realtime")));
    assert_eq!(response.index, None);
    assert_eq!(response.collection, None);
}

#[test]
fn api_response_with_error() {
    let response =
        objects::Response::from_text(r#"{"status":500,"error":{"message":"boom","code":1}}"#)
            .unwrap();
    assert_eq!(response.get_status(), &500);
    assert_eq!(response.get_error(), Some(&parse(r#"{"message":"boom","code":1}"#)));
    assert_eq!(response.get_result(), None);
    assert_eq!(response.get_room(), None);
    assert_eq!(response.get_volatile(), None);
}

#[test]
fn api_response_round_trips_with_room() {
    let response = objects::Response {
        action: Some(String::from("publish")),
        collection: Some(String::from("taxis")),
        controller: Some(String::from("realtime")),
        error: None,
        index: Some(String::from("nyc")),
        result: Some(parse(r#"{"_source":{"a":1}}"#)),
        room: Some(String::from("4d7c-room")),
        status: 200,
        volatile: None,
    };
    let text = response.to_text().unwrap();
    let back = objects::Response::from_text(&text).unwrap();
    assert_eq!(back.room, Some(String::from("4d7c-room")));
    assert_eq!(back.action, response.action);
    assert_eq!(back.collection, response.collection);
    assert_eq!(back.controller, response.controller);
    assert_eq!(back.error, response.error);
    assert_eq!(back.index, response.index);
    assert_eq!(back.result, response.result);
    assert_eq!(back.status, response.status);
    assert_eq!(back.volatile, response.volatile);
    assert_eq!(
        response.to_json(),
        parse(
            r#"{"action":"publish","collection":"taxis","controller":"realtime","index":"nyc",
                "result":{"_source":{"a":1}},"room":"4d7c-room","status":200}"#
        )
    );
}

#[test]
fn api_response_needs_a_status() {
    for text in [r#"{"room":"r"}"#, r#"{"status":70000}"#, r#"{"status":200,"room":5}"#, "nope"] {
        assert_eq!(
            objects::Response::from_text(text).err(),
            Some(KuzzleError::Deserialization),
            "{}",
            text
        );
    }
}
