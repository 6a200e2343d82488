use kuzzle::types::request::forge_request_from_json;
use kuzzle::types::Request;
use kuzzle::KuzzleError;
use serde_json::{from_value, Value};
use uuid::Uuid;

fn parse(text: &str) -> Value {
    serde_json::from_str(text).unwrap()
}

#[test]
fn from_json_macro() {
    let request: Request = forge_request_from_json(parse(
        r#"{
            "action": "fakeAction",
            "controller": "fakeController",
            "jwt": "fakeToken",
            "body": {
                "query": {
                    "term": 42
                }
            }
        }"#,
    ))
    .unwrap();

    assert_eq!("fakeAction", &request.action);
    assert_eq!("fakeController", &request.controller);
    assert_eq!(
        42,
        from_value::<i32>(request.body.unwrap()["query"]["term"].clone()).unwrap()
    );
    assert!(Uuid::parse_str(&request.request_id).is_ok());
    assert_eq!("fakeToken", &request.jwt.unwrap());
}

#[test]
fn with_empty_body() {
    let request: Request = forge_request_from_json(parse(
        r#"{
            "action": "fakeAction",
            "controller": "fakeController"
        }"#,
    ))
    .unwrap();

    assert_eq!("fakeAction", &request.action);
    assert_eq!("fakeController", &request.controller);
}

fn full_request() -> Request {
    Request {
        request_id: String::from("my-id"),
        action: String::from("search"),
        controller: String::from("document"),
        index: Some(String::from("nyc")),
        collection: Some(String::from("taxis")),
        jwt: Some(String::from("token")),
        body: Some(parse(r#"{"query":{"term":42},"list":[1,"two",null,2.5]}"#)),
    }
}

fn assert_same(left: &Request, right: &Request) {
    assert_eq!(left.request_id, right.request_id);
    assert_eq!(left.action, right.action);
    assert_eq!(left.controller, right.controller);
    assert_eq!(left.index, right.index);
    assert_eq!(left.collection, right.collection);
    assert_eq!(left.jwt, right.jwt);
    assert_eq!(left.body, right.body);
}

#[test]
fn request_round_trips_through_text() {
    let request = full_request();
    let text = request.to_text().unwrap();
    let back = Request::from_text(&text, String::from("unused")).unwrap();
    assert_same(&request, &back);
}

#[test]
fn request_round_trips_through_json() {
    let request = Request {
        request_id: String::from("id"),
        action: String::from("now"),
        controller: String::from("server"),
        index: None,
        collection: None,
        jwt: None,
        body: None,
    };
    let back = Request::from_json(&request.to_json(), String::from("unused")).unwrap();
    assert_same(&request, &back);
}

#[test]
fn request_wire_object_has_exact_member_names() {
    let json = full_request().to_json();
    assert_eq!(
        json,
        parse(
            r#"{
                "requestId": "my-id",
                "action": "search",
                "controller": "document",
                "index": "nyc",
                "collection": "taxis",
                "jwt": "token",
                "body": {"query":{"term":42},"list":[1,"two",null,2.5]}
            }"#
        )
    );
}

#[test]
fn absent_members_are_left_out_of_the_wire_object() {
    let request = Request {
        request_id: String::from("id"),
        action: String::from("now"),
        controller: String::from("server"),
        index: None,
        collection: None,
        jwt: None,
        body: None,
    };
    assert_eq!(
        request.to_json(),
        parse(r#"{"requestId":"id","action":"now","controller":"server"}"#)
    );
    let text = request.to_text().unwrap();
    assert!(!text.contains("index"));
    assert!(!text.contains("null"));
}

#[test]
fn encoding_twice_gives_the_same_text() {
    let request = forge_request_from_json(parse(r#"{"controller":"server","action":"now"}"#))
        .unwrap();
    assert_eq!(request.to_text().unwrap(), request.to_text().unwrap());
}

#[test]
fn missing_request_id_takes_the_fallback() {
    let json = parse(r#"{"controller":"server","action":"now"}"#);
    let request = Request::from_json(&json, String::from("fallback")).unwrap();
    assert_eq!(request.request_id, "fallback");
}

#[test]
fn given_request_id_is_kept() {
    let json = parse(r#"{"requestId":"mine","controller":"server","action":"now"}"#);
    let request = Request::from_json(&json, String::from("fallback")).unwrap();
    assert_eq!(request.request_id, "mine");
    let request = forge_request_from_json(json).unwrap();
    assert_eq!(request.request_id, "mine");
}

#[test]
fn generated_request_id_is_a_hyphenated_version_4_uuid() {
    let json = parse(r#"{"controller":"server","action":"now"}"#);
    let first = forge_request_from_json(json.clone()).unwrap().request_id;
    let second = forge_request_from_json(json).unwrap().request_id;
    assert_ne!(first, second);
    for id in [first, second] {
        assert_eq!(id.len(), 36);
        for (i, c) in id.chars().enumerate() {
            if i == 8 || i == 13 || i == 18 || i == 23 {
                assert_eq!(c, '-');
            } else {
                assert!(c.is_ascii_digit() || ('a'..='f').contains(&c));
            }
        }
        assert_eq!(id.as_bytes()[14], b'4');
        assert!(matches!(id.as_bytes()[19], b'8' | b'9' | b'a' | b'b'));
        assert_eq!(Uuid::parse_str(&id).unwrap().get_version_num(), 4);
    }
}

#[test]
fn null_members_read_as_absent() {
    let json = parse(
        r#"{"controller":"server","action":"now","index":null,"collection":null,"jwt":null,"body":null}"#,
    );
    let request = Request::from_json(&json, String::from("id")).unwrap();
    assert_eq!(request.index, None);
    assert_eq!(request.collection, None);
    assert_eq!(request.jwt, None);
    assert_eq!(request.body, None);
}

#[test]
fn null_body_does_not_round_trip() {
    let mut request = full_request();
    request.body = Some(Value::Null);
    let back = Request::from_json(&request.to_json(), String::from("id")).unwrap();
    assert_eq!(back.body, None);
}

#[test]
fn unknown_members_are_ignored() {
    let json = parse(r#"{"controller":"server","action":"now","extra":[1,2,3]}"#);
    assert!(Request::from_json(&json, String::from("id")).is_ok());
}

#[test]
fn malformed_requests_are_refused() {
    let refused = [
        r#"{"controller":"server"}"#,
        r#"{"action":"now"}"#,
        r#"{"controller":"server","action":7}"#,
        r#"{"controller":null,"action":"now"}"#,
        r#"{"requestId":null,"controller":"server","action":"now"}"#,
        r#"{"requestId":12,"controller":"server","action":"now"}"#,
        r#"{"controller":"server","action":"now","index":3}"#,
        r#"{"controller":"server","action":"now","collection":{}}"#,
        r#"{"controller":"server","action":"now","jwt":true}"#,
        r#"["server","now"]"#,
        r#""server""#,
        r#"null"#,
    ];
    for text in refused {
        let result = Request::from_json(&parse(text), String::from("id"));
        assert_eq!(result.err(), Some(KuzzleError::Deserialization), "{}", text);
        let result = Request::from_text(text, String::from("id"));
        assert_eq!(result.err(), Some(KuzzleError::Deserialization), "{}", text);
    }
}

#[test]
fn text_that_is_not_json_is_refused() {
    let result = Request::from_text("{\"controller\":", String::from("id"));
    assert_eq!(result.err(), Some(KuzzleError::Deserialization));
}
