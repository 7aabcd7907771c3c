use cider_api::outcome::{passthrough, passthrough_from};
use cider_api::{CiderClient, CiderError, HttpFailure, Json, Method, Request, Response, WireValue};

fn wire(request: &Request) -> serde_json::Value {
    let mut object = serde_json::Map::new();
    for (name, value) in request.body.members() {
        let value = match value {
            WireValue::Text(s) => serde_json::Value::from(s),
            WireValue::Integer(n) => serde_json::Value::from(n),
            WireValue::Flag(b) => serde_json::Value::from(b),
            WireValue::Single(x) => serde_json::Value::from(f32::from_bits(x.bits)),
            WireValue::Double(x) => serde_json::Value::from(f64::from_bits(x.bits)),
        };
        object.insert(name, value);
    }
    serde_json::Value::Object(object)
}

fn json(text: &str) -> serde_json::Value {
    serde_json::from_str(text).unwrap()
}

fn answer(status: u16, body: &str) -> Result<Response, reqwest::Error> {
    Ok(Response { status, body: body.to_string() })
}

fn tree(value: &Json) -> serde_json::Value {
    match value {
        Json::Null => serde_json::Value::Null,
        Json::Bool(b) => serde_json::Value::from(*b),
        Json::Number(n) => match (n.unsigned, n.signed, n.binary64) {
            (Some(u), _, _) => serde_json::Value::from(u),
            (None, Some(i), _) => serde_json::Value::from(i),
            (None, None, Some(x)) => serde_json::Value::from(f64::from_bits(x.bits)),
            (None, None, None) => panic!("a number without a reading"),
        },
        Json::Text(s) => serde_json::Value::from(s.as_str()),
        Json::Array(items) => serde_json::Value::Array(items.iter().map(tree).collect()),
        Json::Object(members) => serde_json::Value::Object(
            members.iter().map(|(name, value)| (name.clone(), tree(value))).collect(),
        ),
    }
}

#[test]
fn amapi_run_v3_sends_path_and_returns_json() {
    let apple_response = r#"{"results": { "songs": { "data": [{"id": "123"}] } }}"#;
    let request = CiderClient::new().amapi_run_v3("/v1/catalog/us/search?term=flume");
    assert_eq!(request.method, Method::Post);
    assert_eq!(request.url, "http://127.0.0.1:10767/api/v1/amapi/run-v3");
    assert_eq!(wire(&request), json(r#"{"path": "/v1/catalog/us/search?term=flume"}"#));

    let result = passthrough(answer(200, apple_response)).unwrap();
    let data = result
        .member("results")
        .and_then(|r| r.member("songs"))
        .and_then(|s| s.member("data"))
        .unwrap();
    assert!(data.as_items().is_some());
    assert_eq!(tree(&result), json(apple_response));
}

#[test]
fn amapi_run_v3_error_on_500() {
    let _ = CiderClient::new().amapi_run_v3("/v1/me/library/songs");
    let err = passthrough(answer(500, "")).unwrap_err();
    assert!(matches!(err, CiderError::Http(_)));
}

#[test]
fn amapi_run_v3_is_not_in_the_playback_namespace() {
    let request = CiderClient::with_base_url("http://h:1").amapi_run_v3("/v1/x");
    assert_eq!(request.url, "http://h:1/api/v1/amapi/run-v3");
    assert!(!request.url.contains("/playback"));
}

#[test]
fn passthrough_fails_with_the_status_before_it_reads_the_body() {
    for status in [199u16, 300, 301, 400, 404, 500, 599] {
        match passthrough(answer(status, r#"{"ok": true}"#)) {
            Err(CiderError::Http(HttpFailure::Status(code))) => assert_eq!(code, status),
            other => panic!("status {status}: {other:?}"),
        }
    }
    match passthrough_from(500, Some(Json::Null)) {
        Err(CiderError::Http(HttpFailure::Status(code))) => assert_eq!(code, 500),
        other => panic!("unexpected: {other:?}"),
    }
}

#[test]
fn passthrough_fails_on_a_body_that_is_no_document() {
    for body in ["", "{", "nope", r#"{"a": }"#, "1 2"] {
        assert!(
            matches!(passthrough(answer(200, body)), Err(CiderError::Http(HttpFailure::Body))),
            "body {body}"
        );
    }
    assert!(matches!(passthrough_from(200, None), Err(CiderError::Http(HttpFailure::Body))));
}

#[test]
fn passthrough_returns_every_kind_of_document_as_it_came() {
    for body in [
        "null",
        "true",
        "false",
        "0",
        "-7",
        "18446744073709551615",
        "-9223372036854775808",
        "1.5",
        "-2.5e10",
        r#""text with \"quotes\" and é""#,
        "[]",
        "{}",
        r#"[1, "two", [3, [4]], {"five": null}]"#,
        r#"{"b": 1, "a": {"d": [true, false], "c": "x"}}"#,
    ] {
        for status in [200u16, 201, 204, 299] {
            let result = passthrough(answer(status, body)).unwrap();
            assert_eq!(tree(&result), json(body), "body {body}");
        }
    }
}

#[test]
fn a_document_keeps_the_last_of_two_members_of_one_name() {
    let result = passthrough(answer(200, r#"{"a": 1, "a": 2}"#)).unwrap();
    assert_eq!(result.member("a").and_then(Json::as_unsigned), Some(2));
}

#[test]
fn json_readers_tell_the_kinds_apart() {
    let doc = passthrough(answer(
        200,
        r#"{"t": "x", "b": true, "u": 7, "i": -7, "r": 1.5, "a": [1], "o": {}, "n": null}"#,
    ))
    .unwrap();
    assert!(doc.is_object());
    assert_eq!(doc.member("t").unwrap().as_text().map(String::as_str), Some("x"));
    assert_eq!(doc.member("b").unwrap().as_flag(), Some(true));
    assert_eq!(doc.member("u").unwrap().as_unsigned(), Some(7));
    assert_eq!(doc.member("i").unwrap().as_unsigned(), None);
    assert_eq!(doc.member("r").unwrap().as_unsigned(), None);
    assert_eq!(doc.member("r").unwrap().as_binary64().map(|x| f64::from_bits(x.bits)), Some(1.5));
    assert_eq!(doc.member("u").unwrap().as_binary64().map(|x| f64::from_bits(x.bits)), Some(7.0));
    assert_eq!(doc.member("i").unwrap().as_binary64().map(|x| f64::from_bits(x.bits)), Some(-7.0));
    assert_eq!(doc.member("a").unwrap().as_items().map(Vec::len), Some(1));
    assert!(doc.member("o").unwrap().is_object());
    assert!(matches!(doc.member("n"), Some(Json::Null)));
    assert!(doc.member("missing").is_none());
    assert!(doc.member("T").is_none());
    assert!(doc.member("").is_none());
    assert!(doc.member("t").unwrap().member("t").is_none());
    assert_eq!(doc.member("t").unwrap().as_flag(), None);
    assert_eq!(doc.member("b").unwrap().as_text(), None);
    assert!(!doc.member("a").unwrap().is_object());
    assert!(doc.member("o").unwrap().as_items().is_none());
}

#[test]
fn a_copy_of_a_document_is_the_same_document() {
    let body = r#"{"b": [1, {"c": "x", "d": [null, 2.5]}], "a": "y"}"#;
    let doc = passthrough(answer(200, body)).unwrap();
    let copy = doc.clone();
    assert_eq!(tree(&copy), tree(&doc));
    assert_eq!(tree(&copy), json(body));
}
