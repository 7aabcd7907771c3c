use cider_api::outcome::command;
use cider_api::{CiderClient, Method, Request, Response, WireValue};

fn wire(request: &Request) -> serde_json::Value {
    let mut object = serde_json::Map::new();
    for (name, value) in request.body.members() {
        let value = match value {
            WireValue::Text(s) => serde_json::Value::from(s),
            WireValue::Integer(n) => serde_json::Value::from(n),
            WireValue::Flag(b) => serde_json::Value::from(b),
            WireValue::Single(x) => serde_json::Value::from(f32::from_bits(x.bits)),
            WireValue::Double(x) => serde_json::Value::from(f64::from_bits(x.bits)),
        };
        object.insert(name, value);
    }
    serde_json::Value::Object(object)
}

fn json(text: &str) -> serde_json::Value {
    serde_json::from_str(text).unwrap()
}

fn answer(status: u16, body: &str) -> Result<Response, reqwest::Error> {
    Ok(Response { status, body: body.to_string() })
}

#[test]
fn play_url_sends_correct_body() {
    let request = CiderClient::new().play_url("https://music.apple.com/ca/album/skin/1719860281");
    assert_eq!(request.method, Method::Post);
    assert_eq!(request.url, "http://127.0.0.1:10767/api/v1/playback/play-url");
    assert_eq!(
        wire(&request),
        json(r#"{"url": "https://music.apple.com/ca/album/skin/1719860281"}"#)
    );
    command(answer(200, "")).unwrap();
}

#[test]
fn play_item_sends_type_and_id() {
    let request = CiderClient::new().play_item("songs", "1719861213");
    assert_eq!(request.method, Method::Post);
    assert_eq!(request.url, "http://127.0.0.1:10767/api/v1/playback/play-item");
    assert_eq!(wire(&request), json(r#"{"type": "songs", "id": "1719861213"}"#));
    command(answer(200, "")).unwrap();
}

#[test]
fn play_item_href_sends_href() {
    let request = CiderClient::new().play_item_href("/v1/catalog/ca/songs/1719861213");
    assert_eq!(request.method, Method::Post);
    assert_eq!(request.url, "http://127.0.0.1:10767/api/v1/playback/play-item-href");
    assert_eq!(wire(&request), json(r#"{"href": "/v1/catalog/ca/songs/1719861213"}"#));
    command(answer(200, "")).unwrap();
}

#[test]
fn play_next_sends_type_and_id() {
    let request = CiderClient::new().play_next("songs", "123");
    assert_eq!(request.method, Method::Post);
    assert_eq!(request.url, "http://127.0.0.1:10767/api/v1/playback/play-next");
    assert_eq!(wire(&request), json(r#"{"type": "songs", "id": "123"}"#));
    command(answer(200, "")).unwrap();
}

#[test]
fn play_later_sends_type_and_id() {
    let request = CiderClient::new().play_later("albums", "456");
    assert_eq!(request.method, Method::Post);
    assert_eq!(request.url, "http://127.0.0.1:10767/api/v1/playback/play-later");
    assert_eq!(wire(&request), json(r#"{"type": "albums", "id": "456"}"#));
    command(answer(200, "")).unwrap();
}

#[test]
fn play_item_writes_type_before_id() {
    let members = CiderClient::new().play_item("songs", "1").body.members();
    let names: Vec<&str> = members.iter().map(|(n, _)| n.as_str()).collect();
    assert_eq!(names, vec!["type", "id"]);
}

#[test]
fn play_targets_send_exactly_one_form() {
    let client = CiderClient::new();
    assert_eq!(client.play_url("u").body.members().len(), 1);
    assert_eq!(client.play_item_href("h").body.members().len(), 1);
    assert_eq!(client.play_item("t", "i").body.members().len(), 2);
    assert!(matches!(client.play_url("u").body, cider_api::RequestBody::PlayUrl(_)));
    assert!(matches!(client.play_item("t", "i").body, cider_api::RequestBody::PlayItem(_)));
    assert!(matches!(client.play_item_href("h").body, cider_api::RequestBody::PlayItemHref(_)));
}
