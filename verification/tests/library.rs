use cider_api::outcome::command;
use cider_api::{CiderClient, Method, Request, Response, WireValue};

fn wire(request: &Request) -> serde_json::Value {
    let mut object = serde_json::Map::new();
    for (name, value) in request.body.members() {
        let value = match value {
            WireValue::Text(s) => serde_json::Value::from(s),
            WireValue::Integer(n) => serde_json::Value::from(n),
            WireValue::Flag(b) => serde_json::Value::from(b),
            WireValue::Single(x) => serde_json::Value::from(f32::from_bits(x.bits)),
            WireValue::Double(x) => serde_json::Value::from(f64::from_bits(x.bits)),
        };
        object.insert(name, value);
    }
    serde_json::Value::Object(object)
}

fn json(text: &str) -> serde_json::Value {
    serde_json::from_str(text).unwrap()
}

fn answer(status: u16, body: &str) -> Result<Response, reqwest::Error> {
    Ok(Response { status, body: body.to_string() })
}

#[test]
fn add_to_library_ok() {
    let request = CiderClient::new().add_to_library();
    assert_eq!(request.method, Method::Post);
    assert_eq!(request.url, "http://127.0.0.1:10767/api/v1/playback/add-to-library");
    assert!(!request.body.is_present());
    command(answer(200, "")).unwrap();
}

fn check_rating(given: i8, sent: &str) {
    let request = CiderClient::new().set_rating(given);
    assert_eq!(request.method, Method::Post);
    assert_eq!(request.url, "http://127.0.0.1:10767/api/v1/playback/set-rating");
    assert_eq!(wire(&request), json(sent));
    command(answer(200, "")).unwrap();
}

#[test]
fn set_rating_like() {
    check_rating(1, r#"{"rating": 1}"#);
}

#[test]
fn set_rating_dislike() {
    check_rating(-1, r#"{"rating": -1}"#);
}

#[test]
fn set_rating_clamps_above_1() {
    check_rating(5, r#"{"rating": 1}"#);
}

#[test]
fn set_rating_clamps_below_neg1() {
    check_rating(-10, r#"{"rating": -1}"#);
}

#[test]
fn set_rating_unset() {
    check_rating(0, r#"{"rating": 0}"#);
}

#[test]
fn set_rating_is_clamped_for_every_rating() {
    for given in i8::MIN..=i8::MAX {
        let request = CiderClient::new().set_rating(given);
        match request.body {
            cider_api::RequestBody::Rating(body) => {
                assert_eq!(body.rating, given.clamp(-1, 1), "rating {given}")
            },
            other => panic!("unexpected: {other:?}"),
        }
    }
}
