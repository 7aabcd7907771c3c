use cider_api::outcome::command;
use cider_api::{CiderClient, Float64, Method, Request, Response, WireValue};

fn wire(request: &Request) -> serde_json::Value {
    let mut object = serde_json::Map::new();
    for (name, value) in request.body.members() {
        let value = match value {
            WireValue::Text(s) => serde_json::Value::from(s),
            WireValue::Integer(n) => serde_json::Value::from(n),
            WireValue::Flag(b) => serde_json::Value::from(b),
            WireValue::Single(x) => serde_json::Value::from(f32::from_bits(x.bits)),
            WireValue::Double(x) => serde_json::Value::from(f64::from_bits(x.bits)),
        };
        object.insert(name, value);
    }
    serde_json::Value::Object(object)
}

fn json(text: &str) -> serde_json::Value {
    serde_json::from_str(text).unwrap()
}

fn answer(status: u16, body: &str) -> Result<Response, reqwest::Error> {
    Ok(Response { status, body: body.to_string() })
}

fn check_command(request: Request, path: &str) {
    assert_eq!(request.method, Method::Post);
    assert_eq!(request.url, format!("http://127.0.0.1:10767{path}"));
    assert!(!request.body.is_present());
    assert!(request.headers.is_empty());
    command(answer(200, "")).unwrap();
}

#[test]
fn play_ok() {
    check_command(CiderClient::new().play(), "/api/v1/playback/play");
}

#[test]
fn pause_ok() {
    check_command(CiderClient::new().pause(), "/api/v1/playback/pause");
}

#[test]
fn play_pause_ok() {
    check_command(CiderClient::new().play_pause(), "/api/v1/playback/playpause");
}

#[test]
fn stop_ok() {
    check_command(CiderClient::new().stop(), "/api/v1/playback/stop");
}

#[test]
fn next_ok() {
    check_command(CiderClient::new().next(), "/api/v1/playback/next");
}

#[test]
fn previous_ok() {
    check_command(CiderClient::new().previous(), "/api/v1/playback/previous");
}

#[test]
fn seek_sends_correct_position() {
    let request = CiderClient::new().seek(Float64::from_bits(30.0f64.to_bits()));
    assert_eq!(request.method, Method::Post);
    assert_eq!(request.url, "http://127.0.0.1:10767/api/v1/playback/seek");
    assert_eq!(wire(&request), json(r#"{"position": 30.0}"#));
    command(answer(200, "")).unwrap();
}

#[test]
fn seek_passes_any_position_on_unchanged() {
    for position in [0.0f64, -0.0, 1.5, -3.25, 1e300, f64::INFINITY, f64::MIN_POSITIVE] {
        let request = CiderClient::new().seek(Float64::from_bits(position.to_bits()));
        match request.body.members().pop().unwrap() {
            (name, WireValue::Double(x)) => {
                assert_eq!(name, "position");
                assert_eq!(x.bits, position.to_bits());
            },
            other => panic!("unexpected: {other:?}"),
        }
    }
}

#[test]
fn command_succeeds_on_every_status_of_success_only() {
    for status in 0u16..=999 {
        let result = command(answer(status, "whatever"));
        if (200..300).contains(&status) {
            assert!(result.is_ok(), "status {status}");
        } else {
            match result {
                Err(cider_api::CiderError::Http(cider_api::HttpFailure::Status(code))) => {
                    assert_eq!(code, status)
                },
                other => panic!("status {status}: {other:?}"),
            }
        }
    }
}
