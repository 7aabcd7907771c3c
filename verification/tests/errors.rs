use cider_api::outcome::{active, command, connection_failure, is_playing, now_playing, passthrough, queue, volume};
use cider_api::{CiderClient, CiderError, Float32, HttpFailure, Method, Response};

fn answer(status: u16, body: &str) -> Result<Response, reqwest::Error> {
    Ok(Response { status, body: body.to_string() })
}

fn builder_error() -> reqwest::Error {
    reqwest::Client::new().get("not a url").build().unwrap_err()
}

fn refused() -> reqwest::Error {
    let runtime = tokio::runtime::Builder::new_current_thread().enable_all().build().unwrap();
    let client = reqwest::Client::new();
    runtime
        .block_on(client.get("http://127.0.0.1:1/api/v1/playback/active").send())
        .unwrap_err()
}

#[test]
fn token_is_sent_in_apitoken_header() {
    let client = CiderClient::with_base_url("http://127.0.0.1:4321").with_token("secret-123");
    let request = client.is_active();
    assert_eq!(request.method, Method::Get);
    assert_eq!(request.url, "http://127.0.0.1:4321/api/v1/playback/active");
    assert_eq!(request.headers, vec![("apptoken".to_string(), "secret-123".to_string())]);
    active(answer(204, "")).unwrap();
}

#[test]
fn token_is_sent_on_post_requests() {
    let client = CiderClient::with_base_url("http://127.0.0.1:4321").with_token("tok");
    let request = client.play();
    assert_eq!(request.method, Method::Post);
    assert_eq!(request.url, "http://127.0.0.1:4321/api/v1/playback/play");
    assert_eq!(request.headers, vec![("apptoken".to_string(), "tok".to_string())]);
    command(answer(200, "")).unwrap();
}

#[test]
fn token_is_sent_on_every_operation() {
    let client = CiderClient::new().with_token("t0k3n");
    let single = Float32::from_bits(0);
    let double = cider_api::Float64::from_bits(0);
    let requests = vec![
        client.is_active(), client.is_playing(), client.now_playing(), client.play(),
        client.pause(), client.play_pause(), client.stop(), client.next(), client.previous(),
        client.seek(double), client.play_url("u"), client.play_item("t", "i"),
        client.play_item_href("h"), client.play_next("t", "i"), client.play_later("t", "i"),
        client.get_queue(), client.queue_move_to_position(1, 2), client.queue_remove_by_index(1),
        client.clear_queue(), client.get_volume(), client.set_volume(single),
        client.add_to_library(), client.set_rating(0), client.get_repeat_mode(),
        client.toggle_repeat(), client.get_shuffle_mode(), client.toggle_shuffle(),
        client.get_autoplay(), client.toggle_autoplay(), client.amapi_run_v3("/p"),
        client.request(Method::Get, "/x"), client.request_raw(Method::Post, "/y"),
    ];
    let bare = CiderClient::new();
    let without = vec![bare.is_active(), bare.play(), bare.set_rating(1), bare.amapi_run_v3("/p")];
    for request in requests {
        assert_eq!(
            request.headers,
            vec![("apptoken".to_string(), "t0k3n".to_string())],
            "url {}",
            request.url
        );
    }
    for request in without {
        assert!(request.headers.is_empty(), "url {}", request.url);
    }
}

#[test]
fn fire_and_forget_error_on_500() {
    let err = command(answer(500, "")).unwrap_err();
    assert!(matches!(err, CiderError::Http(_)));
}

#[test]
fn is_playing_error_on_server_error() {
    assert!(is_playing(answer(500, "")).is_err());
}

#[test]
fn get_volume_error_on_server_error() {
    assert!(volume(answer(500, "")).is_err());
}

#[test]
fn set_volume_error_on_server_error() {
    let _ = CiderClient::new().set_volume(Float32::from_bits(0.5f32.to_bits()));
    assert!(command(answer(500, "")).is_err());
}

#[test]
fn command_error_holds_the_status() {
    match command(answer(404, "")).unwrap_err() {
        CiderError::Http(HttpFailure::Status(code)) => assert_eq!(code, 404),
        other => panic!("unexpected: {other:?}"),
    }
    match command(answer(302, "")).unwrap_err() {
        CiderError::Http(HttpFailure::Status(code)) => assert_eq!(code, 302),
        other => panic!("unexpected: {other:?}"),
    }
}

#[test]
fn transport_failure_is_passed_on() {
    assert!(matches!(
        command(Err(builder_error())),
        Err(CiderError::Http(HttpFailure::Transport(e))) if e.is_builder()
    ));
    assert!(matches!(
        is_playing(Err(builder_error())),
        Err(CiderError::Http(HttpFailure::Transport(_)))
    ));
    assert!(matches!(
        volume(Err(builder_error())),
        Err(CiderError::Http(HttpFailure::Transport(_)))
    ));
    assert!(matches!(
        now_playing(Err(builder_error())),
        Err(CiderError::Http(HttpFailure::Transport(_)))
    ));
    assert!(matches!(
        queue(Err(builder_error())),
        Err(CiderError::Http(HttpFailure::Transport(_)))
    ));
    assert!(matches!(
        passthrough(Err(builder_error())),
        Err(CiderError::Http(HttpFailure::Transport(_)))
    ));
}

#[test]
fn is_active_reports_a_network_error_in_words() {
    let e = builder_error();
    let shown = e.to_string();
    match active(Err(e)) {
        Err(CiderError::Api(m)) => assert_eq!(m, format!("Network error ({shown})")),
        other => panic!("unexpected: {other:?}"),
    }
}

#[test]
fn is_active_reports_a_refused_connection_in_words() {
    let e = refused();
    assert!(e.is_connect());
    let shown = e.to_string();
    match active(Err(e)) {
        Err(CiderError::Api(m)) => assert_eq!(m, format!("Connection refused ({shown})")),
        other => panic!("unexpected: {other:?}"),
    }
}

#[test]
fn a_refused_connection_is_an_http_failure_for_a_command() {
    match command(Err(refused())) {
        Err(CiderError::Http(HttpFailure::Transport(e))) => assert!(e.is_connect()),
        other => panic!("unexpected: {other:?}"),
    }
}

#[test]
fn connection_failure_tells_the_three_causes_apart() {
    let text = |refused, timed_out| match connection_failure(refused, timed_out, "why") {
        CiderError::Api(m) => m,
        other => panic!("unexpected: {other:?}"),
    };
    assert_eq!(text(true, false), "Connection refused (why)");
    assert_eq!(text(true, true), "Connection refused (why)");
    assert_eq!(text(false, true), "Connection timed out");
    assert_eq!(text(false, false), "Network error (why)");
}

#[test]
fn errors_say_what_they_are() {
    assert_eq!(CiderError::NotReachable.message(), "Cider is not running or not reachable");
    assert_eq!(CiderError::Unauthorized.message(), "Invalid API token");
    assert_eq!(CiderError::NothingPlaying.message(), "No track currently playing");
    assert_eq!(CiderError::Api("boom".to_string()).message(), "API error: boom");
    assert_eq!(
        CiderError::Http(HttpFailure::Status(503)).message(),
        "HTTP request failed: HTTP status 503"
    );
    assert_eq!(
        CiderError::Http(HttpFailure::Body).message(),
        "HTTP request failed: error decoding response body"
    );
    let e = builder_error();
    let shown = e.to_string();
    assert_eq!(
        CiderError::Http(HttpFailure::Transport(e)).message(),
        format!("HTTP request failed: {shown}")
    );
    assert_eq!(HttpFailure::Status(7).message(), "HTTP status 7");
}
