use cider_api::outcome::{active, active_from, is_playing, now_playing};
use cider_api::{CiderClient, CiderError, Method, Response};

fn answer(status: u16, body: &str) -> Result<Response, reqwest::Error> {
    Ok(Response { status, body: body.to_string() })
}

fn now_playing_json() -> &'static str {
    r#"{
        "status": "ok",
        "info": {
            "name": "Never Be Like You",
            "artistName": "Flume",
            "albumName": "Skin",
            "artwork": {
                "width": 3000,
                "height": 3000,
                "url": "https://example.com/{w}x{h}bb.jpg"
            },
            "durationInMillis": 234000,
            "playParams": { "id": "1719861213", "kind": "song" },
            "url": "https://music.apple.com/ca/album/skin/1719860281",
            "isrc": "AUUM71600506",
            "currentPlaybackTime": 42.5,
            "remainingTime": 191.5,
            "shuffleMode": 1,
            "repeatMode": 0,
            "inFavorites": true,
            "inLibrary": true,
            "genreNames": ["Electronic", "Music"],
            "trackNumber": 3,
            "discNumber": 1,
            "releaseDate": "2016-05-27T12:00:00Z",
            "hasLyrics": true,
            "isAppleDigitalMaster": true,
            "audioTraits": ["lossless", "lossy-stereo"],
            "previews": [{"url": "https://audio-ssl.itunes.apple.com/preview.m4a"}]
        }
    }"#
}

fn is_playing_json(playing: bool) -> String {
    format!(r#"{{"status":"ok","is_playing":{playing}}}"#)
}

#[test]
fn is_active_request_is_a_get_of_active() {
    let req = CiderClient::with_port(9999).is_active();
    assert_eq!(req.method, Method::Get);
    assert_eq!(req.url, "http://127.0.0.1:9999/api/v1/playback/active");
    assert!(!req.body.is_present());
}

#[test]
fn is_active_ok_on_200() {
    active(answer(200, "")).unwrap();
}

#[test]
fn is_active_ok_on_204() {
    active(answer(204, "")).unwrap();
}

#[test]
fn is_active_unauthorized_on_401() {
    let err = active(answer(401, "")).unwrap_err();
    assert!(matches!(err, CiderError::Unauthorized));
}

#[test]
fn is_active_unauthorized_on_403() {
    let err = active(answer(403, "")).unwrap_err();
    assert!(matches!(err, CiderError::Unauthorized));
}

#[test]
fn is_active_api_error_on_unexpected_status() {
    let err = active(answer(418, "")).unwrap_err();
    assert!(matches!(err, CiderError::Api(_)));
}

#[test]
fn is_active_names_the_unexpected_status() {
    match active_from(418) {
        Err(CiderError::Api(m)) => assert_eq!(m, "Unexpected response (HTTP 418)"),
        other => panic!("unexpected: {other:?}"),
    }
    match active_from(500) {
        Err(CiderError::Api(m)) => assert_eq!(m, "Unexpected response (HTTP 500)"),
        other => panic!("unexpected: {other:?}"),
    }
    match active_from(0) {
        Err(CiderError::Api(m)) => assert_eq!(m, "Unexpected response (HTTP 0)"),
        other => panic!("unexpected: {other:?}"),
    }
}

#[test]
fn is_active_takes_no_other_success_status() {
    for status in [201u16, 202, 203, 205, 206, 299, 300, 304, 400, 404, 199] {
        assert!(matches!(active_from(status), Err(CiderError::Api(_))), "status {status}");
    }
}

#[test]
fn is_active_does_not_read_the_body() {
    active(answer(200, "not json at all")).unwrap();
    assert!(matches!(active(answer(401, r#"{"status":"ok"}"#)), Err(CiderError::Unauthorized)));
}

#[test]
fn is_playing_request_is_a_get_of_is_playing() {
    let req = CiderClient::new().is_playing();
    assert_eq!(req.method, Method::Get);
    assert_eq!(req.url, "http://127.0.0.1:10767/api/v1/playback/is-playing");
}

#[test]
fn is_playing_returns_true() {
    assert!(is_playing(answer(200, &is_playing_json(true))).unwrap());
}

#[test]
fn is_playing_returns_false() {
    assert!(!is_playing(answer(200, &is_playing_json(false))).unwrap());
}

#[test]
fn is_playing_is_strict_about_the_shape() {
    for body in [
        r#"{"is_playing":true}"#,
        r#"{"status":"ok"}"#,
        r#"{"status":"ok","is_playing":1}"#,
        r#"{"status":"ok","is_playing":"true"}"#,
        r#"{"status":"ok","is_playing":null}"#,
        r#"{"status":1,"is_playing":true}"#,
        r#"[true]"#,
        r#"true"#,
        r#"{"status":"ok","is_playing":true"#,
        "",
    ] {
        let err = is_playing(answer(200, body)).unwrap_err();
        assert!(matches!(err, CiderError::Http(cider_api::HttpFailure::Body)), "body {body}");
    }
}

#[test]
fn is_playing_does_not_look_at_the_status() {
    assert!(is_playing(answer(500, &is_playing_json(true))).unwrap());
    assert!(!is_playing(answer(404, &is_playing_json(false))).unwrap());
}

#[test]
fn now_playing_request_is_a_get_of_now_playing() {
    let req = CiderClient::new().now_playing();
    assert_eq!(req.method, Method::Get);
    assert_eq!(req.url, "http://127.0.0.1:10767/api/v1/playback/now-playing");
}

#[test]
fn now_playing_returns_track() {
    let track = now_playing(answer(200, now_playing_json())).unwrap().unwrap();
    assert_eq!(track.name, "Never Be Like You");
    assert_eq!(track.artist_name, "Flume");
    assert_eq!(track.song_id(), Some("1719861213"));
    assert_eq!(track.artwork_url(300), "https://example.com/300x300bb.jpg");
}

#[test]
fn now_playing_returns_none_on_404() {
    assert!(now_playing(answer(404, "")).unwrap().is_none());
}

#[test]
fn now_playing_returns_none_on_204() {
    assert!(now_playing(answer(204, "")).unwrap().is_none());
}

#[test]
fn now_playing_returns_none_on_unparseable_json() {
    assert!(now_playing(answer(200, r#"{"garbage": true}"#)).unwrap().is_none());
}

#[test]
fn now_playing_is_none_on_absent_status_even_with_a_track() {
    assert!(now_playing(answer(404, now_playing_json())).unwrap().is_none());
    assert!(now_playing(answer(204, now_playing_json())).unwrap().is_none());
}

#[test]
fn now_playing_reads_the_track_on_any_other_status() {
    for status in [200u16, 201, 500, 302] {
        let track = now_playing(answer(status, now_playing_json())).unwrap().unwrap();
        assert_eq!(track.album_name, "Skin");
    }
}

#[test]
fn now_playing_is_none_without_envelope_or_info() {
    for body in [
        "",
        "not json",
        "[]",
        "null",
        r#"{"status":"ok"}"#,
        r#"{"status":"ok","info":null}"#,
        r#"{"status":"ok","info":[]}"#,
        r#"{"status":"ok","info":"x"}"#,
        r#"{"info":{"name":"x"}}"#,
        r#"{"status":7,"info":{"name":"x"}}"#,
    ] {
        assert!(now_playing(answer(200, body)).unwrap().is_none(), "body {body}");
    }
}

#[test]
fn now_playing_reads_every_field() {
    let track = now_playing(answer(200, now_playing_json())).unwrap().unwrap();
    assert_eq!(track.album_name, "Skin");
    assert_eq!(track.artwork.width, 3000);
    assert_eq!(track.artwork.height, 3000);
    assert_eq!(track.artwork.url, "https://example.com/{w}x{h}bb.jpg");
    assert_eq!(track.artwork.bg_color, None);
    assert_eq!(track.artwork.has_p3, None);
    assert_eq!(track.duration_in_millis, 234000);
    let params = track.play_params.as_ref().unwrap();
    assert_eq!(params.id, "1719861213");
    assert_eq!(params.kind, "song");
    assert_eq!(track.url.as_deref(), Some("https://music.apple.com/ca/album/skin/1719860281"));
    assert_eq!(track.isrc.as_deref(), Some("AUUM71600506"));
    assert_eq!(f64::from_bits(track.current_playback_time.bits), 42.5);
    assert_eq!(f64::from_bits(track.remaining_time.bits), 191.5);
    assert_eq!(track.shuffle_mode, 1);
    assert_eq!(track.repeat_mode, 0);
    assert!(track.in_favorites);
    assert!(track.in_library);
    assert_eq!(track.genre_names, vec!["Electronic".to_string(), "Music".to_string()]);
    assert_eq!(track.track_number, 3);
    assert_eq!(track.disc_number, 1);
    assert_eq!(track.release_date.as_deref(), Some("2016-05-27T12:00:00Z"));
    assert_eq!(track.audio_locale, None);
    assert_eq!(track.composer_name, None);
    assert!(track.has_lyrics);
    assert!(!track.has_time_synced_lyrics);
    assert!(!track.is_vocal_attenuation_allowed);
    assert!(!track.is_mastered_for_itunes);
    assert!(track.is_apple_digital_master);
    assert_eq!(track.audio_traits, vec!["lossless".to_string(), "lossy-stereo".to_string()]);
    assert_eq!(track.previews.len(), 1);
    assert_eq!(track.previews[0].url, "https://audio-ssl.itunes.apple.com/preview.m4a");
}

#[test]
fn now_playing_fields_default_when_absent() {
    let track = now_playing(answer(200, r#"{"status":"ok","info":{}}"#)).unwrap().unwrap();
    assert_eq!(track.name, "");
    assert_eq!(track.artist_name, "");
    assert_eq!(track.album_name, "");
    assert_eq!(track.artwork.width, 0);
    assert_eq!(track.artwork.url, "");
    assert_eq!(track.duration_in_millis, 0);
    assert!(track.play_params.is_none());
    assert_eq!(track.song_id(), None);
    assert_eq!(track.url, None);
    assert_eq!(track.current_playback_time.bits, 0);
    assert_eq!(track.remaining_time.bits, 0);
    assert_eq!(track.shuffle_mode, 0);
    assert!(!track.in_library);
    assert!(track.genre_names.is_empty());
    assert!(track.previews.is_empty());
    assert_eq!(track.artwork_url(64), "");
}

#[test]
fn now_playing_fields_default_when_of_another_kind() {
    let body = r#"{"status":"ok","info":{
        "name": 5,
        "artistName": null,
        "artwork": "none",
        "durationInMillis": -4,
        "playParams": "x",
        "url": 9,
        "currentPlaybackTime": "soon",
        "shuffleMode": 256,
        "repeatMode": 1.5,
        "inFavorites": "yes",
        "genreNames": ["Rock", 3],
        "trackNumber": 4294967296,
        "discNumber": 4294967295,
        "previews": [{"url": "a"}, 7],
        "albumName": "Kept"
    }}"#;
    let track = now_playing(answer(200, body)).unwrap().unwrap();
    assert_eq!(track.name, "");
    assert_eq!(track.artist_name, "");
    assert_eq!(track.album_name, "Kept");
    assert_eq!(track.artwork.url, "");
    assert_eq!(track.duration_in_millis, 0);
    assert!(track.play_params.is_none());
    assert_eq!(track.url, None);
    assert_eq!(track.current_playback_time.bits, 0);
    assert_eq!(track.shuffle_mode, 0);
    assert_eq!(track.repeat_mode, 0);
    assert!(!track.in_favorites);
    assert!(track.genre_names.is_empty());
    assert_eq!(track.track_number, 0);
    assert_eq!(track.disc_number, 4294967295);
    assert!(track.previews.is_empty());
}

#[test]
fn now_playing_twice_gives_the_same_track() {
    let a = now_playing(answer(200, now_playing_json())).unwrap().unwrap();
    let b = now_playing(answer(200, now_playing_json())).unwrap().unwrap();
    assert_eq!(format!("{a:?}"), format!("{b:?}"));
    assert_eq!(a.song_id(), b.song_id());
    assert_eq!(a.artwork_url(600), b.artwork_url(600));
}

#[test]
fn now_playing_takes_whole_numbers_as_seconds() {
    let body = r#"{"status":"ok","info":{"currentPlaybackTime": 3, "remainingTime": -2}}"#;
    let track = now_playing(answer(200, body)).unwrap().unwrap();
    assert_eq!(f64::from_bits(track.current_playback_time.bits), 3.0);
    assert_eq!(f64::from_bits(track.remaining_time.bits), -2.0);
}
