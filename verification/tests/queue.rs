use cider_api::outcome::{command, queue, queue_from};
use cider_api::{CiderClient, Method, Request, Response, WireValue};

fn wire(request: &Request) -> serde_json::Value {
    let mut object = serde_json::Map::new();
    for (name, value) in request.body.members() {
        let value = match value {
            WireValue::Text(s) => serde_json::Value::from(s),
            WireValue::Integer(n) => serde_json::Value::from(n),
            WireValue::Flag(b) => serde_json::Value::from(b),
            WireValue::Single(x) => serde_json::Value::from(f32::from_bits(x.bits)),
            WireValue::Double(x) => serde_json::Value::from(f64::from_bits(x.bits)),
        };
        object.insert(name, value);
    }
    serde_json::Value::Object(object)
}

fn json(text: &str) -> serde_json::Value {
    serde_json::from_str(text).unwrap()
}

fn answer(status: u16, body: &str) -> Result<Response, reqwest::Error> {
    Ok(Response { status, body: body.to_string() })
}

fn queue_json() -> &'static str {
    r#"[
        {
            "id": "1719861213",
            "type": "song",
            "attributes": {
                "name": "Never Be Like You",
                "artistName": "Flume",
                "albumName": "Skin",
                "durationInMillis": 234000
            },
            "_state": { "current": 2 }
        },
        {
            "id": "1719861214",
            "type": "song",
            "attributes": {
                "name": "Say It",
                "artistName": "Flume",
                "albumName": "Skin",
                "durationInMillis": 252000
            }
        }
    ]"#
}

#[test]
fn get_queue_request_is_a_get_of_queue() {
    let request = CiderClient::new().get_queue();
    assert_eq!(request.method, Method::Get);
    assert_eq!(request.url, "http://127.0.0.1:10767/api/v1/playback/queue");
    assert!(!request.body.is_present());
}

#[test]
fn get_queue_returns_items() {
    let queue = queue(answer(200, queue_json())).unwrap();
    assert_eq!(queue.len(), 2);
    assert!(queue[0].is_current());
    assert!(!queue[1].is_current());
}

#[test]
fn get_queue_returns_empty_on_404() {
    assert!(queue(answer(404, "")).unwrap().is_empty());
}

#[test]
fn get_queue_returns_empty_on_204() {
    assert!(queue(answer(204, "")).unwrap().is_empty());
}

#[test]
fn get_queue_returns_empty_on_bad_json() {
    assert!(queue(answer(200, r#"{"not": "an array"}"#)).unwrap().is_empty());
}

#[test]
fn get_queue_is_empty_on_absent_status_even_with_entries() {
    assert!(queue(answer(404, queue_json())).unwrap().is_empty());
    assert!(queue(answer(204, queue_json())).unwrap().is_empty());
}

#[test]
fn get_queue_reads_entries_on_any_other_status() {
    for status in [200u16, 201, 500] {
        assert_eq!(queue(answer(status, queue_json())).unwrap().len(), 2);
    }
}

#[test]
fn get_queue_is_empty_where_an_entry_is_no_object() {
    for body in ["", "nonsense", "null", "7", r#""x""#, "[1]", r#"[{"id":"a"}, null]"#, r#"[[]]"#] {
        assert!(queue(answer(200, body)).unwrap().is_empty(), "body {body}");
    }
    assert!(queue(answer(200, "[]")).unwrap().is_empty());
    assert_eq!(queue(answer(200, "[{}]")).unwrap().len(), 1);
}

#[test]
fn get_queue_keeps_the_order_of_the_entries() {
    let body = r#"[{"id":"a"},{"id":"b"},{"id":"c"}]"#;
    let ids: Vec<Option<String>> = queue(answer(200, body)).unwrap().into_iter().map(|i| i.id).collect();
    assert_eq!(ids, vec![Some("a".to_string()), Some("b".to_string()), Some("c".to_string())]);
}

#[test]
fn get_queue_reads_every_field() {
    let body = r#"[{
        "id": "1",
        "type": "song",
        "assetURL": "https://a/b.m3u8",
        "hlsMetadata": {"k": 1},
        "flavor": "28:ctrp256",
        "attributes": {
            "name": "N", "artistName": "A", "albumName": "L", "durationInMillis": 5,
            "artwork": {"width": 1, "height": 2, "url": "u{w}", "textColor1": "aa",
                        "textColor2": "bb", "textColor3": "cc", "textColor4": "dd",
                        "bgColor": "ee", "hasP3": true},
            "playParams": {"id": "9", "kind": "song"},
            "url": "w", "isrc": "i", "genreNames": ["g"], "trackNumber": 3, "discNumber": 4,
            "releaseDate": "d", "audioLocale": "en-US", "composerName": "c",
            "hasLyrics": true, "hasTimeSyncedLyrics": true, "isVocalAttenuationAllowed": true,
            "isMasteredForItunes": true, "isAppleDigitalMaster": true,
            "audioTraits": ["lossless"], "previews": [{"url": "p"}],
            "currentPlaybackTime": 1.5, "remainingTime": 2.5
        },
        "playbackType": 3,
        "_container": {"id": "ra.1", "type": "stations", "href": "/h", "name": "now_playing",
                       "attributes": {"x": [1, 2]}},
        "_context": {"featureName": "now_playing"},
        "_state": {"current": 1},
        "_songId": "77",
        "assets": [{"flavor": "x"}, 3],
        "keyURLs": {"hls-key-cert-url": "c", "hls-key-server-url": "s", "widevine-cert-url": "w"}
    }]"#;
    let mut items = queue(answer(200, body)).unwrap();
    let item = items.pop().unwrap();
    assert_eq!(item.id.as_deref(), Some("1"));
    assert_eq!(item.item_type.as_deref(), Some("song"));
    assert_eq!(item.asset_url.as_deref(), Some("https://a/b.m3u8"));
    assert!(item.hls_metadata.as_ref().unwrap().member("k").is_some());
    assert_eq!(item.flavor.as_deref(), Some("28:ctrp256"));
    let attributes = item.attributes.as_ref().unwrap();
    assert_eq!(attributes.name, "N");
    assert_eq!(attributes.artist_name, "A");
    assert_eq!(attributes.album_name, "L");
    assert_eq!(attributes.duration_in_millis, 5);
    let artwork = attributes.artwork.as_ref().unwrap();
    assert_eq!((artwork.width, artwork.height), (1, 2));
    assert_eq!(artwork.url_for_size(7), "u7");
    assert_eq!(artwork.text_color1.as_deref(), Some("aa"));
    assert_eq!(artwork.text_color2.as_deref(), Some("bb"));
    assert_eq!(artwork.text_color3.as_deref(), Some("cc"));
    assert_eq!(artwork.text_color4.as_deref(), Some("dd"));
    assert_eq!(artwork.bg_color.as_deref(), Some("ee"));
    assert_eq!(artwork.has_p3, Some(true));
    assert_eq!(attributes.play_params.as_ref().unwrap().id, "9");
    assert_eq!(attributes.url.as_deref(), Some("w"));
    assert_eq!(attributes.isrc.as_deref(), Some("i"));
    assert_eq!(attributes.genre_names, vec!["g".to_string()]);
    assert_eq!(attributes.track_number, 3);
    assert_eq!(attributes.disc_number, 4);
    assert_eq!(attributes.release_date.as_deref(), Some("d"));
    assert_eq!(attributes.audio_locale.as_deref(), Some("en-US"));
    assert_eq!(attributes.composer_name.as_deref(), Some("c"));
    assert!(attributes.has_lyrics && attributes.has_time_synced_lyrics);
    assert!(attributes.is_vocal_attenuation_allowed && attributes.is_mastered_for_itunes);
    assert!(attributes.is_apple_digital_master);
    assert_eq!(attributes.audio_traits, vec!["lossless".to_string()]);
    assert_eq!(attributes.previews[0].url, "p");
    assert_eq!(f64::from_bits(attributes.current_playback_time.bits), 1.5);
    assert_eq!(f64::from_bits(attributes.remaining_time.bits), 2.5);
    assert_eq!(item.playback_type, Some(3));
    let container = item.container.as_ref().unwrap();
    assert_eq!(container.id.as_deref(), Some("ra.1"));
    assert_eq!(container.container_type.as_deref(), Some("stations"));
    assert_eq!(container.href.as_deref(), Some("/h"));
    assert_eq!(container.name.as_deref(), Some("now_playing"));
    assert!(container.attributes.as_ref().unwrap().member("x").unwrap().as_items().is_some());
    assert_eq!(item.context.as_ref().unwrap().feature_name.as_deref(), Some("now_playing"));
    assert_eq!(item.state.as_ref().unwrap().current, Some(1));
    assert!(!item.is_current());
    assert_eq!(item.song_id.as_deref(), Some("77"));
    assert_eq!(item.assets.as_ref().unwrap().len(), 2);
    let keys = item.key_urls.as_ref().unwrap();
    assert_eq!(keys.hls_key_cert_url.as_deref(), Some("c"));
    assert_eq!(keys.hls_key_server_url.as_deref(), Some("s"));
    assert_eq!(keys.widevine_cert_url.as_deref(), Some("w"));
}

#[test]
fn is_current_only_for_a_state_of_exactly_two() {
    let cases = [
        (r#"[{"_state": {"current": 2}}]"#, true),
        (r#"[{"_state": {"current": 0}}]"#, false),
        (r#"[{"_state": {"current": 1}}]"#, false),
        (r#"[{"_state": {"current": 3}}]"#, false),
        (r#"[{"_state": {"current": 255}}]"#, false),
        (r#"[{"_state": {"current": 258}}]"#, false),
        (r#"[{"_state": {"current": 2.0}}]"#, false),
        (r#"[{"_state": {"current": "2"}}]"#, false),
        (r#"[{"_state": {"current": null}}]"#, false),
        (r#"[{"_state": {}}]"#, false),
        (r#"[{"_state": 2}]"#, false),
        (r#"[{"state": {"current": 2}}]"#, false),
        (r#"[{}]"#, false),
    ];
    for (body, expected) in cases {
        let items = queue(answer(200, body)).unwrap();
        assert_eq!(items.len(), 1, "body {body}");
        assert_eq!(items[0].is_current(), expected, "body {body}");
    }
}

#[test]
fn queue_from_takes_nothing_as_an_empty_queue() {
    assert!(queue_from(200, None).is_empty());
    assert!(queue_from(404, None).is_empty());
}

#[test]
fn queue_move_to_position_sends_correct_body() {
    let request = CiderClient::new().queue_move_to_position(3, 1);
    assert_eq!(request.method, Method::Post);
    assert_eq!(request.url, "http://127.0.0.1:10767/api/v1/playback/queue/move-to-position");
    assert_eq!(wire(&request), json(r#"{"startIndex": 3, "destinationIndex": 1}"#));
    command(answer(200, "")).unwrap();
}

#[test]
fn queue_move_sends_indices_as_given() {
    for (start, destination) in [(0u32, 0u32), (1, 1), (u32::MAX, 0), (7, u32::MAX)] {
        let request = CiderClient::new().queue_move_to_position(start, destination);
        match request.body {
            cider_api::RequestBody::QueueMove(body) => {
                assert_eq!(body.start_index, start);
                assert_eq!(body.destination_index, destination);
                assert_eq!(body.return_queue, None);
            },
            other => panic!("unexpected: {other:?}"),
        }
    }
}

#[test]
fn queue_move_writes_return_queue_only_where_it_is_set() {
    let with = cider_api::RequestBody::QueueMove(cider_api::QueueMoveRequest {
        start_index: 2,
        destination_index: 4,
        return_queue: Some(true),
    });
    let names: Vec<String> = with.members().into_iter().map(|(n, _)| n).collect();
    assert_eq!(names, vec!["startIndex", "destinationIndex", "returnQueue"]);
    let without = cider_api::RequestBody::QueueMove(cider_api::QueueMoveRequest {
        start_index: 2,
        destination_index: 4,
        return_queue: None,
    });
    let names: Vec<String> = without.members().into_iter().map(|(n, _)| n).collect();
    assert_eq!(names, vec!["startIndex", "destinationIndex"]);
}

#[test]
fn queue_remove_by_index_sends_correct_body() {
    let request = CiderClient::new().queue_remove_by_index(5);
    assert_eq!(request.method, Method::Post);
    assert_eq!(request.url, "http://127.0.0.1:10767/api/v1/playback/queue/remove-by-index");
    assert_eq!(wire(&request), json(r#"{"index": 5}"#));
    command(answer(200, "")).unwrap();
}

#[test]
fn queue_remove_sends_the_index_as_given() {
    for index in [0u32, 1, u32::MAX] {
        let request = CiderClient::new().queue_remove_by_index(index);
        assert_eq!(wire(&request), json(&format!(r#"{{"index": {index}}}"#)));
    }
}

#[test]
fn clear_queue_ok() {
    let request = CiderClient::new().clear_queue();
    assert_eq!(request.method, Method::Post);
    assert_eq!(request.url, "http://127.0.0.1:10767/api/v1/playback/queue/clear-queue");
    assert!(!request.body.is_present());
    command(answer(200, "")).unwrap();
}
