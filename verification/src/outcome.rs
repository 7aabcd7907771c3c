//! What an exchange with the player means.
//!
//! An exchange is what sending a request gave: a [`Response`], or the error
//! of the transport. Each kind of operation has its own reading of it. The
//! functions whose names end in `_from` take the document that the body
//! holds as an argument and say exactly what it means; the others read the
//! document from the body first.

use crate::client::{CiderError, HttpFailure, Response};
use crate::field::opt_text_field;
use crate::json::{json_document, lemma_values_of, parse_document, values_of, Json, JsonValue};
use crate::number::Float32;
use crate::text::{decimal, decimal_string};
use crate::types::{
    all_objects, autoplay_of, is_playing_of, now_playing_response_of, queue_item_of,
    repeat_mode_of, shuffle_mode_of, volume_of, ApiResponse, AutoplayResponse,
    IsPlayingResponse, NowPlaying, NowPlayingResponse, NowPlayingView, QueueItem,
    QueueItemView, RepeatModeResponse, ShuffleModeResponse, VolumeResponse,
};
use vstd::prelude::*;

verus! {

/// Whether a status says that the request succeeded.
pub open spec fn is_success(status: u16) -> bool {
    200 <= status < 300
}

/// Whether a status says that there is nothing to report: not found, or no
/// content.
pub open spec fn is_absent(status: u16) -> bool {
    status == 404 || status == 204
}

/// The value of an optional document.
pub open spec fn document_value(document: Option<&Json>) -> Option<JsonValue> {
    match document {
        Some(j) => Some(j@),
        None => None,
    }
}

/// The value of an optional document that is owned.
pub open spec fn owned_document_value(document: Option<Json>) -> Option<JsonValue> {
    match document {
        Some(j) => Some(j@),
        None => None,
    }
}

/// Whether an exchange failed in the transport, and `r` is that failure,
/// passed on as it came.
pub open spec fn is_transport_failure<T>(
    exchange: Result<Response, reqwest::Error>,
    r: Result<T, CiderError>,
) -> bool {
    exchange matches Err(e) && r matches Err(CiderError::Http(HttpFailure::Transport(x))) && x == e
}

// The connectivity check

/// What the connectivity check says of a status that it did not expect.
pub open spec fn unexpected_status_text(status: u16) -> Seq<char> {
    "Unexpected response (HTTP "@ + decimal(status as nat) + ")"@
}

/// What the connectivity check says of a transport failure: that the
/// connection was refused, that it timed out, or that the network failed
/// otherwise. A refused connection counts before a timeout.
pub open spec fn connection_text(refused: bool, timed_out: bool, detail: Seq<char>) -> Seq<char> {
    if refused {
        "Connection refused ("@ + detail + ")"@
    } else if timed_out {
        "Connection timed out"@
    } else {
        "Network error ("@ + detail + ")"@
    }
}

/// Whether `r` is what the connectivity check makes of `status`: success
/// for 200 and 204, a refused token for 401 and 403, and an unexpected
/// answer otherwise.
pub open spec fn is_active_verdict(status: u16, r: Result<(), CiderError>) -> bool {
    if status == 200 || status == 204 {
        r is Ok
    } else if status == 401 || status == 403 {
        r matches Err(CiderError::Unauthorized)
    } else {
        r matches Err(CiderError::Api(m)) && m@ == unexpected_status_text(status)
    }
}

/// What the connectivity check makes of a status.
pub fn active_from(status: u16) -> (r: Result<(), CiderError>)
    ensures
        is_active_verdict(status, r),
{
    if status == 200 || status == 204 {
        Ok(())
    } else if status == 401 || status == 403 {
        Err(CiderError::Unauthorized)
    } else {
        let mut m = String::from_str("Unexpected response (HTTP ");
        let digits = decimal_string(status as u64);
        m.append(digits.as_str());
        m.append(")");
        Err(CiderError::Api(m))
    }
}

/// What the connectivity check makes of a transport failure, given what
/// the failure says of itself.
pub fn connection_failure(refused: bool, timed_out: bool, detail: &str) -> (r: CiderError)
    ensures
        r matches CiderError::Api(m) && m@ == connection_text(refused, timed_out, detail@),
{
    if refused {
        let mut m = String::from_str("Connection refused (");
        m.append(detail);
        m.append(")");
        CiderError::Api(m)
    } else if timed_out {
        CiderError::Api(String::from_str("Connection timed out"))
    } else {
        let mut m = String::from_str("Network error (");
        m.append(detail);
        m.append(")");
        CiderError::Api(m)
    }
}

/// Whether `r` is a failure of the connectivity check in the transport,
/// whatever the transport's error said of itself.
pub open spec fn is_connection_failure(r: Result<(), CiderError>) -> bool {
    exists|refused: bool, timed_out: bool, detail: Seq<char>|
        r matches Err(CiderError::Api(m)) && m@ == #[trigger] connection_text(
            refused,
            timed_out,
            detail,
        )
}

/// Whether the player is running and lets the client in.
///
/// A transport failure is reported in words: the error is asked whether it
/// concerns connecting, whether it concerns a timeout, and how it displays.
pub fn active(exchange: Result<Response, reqwest::Error>) -> (r: Result<(), CiderError>)
    ensures
        exchange matches Ok(response) ==> is_active_verdict(response.status, r),
        exchange is Err ==> is_connection_failure(r),
{
    match exchange {
        Ok(response) => active_from(response.status),
        Err(e) => {
            let detail = e.to_string();
            let refused = e.is_connect();
            let timed_out = e.is_timeout();
            let failure = connection_failure(refused, timed_out, detail.as_str());
            Err(failure)
        },
    }
}

// Commands

/// Whether `r` is what a command makes of `status`: success for a status
/// of success, and otherwise an HTTP failure that holds the status.
pub open spec fn is_command_verdict(status: u16, r: Result<(), CiderError>) -> bool {
    if is_success(status) {
        r is Ok
    } else {
        r matches Err(CiderError::Http(HttpFailure::Status(code))) && code == status
    }
}

/// What a command makes of a status.
pub fn command_from(status: u16) -> (r: Result<(), CiderError>)
    ensures
        is_command_verdict(status, r),
{
    if 200 <= status && status < 300 {
        Ok(())
    } else {
        Err(CiderError::Http(HttpFailure::Status(status)))
    }
}

/// Whether a command succeeded. The body of the answer is not looked at.
pub fn command(exchange: Result<Response, reqwest::Error>) -> (r: Result<(), CiderError>)
    ensures
        exchange matches Ok(response) ==> is_command_verdict(response.status, r),
        exchange is Err ==> is_transport_failure(exchange, r),
{
    match exchange {
        Ok(response) => command_from(response.status),
        Err(e) => Err(CiderError::Http(HttpFailure::Transport(e))),
    }
}

// Typed queries

/// Whether a document is a response envelope: an object with a string as
/// its `status`.
pub open spec fn is_envelope(j: JsonValue) -> bool {
    opt_text_field(j, "status"@) is Some
}

/// The payload of a typed reply: what the document holds, where it is an
/// envelope and the payload has its strict shape.
pub open spec fn typed_reply<T>(document: Option<JsonValue>, payload: spec_fn(JsonValue) -> Option<T>)
    -> Option<T> {
    match document {
        Some(j) => if is_envelope(j) {
            payload(j)
        } else {
            None
        },
        None => None,
    }
}

/// Whether `r` is what a typed query makes of an expected payload: the
/// payload where there is one, and otherwise the failure of a body that
/// does not have the expected shape.
pub open spec fn is_typed_verdict<T>(expected: Option<T>, r: Result<T, CiderError>) -> bool {
    match expected {
        Some(value) => r == Ok::<T, CiderError>(value),
        None => r matches Err(CiderError::Http(HttpFailure::Body)),
    }
}

/// Whether music is playing, as a document says.
pub open spec fn is_playing_reply(document: Option<JsonValue>) -> Option<bool> {
    match typed_reply(document, |j: JsonValue| is_playing_of(j)) {
        Some(p) => Some(p.is_playing),
        None => None,
    }
}

/// The volume, as a document says.
pub open spec fn volume_reply(document: Option<JsonValue>) -> Option<Float32> {
    match typed_reply(document, |j: JsonValue| volume_of(j)) {
        Some(p) => Some(p.volume),
        None => None,
    }
}

/// The repeat mode, as a document says.
pub open spec fn repeat_mode_reply(document: Option<JsonValue>) -> Option<u8> {
    match typed_reply(document, |j: JsonValue| repeat_mode_of(j)) {
        Some(p) => Some(p.value),
        None => None,
    }
}

/// The shuffle mode, as a document says.
pub open spec fn shuffle_mode_reply(document: Option<JsonValue>) -> Option<u8> {
    match typed_reply(document, |j: JsonValue| shuffle_mode_of(j)) {
        Some(p) => Some(p.value),
        None => None,
    }
}

/// Whether autoplay is on, as a document says.
pub open spec fn autoplay_reply(document: Option<JsonValue>) -> Option<bool> {
    match typed_reply(document, |j: JsonValue| autoplay_of(j)) {
        Some(p) => Some(p.value),
        None => None,
    }
}

/// Reads whether music is playing from the document of an answer.
pub fn is_playing_from(document: Option<&Json>) -> (r: Result<bool, CiderError>)
    ensures
        is_typed_verdict(is_playing_reply(document_value(document)), r),
{
    match document {
        Some(j) => match ApiResponse::from_json(j, IsPlayingResponse::from_json(j)) {
            Some(envelope) => Ok(envelope.into_data().is_playing),
            None => Err(CiderError::Http(HttpFailure::Body)),
        },
        None => Err(CiderError::Http(HttpFailure::Body)),
    }
}

/// Reads the volume from the document of an answer.
pub fn volume_from(document: Option<&Json>) -> (r: Result<Float32, CiderError>)
    ensures
        is_typed_verdict(volume_reply(document_value(document)), r),
{
    match document {
        Some(j) => match ApiResponse::from_json(j, VolumeResponse::from_json(j)) {
            Some(envelope) => Ok(envelope.into_data().volume),
            None => Err(CiderError::Http(HttpFailure::Body)),
        },
        None => Err(CiderError::Http(HttpFailure::Body)),
    }
}

/// Reads the repeat mode from the document of an answer.
pub fn repeat_mode_from(document: Option<&Json>) -> (r: Result<u8, CiderError>)
    ensures
        is_typed_verdict(repeat_mode_reply(document_value(document)), r),
{
    match document {
        Some(j) => match ApiResponse::from_json(j, RepeatModeResponse::from_json(j)) {
            Some(envelope) => Ok(envelope.into_data().value),
            None => Err(CiderError::Http(HttpFailure::Body)),
        },
        None => Err(CiderError::Http(HttpFailure::Body)),
    }
}

/// Reads the shuffle mode from the document of an answer.
pub fn shuffle_mode_from(document: Option<&Json>) -> (r: Result<u8, CiderError>)
    ensures
        is_typed_verdict(shuffle_mode_reply(document_value(document)), r),
{
    match document {
        Some(j) => match ApiResponse::from_json(j, ShuffleModeResponse::from_json(j)) {
            Some(envelope) => Ok(envelope.into_data().value),
            None => Err(CiderError::Http(HttpFailure::Body)),
        },
        None => Err(CiderError::Http(HttpFailure::Body)),
    }
}

/// Reads whether autoplay is on from the document of an answer.
pub fn autoplay_from(document: Option<&Json>) -> (r: Result<bool, CiderError>)
    ensures
        is_typed_verdict(autoplay_reply(document_value(document)), r),
{
    match document {
        Some(j) => match ApiResponse::from_json(j, AutoplayResponse::from_json(j)) {
            Some(envelope) => Ok(envelope.into_data().value),
            None => Err(CiderError::Http(HttpFailure::Body)),
        },
        None => Err(CiderError::Http(HttpFailure::Body)),
    }
}

/// Whether music is playing. The status of the answer is not looked at;
/// the body must be an envelope with a truth value as `is_playing`.
pub fn is_playing(exchange: Result<Response, reqwest::Error>) -> (r: Result<bool, CiderError>)
    ensures
        exchange matches Ok(response) ==> is_typed_verdict(
            is_playing_reply(json_document(response.body@)),
            r,
        ),
        exchange is Err ==> is_transport_failure(exchange, r),
{
    match exchange {
        Ok(response) => {
            let document = parse_document(response.body.as_str());
            is_playing_from(document.as_ref())
        },
        Err(e) => Err(CiderError::Http(HttpFailure::Transport(e))),
    }
}

/// The volume. The status of the answer is not looked at; the body must be
/// an envelope with a number as `volume`.
pub fn volume(exchange: Result<Response, reqwest::Error>) -> (r: Result<Float32, CiderError>)
    ensures
        exchange matches Ok(response) ==> is_typed_verdict(
            volume_reply(json_document(response.body@)),
            r,
        ),
        exchange is Err ==> is_transport_failure(exchange, r),
{
    match exchange {
        Ok(response) => {
            let document = parse_document(response.body.as_str());
            volume_from(document.as_ref())
        },
        Err(e) => Err(CiderError::Http(HttpFailure::Transport(e))),
    }
}

/// The repeat mode. The status of the answer is not looked at; the body
/// must be an envelope with an integer from 0 to 255 as `value`.
pub fn repeat_mode(exchange: Result<Response, reqwest::Error>) -> (r: Result<u8, CiderError>)
    ensures
        exchange matches Ok(response) ==> is_typed_verdict(
            repeat_mode_reply(json_document(response.body@)),
            r,
        ),
        exchange is Err ==> is_transport_failure(exchange, r),
{
    match exchange {
        Ok(response) => {
            let document = parse_document(response.body.as_str());
            repeat_mode_from(document.as_ref())
        },
        Err(e) => Err(CiderError::Http(HttpFailure::Transport(e))),
    }
}

/// The shuffle mode. The status of the answer is not looked at; the body
/// must be an envelope with an integer from 0 to 255 as `value`.
pub fn shuffle_mode(exchange: Result<Response, reqwest::Error>) -> (r: Result<u8, CiderError>)
    ensures
        exchange matches Ok(response) ==> is_typed_verdict(
            shuffle_mode_reply(json_document(response.body@)),
            r,
        ),
        exchange is Err ==> is_transport_failure(exchange, r),
{
    match exchange {
        Ok(response) => {
            let document = parse_document(response.body.as_str());
            shuffle_mode_from(document.as_ref())
        },
        Err(e) => Err(CiderError::Http(HttpFailure::Transport(e))),
    }
}

/// Whether autoplay is on. The status of the answer is not looked at; the
/// body must be an envelope with a truth value as `value`.
pub fn autoplay(exchange: Result<Response, reqwest::Error>) -> (r: Result<bool, CiderError>)
    ensures
        exchange matches Ok(response) ==> is_typed_verdict(
            autoplay_reply(json_document(response.body@)),
            r,
        ),
        exchange is Err ==> is_transport_failure(exchange, r),
{
    match exchange {
        Ok(response) => {
            let document = parse_document(response.body.as_str());
            autoplay_from(document.as_ref())
        },
        Err(e) => Err(CiderError::Http(HttpFailure::Transport(e))),
    }
}

// The loaded track

/// The value of an optional track.
pub open spec fn track_value(track: Option<NowPlaying>) -> Option<NowPlayingView> {
    match track {
        Some(t) => Some(t@),
        None => None,
    }
}

/// The loaded track, as a status and a document say: none where the status
/// says that there is nothing to report, none where the document is no
/// envelope with an object as `info`, and otherwise what that object says.
pub open spec fn now_playing_reply(status: u16, document: Option<JsonValue>) -> Option<
    NowPlayingView,
> {
    if is_absent(status) {
        None
    } else {
        match typed_reply(document, |j: JsonValue| now_playing_response_of(j)) {
            Some(p) => Some(p.info),
            None => None,
        }
    }
}

/// Reads the loaded track from the status and the document of an answer.
pub fn now_playing_from(status: u16, document: Option<&Json>) -> (r: Option<NowPlaying>)
    ensures
        track_value(r) == now_playing_reply(status, document_value(document)),
{
    if status == 404 || status == 204 {
        return None;
    }
    match document {
        Some(j) => match ApiResponse::from_json(j, NowPlayingResponse::from_json(j)) {
            Some(envelope) => Some(envelope.into_data().info),
            None => None,
        },
        None => None,
    }
}

/// The loaded track, or none. Only a transport failure is an error: a
/// status that says that there is nothing, and a body that cannot be read
/// as a track, both mean that nothing is loaded.
pub fn now_playing(exchange: Result<Response, reqwest::Error>) -> (r: Result<
    Option<NowPlaying>,
    CiderError,
>)
    ensures
        exchange matches Ok(response) ==> r matches Ok(track) && track_value(track)
            == now_playing_reply(response.status, json_document(response.body@)),
        exchange is Err ==> is_transport_failure(exchange, r),
{
    match exchange {
        Ok(response) => {
            if response.status == 404 || response.status == 204 {
                return Ok(None);
            }
            let document = parse_document(response.body.as_str());
            Ok(now_playing_from(response.status, document.as_ref()))
        },
        Err(e) => Err(CiderError::Http(HttpFailure::Transport(e))),
    }
}

/// Two readings of the loaded track from answers with the same status and
/// the same body are the same track, or both none.
pub proof fn lemma_now_playing_is_repeatable(
    first: Response,
    second: Response,
    a: Option<NowPlaying>,
    b: Option<NowPlaying>,
)
    requires
        first.status == second.status,
        first.body@ == second.body@,
        track_value(a) == now_playing_reply(first.status, json_document(first.body@)),
        track_value(b) == now_playing_reply(second.status, json_document(second.body@)),
    ensures
        track_value(a) == track_value(b),
{
}

// The queue

/// The values of a list of queue entries.
pub open spec fn queue_values(items: Seq<QueueItem>) -> Seq<QueueItemView> {
    Seq::new(items.len(), |i: int| items[i]@)
}

/// The queue, as a status and a document say: empty where the status says
/// that there is nothing to report, empty where the document is no array of
/// objects, and otherwise what each object says.
pub open spec fn queue_reply(status: u16, document: Option<JsonValue>) -> Seq<QueueItemView> {
    if is_absent(status) {
        Seq::empty()
    } else {
        match document {
            Some(j) => match j.items() {
                Some(items) => if all_objects(items) {
                    Seq::new(items.len(), |i: int| queue_item_of(items[i]))
                } else {
                    Seq::empty()
                },
                None => Seq::empty(),
            },
            None => Seq::empty(),
        }
    }
}

/// Reads the queue from the status and the document of an answer.
pub fn queue_from(status: u16, document: Option<&Json>) -> (r: Vec<QueueItem>)
    ensures
        queue_values(r@) == queue_reply(status, document_value(document)),
        r@.len() == queue_reply(status, document_value(document)).len(),
{
    let ghost expected = queue_reply(status, document_value(document));
    let mut out: Vec<QueueItem> = Vec::new();
    if status == 404 || status == 204 {
        return out;
    }
    let items = match document {
        Some(j) => match j.as_items() {
            Some(items) => items,
            None => {
                return out;
            },
        },
        None => {
            return out;
        },
    };
    let ghost values = values_of(items@);
    proof {
        lemma_values_of(items@);
    }
    let mut i: usize = 0;
    while i < items.len()
        invariant
            i <= items.len(),
            !is_absent(status),
            document_value(document) matches Some(j) && j.items() == Some(values),
            expected == queue_reply(status, document_value(document)),
            values == values_of(items@),
            values.len() == items.len(),
            forall|k: int| 0 <= k < items.len() ==> #[trigger] values[k] == items@[k]@,
            out.len() == i,
            forall|k: int| 0 <= k < i ==> (#[trigger] values[k]) is Object,
            forall|k: int| 0 <= k < i ==> (#[trigger] out@[k])@ == queue_item_of(values[k]),
        decreases items.len() - i,
    {
        if !items[i].is_object() {
            assert(!(values[i as int] is Object));
            return Vec::new();
        }
        let item = QueueItem::from_json(&items[i]);
        out.push(item);
        i += 1;
    }
    out
}

/// The queue. Only a transport failure is an error: a status that says
/// that there is nothing, and a body that cannot be read as a queue, both
/// mean an empty queue.
pub fn queue(exchange: Result<Response, reqwest::Error>) -> (r: Result<
    Vec<QueueItem>,
    CiderError,
>)
    ensures
        exchange matches Ok(response) ==> r matches Ok(items) && queue_values(items@)
            == queue_reply(response.status, json_document(response.body@)) && items@.len()
            == queue_reply(response.status, json_document(response.body@)).len(),
        exchange is Err ==> is_transport_failure(exchange, r),
{
    match exchange {
        Ok(response) => {
            if response.status == 404 || response.status == 204 {
                return Ok(queue_from(response.status, None));
            }
            let document = parse_document(response.body.as_str());
            Ok(queue_from(response.status, document.as_ref()))
        },
        Err(e) => Err(CiderError::Http(HttpFailure::Transport(e))),
    }
}

// The passthrough

/// Whether `r` is what the passthrough makes of a status and a document:
/// an HTTP failure that holds the status where it is not one of success,
/// the document as it is where there is one, and otherwise the failure of
/// a body that is no document.
pub open spec fn is_passthrough_verdict(
    status: u16,
    document: Option<JsonValue>,
    r: Result<Json, CiderError>,
) -> bool {
    if !is_success(status) {
        r matches Err(CiderError::Http(HttpFailure::Status(code))) && code == status
    } else {
        match document {
            Some(j) => r matches Ok(raw) && raw@ == j,
            None => r matches Err(CiderError::Http(HttpFailure::Body)),
        }
    }
}

/// What the passthrough makes of the status and the document of an answer.
pub fn passthrough_from(status: u16, document: Option<Json>) -> (r: Result<Json, CiderError>)
    ensures
        is_passthrough_verdict(status, owned_document_value(document), r),
{
    if !(200 <= status && status < 300) {
        return Err(CiderError::Http(HttpFailure::Status(status)));
    }
    match document {
        Some(j) => Ok(j),
        None => Err(CiderError::Http(HttpFailure::Body)),
    }
}

/// The answer of the catalogue, passed through as it came.
pub fn passthrough(exchange: Result<Response, reqwest::Error>) -> (r: Result<Json, CiderError>)
    ensures
        exchange matches Ok(response) ==> is_passthrough_verdict(
            response.status,
            json_document(response.body@),
            r,
        ),
        exchange is Err ==> is_transport_failure(exchange, r),
{
    match exchange {
        Ok(response) => {
            if !(200 <= response.status && response.status < 300) {
                return passthrough_from(response.status, None);
            }
            let document = parse_document(response.body.as_str());
            passthrough_from(response.status, document)
        },
        Err(e) => Err(CiderError::Http(HttpFailure::Transport(e))),
    }
}

} // verus!
