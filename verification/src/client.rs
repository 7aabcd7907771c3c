//! The client's configuration and the requests it forms.
//!
//! A [`CiderClient`] holds where the player listens and the token it asks
//! for. Each operation forms a [`Request`]: a method, an absolute URL, the
//! headers and a typed body. Sending it is left to the caller, who hands
//! what came back to [`crate::outcome`].

use crate::number::{seconds_of_millis, Float32, Float64};
use crate::text::{decimal, decimal_string};
use crate::types::{
    AmApiRequest, PlayItemHrefRequest, PlayItemRequest, PlayUrlRequest, QueueMoveRequest,
    QueueRemoveRequest, RatingRequest, SeekRequest, VolumeRequest,
};
use vstd::prelude::*;

verus! {

/// The port on which the player listens unless told otherwise.
pub const DEFAULT_PORT: u16 = 10767;

/// Seconds allowed for establishing a connection: short, as the player is
/// on the local host.
pub const CONNECT_TIMEOUT_SECS: u64 = 1;

/// Seconds allowed for a whole request.
pub const REQUEST_TIMEOUT_SECS: u64 = 2;

/// Idle connections kept open to the player.
pub const POOL_MAX_IDLE_PER_HOST: usize = 2;

/// Seconds after which an idle connection is closed.
pub const POOL_IDLE_TIMEOUT_SECS: u64 = 10;

/// The error of the transport, `reqwest::Error`, carried as it is: nothing
/// is known of what is inside.
#[verifier::external_type_specification]
#[verifier::external_body]
pub struct ExTransportError(reqwest::Error);

/// `reqwest::Error::is_connect`, which tells whether the error concerns
/// connecting. Nothing is claimed of what it returns.
pub assume_specification[ reqwest::Error::is_connect ](e: &reqwest::Error) -> (r: bool);

/// `reqwest::Error::is_timeout`, which tells whether the error concerns a
/// timeout. Nothing is claimed of what it returns.
pub assume_specification[ reqwest::Error::is_timeout ](e: &reqwest::Error) -> (r: bool);

/// Why an HTTP exchange failed.
#[derive(Debug)]
pub enum HttpFailure {
    /// The transport failed: no connection, a timeout, or another network
    /// error.
    Transport(reqwest::Error),
    /// The player answered with a status outside 200 to 299.
    Status(u16),
    /// The body of the answer did not have the expected shape.
    Body,
}

/// The errors of the client.
#[derive(Debug)]
pub enum CiderError {
    /// An HTTP exchange failed.
    Http(HttpFailure),
    /// The player is not running or its port cannot be reached.
    NotReachable,
    /// The player refused the token.
    Unauthorized,
    /// No track is loaded.
    NothingPlaying,
    /// Anything else that the player answered unexpectedly, in words.
    Api(String),
}

/// The text of an error, without what the failure itself says.
pub open spec fn error_prefix(e: CiderError) -> Seq<char> {
    match e {
        CiderError::Http(_) => "HTTP request failed: "@,
        CiderError::NotReachable => "Cider is not running or not reachable"@,
        CiderError::Unauthorized => "Invalid API token"@,
        CiderError::NothingPlaying => "No track currently playing"@,
        CiderError::Api(_) => "API error: "@,
    }
}

/// What a failure that the library itself found says of itself.
pub open spec fn failure_text(status: Option<u16>) -> Seq<char> {
    match status {
        Some(code) => "HTTP status "@ + decimal(code as nat),
        None => "error decoding response body"@,
    }
}

impl HttpFailure {
    /// The failure in words. Of a transport failure it is what the
    /// transport's error displays.
    pub fn message(&self) -> (r: String)
        ensures
            self matches HttpFailure::Status(code) ==> r@ == failure_text(Some(*code)),
            self is Body ==> r@ == failure_text(None),
    {
        match self {
            HttpFailure::Transport(e) => e.to_string(),
            HttpFailure::Status(code) => {
                let mut s = String::from_str("HTTP status ");
                let digits = decimal_string(*code as u64);
                s.append(digits.as_str());
                s
            },
            HttpFailure::Body => String::from_str("error decoding response body"),
        }
    }
}

impl CiderError {
    /// The error in words.
    pub fn message(&self) -> (r: String)
        ensures
            error_prefix(*self).is_prefix_of(r@),
            self matches CiderError::Api(detail) ==> r@ == error_prefix(*self) + detail@,
            self matches CiderError::Http(HttpFailure::Status(code)) ==> r@ == error_prefix(*self)
                + failure_text(Some(*code)),
            self matches CiderError::Http(HttpFailure::Body) ==> r@ == error_prefix(*self)
                + failure_text(None),
            self is NotReachable || self is Unauthorized || self is NothingPlaying ==> r@
                == error_prefix(*self),
    {
        match self {
            CiderError::Http(failure) => {
                let mut s = String::from_str("HTTP request failed: ");
                let detail = failure.message();
                s.append(detail.as_str());
                s
            },
            CiderError::NotReachable => String::from_str("Cider is not running or not reachable"),
            CiderError::Unauthorized => String::from_str("Invalid API token"),
            CiderError::NothingPlaying => String::from_str("No track currently playing"),
            CiderError::Api(detail) => {
                let mut s = String::from_str("API error: ");
                s.append(detail.as_str());
                s
            },
        }
    }
}

/// The HTTP method of a request.
#[derive(Debug, Clone, Copy, PartialEq, Eq, Structural)]
pub enum Method {
    Get,
    Post,
}

/// The body of a request: nothing, or exactly one of the typed bodies.
#[derive(Debug, Clone)]
pub enum RequestBody {
    Empty,
    PlayUrl(PlayUrlRequest),
    PlayItem(PlayItemRequest),
    PlayItemHref(PlayItemHrefRequest),
    Seek(SeekRequest),
    Volume(VolumeRequest),
    Rating(RatingRequest),
    QueueMove(QueueMoveRequest),
    QueueRemove(QueueRemoveRequest),
    AmApi(AmApiRequest),
}

/// The mathematical value of a [`RequestBody`].
pub enum RequestBodyView {
    Empty,
    PlayUrl { url: Seq<char> },
    PlayItem { item_type: Seq<char>, id: Seq<char> },
    PlayItemHref { href: Seq<char> },
    Seek { position: Float64 },
    Volume { volume: Float32 },
    Rating { rating: i8 },
    QueueMove { start_index: u32, destination_index: u32, return_queue: Option<bool> },
    QueueRemove { index: u32 },
    AmApi { path: Seq<char> },
}

impl View for RequestBody {
    type V = RequestBodyView;

    open spec fn view(&self) -> RequestBodyView {
        match self {
            RequestBody::Empty => RequestBodyView::Empty,
            RequestBody::PlayUrl(b) => RequestBodyView::PlayUrl { url: b.url@ },
            RequestBody::PlayItem(b) => RequestBodyView::PlayItem {
                item_type: b.item_type@,
                id: b.id@,
            },
            RequestBody::PlayItemHref(b) => RequestBodyView::PlayItemHref { href: b.href@ },
            RequestBody::Seek(b) => RequestBodyView::Seek { position: b.position },
            RequestBody::Volume(b) => RequestBodyView::Volume { volume: b.volume },
            RequestBody::Rating(b) => RequestBodyView::Rating { rating: b.rating },
            RequestBody::QueueMove(b) => RequestBodyView::QueueMove {
                start_index: b.start_index,
                destination_index: b.destination_index,
                return_queue: b.return_queue,
            },
            RequestBody::QueueRemove(b) => RequestBodyView::QueueRemove { index: b.index },
            RequestBody::AmApi(b) => RequestBodyView::AmApi { path: b.path@ },
        }
    }
}

/// A value of a member of a request body.
#[derive(Debug, Clone)]
pub enum WireValue {
    /// A string.
    Text(String),
    /// An integer.
    Integer(i64),
    /// A truth value.
    Flag(bool),
    /// A number in binary32.
    Single(Float32),
    /// A number in binary64.
    Double(Float64),
}

/// The mathematical value of a [`WireValue`].
pub enum WireValueView {
    Text(Seq<char>),
    Integer(i64),
    Flag(bool),
    Single(Float32),
    Double(Float64),
}

impl View for WireValue {
    type V = WireValueView;

    open spec fn view(&self) -> WireValueView {
        match self {
            WireValue::Text(s) => WireValueView::Text(s@),
            WireValue::Integer(n) => WireValueView::Integer(*n),
            WireValue::Flag(b) => WireValueView::Flag(*b),
            WireValue::Single(x) => WireValueView::Single(*x),
            WireValue::Double(x) => WireValueView::Double(*x),
        }
    }
}

/// The values of a list of members, each under its name.
pub open spec fn member_views(members: Seq<(String, WireValue)>) -> Seq<
    (Seq<char>, WireValueView),
> {
    Seq::new(members.len(), |i: int| (members[i].0@, members[i].1@))
}

impl RequestBodyView {
    /// The members of the JSON object that is sent as this body, each name
    /// as the player expects it, in the order in which they are written.
    /// No body has no members; `returnQueue` is left out where it is
    /// nothing.
    pub open spec fn members(self) -> Seq<(Seq<char>, WireValueView)> {
        match self {
            RequestBodyView::Empty => Seq::empty(),
            RequestBodyView::PlayUrl { url } => seq![("url"@, WireValueView::Text(url))],
            RequestBodyView::PlayItem { item_type, id } => seq![
                ("type"@, WireValueView::Text(item_type)),
                ("id"@, WireValueView::Text(id)),
            ],
            RequestBodyView::PlayItemHref { href } => seq![("href"@, WireValueView::Text(href))],
            RequestBodyView::Seek { position } => seq![
                ("position"@, WireValueView::Double(position)),
            ],
            RequestBodyView::Volume { volume } => seq![("volume"@, WireValueView::Single(volume))],
            RequestBodyView::Rating { rating } => seq![
                ("rating"@, WireValueView::Integer(rating as i64)),
            ],
            RequestBodyView::QueueMove { start_index, destination_index, return_queue } => {
                let indices = seq![
                    ("startIndex"@, WireValueView::Integer(start_index as i64)),
                    ("destinationIndex"@, WireValueView::Integer(destination_index as i64)),
                ];
                match return_queue {
                    Some(b) => indices.push(("returnQueue"@, WireValueView::Flag(b))),
                    None => indices,
                }
            },
            RequestBodyView::QueueRemove { index } => seq![
                ("index"@, WireValueView::Integer(index as i64)),
            ],
            RequestBodyView::AmApi { path } => seq![("path"@, WireValueView::Text(path))],
        }
    }
}

impl RequestBody {
    /// Whether there is a body to send.
    pub fn is_present(&self) -> (r: bool)
        ensures
            r == !(self@ is Empty),
    {
        match self {
            RequestBody::Empty => false,
            _ => true,
        }
    }

    /// The members of the JSON object that is sent as this body.
    pub fn members(&self) -> (r: Vec<(String, WireValue)>)
        ensures
            member_views(r@) == self@.members(),
    {
        let mut out: Vec<(String, WireValue)> = Vec::new();
        match self {
            RequestBody::Empty => {},
            RequestBody::PlayUrl(b) => {
                out.push((String::from_str("url"), WireValue::Text(b.url.clone())));
            },
            RequestBody::PlayItem(b) => {
                out.push((String::from_str("type"), WireValue::Text(b.item_type.clone())));
                out.push((String::from_str("id"), WireValue::Text(b.id.clone())));
            },
            RequestBody::PlayItemHref(b) => {
                out.push((String::from_str("href"), WireValue::Text(b.href.clone())));
            },
            RequestBody::Seek(b) => {
                out.push((String::from_str("position"), WireValue::Double(b.position)));
            },
            RequestBody::Volume(b) => {
                out.push((String::from_str("volume"), WireValue::Single(b.volume)));
            },
            RequestBody::Rating(b) => {
                out.push((String::from_str("rating"), WireValue::Integer(b.rating as i64)));
            },
            RequestBody::QueueMove(b) => {
                out.push(
                    (String::from_str("startIndex"), WireValue::Integer(b.start_index as i64)),
                );
                out.push(
                    (
                        String::from_str("destinationIndex"),
                        WireValue::Integer(b.destination_index as i64),
                    ),
                );
                match b.return_queue {
                    Some(flag) => {
                        out.push((String::from_str("returnQueue"), WireValue::Flag(flag)));
                    },
                    None => {},
                }
            },
            RequestBody::QueueRemove(b) => {
                out.push((String::from_str("index"), WireValue::Integer(b.index as i64)));
            },
            RequestBody::AmApi(b) => {
                out.push((String::from_str("path"), WireValue::Text(b.path.clone())));
            },
        }
        out
    }
}

/// A request, ready to be sent.
#[derive(Debug, Clone)]
pub struct Request {
    /// The HTTP method.
    pub method: Method,
    /// The absolute URL.
    pub url: String,
    /// The headers that the client asks for, each a name and a value. What
    /// a transport adds of its own accord, such as the type of a body, is
    /// not among them.
    pub headers: Vec<(String, String)>,
    /// The body.
    pub body: RequestBody,
}

/// The mathematical value of a [`Request`].
pub struct RequestView {
    pub method: Method,
    pub url: Seq<char>,
    pub headers: Seq<(Seq<char>, Seq<char>)>,
    pub body: RequestBodyView,
}

impl View for Request {
    type V = RequestView;

    open spec fn view(&self) -> RequestView {
        RequestView {
            method: self.method,
            url: self.url@,
            headers: self.headers.deep_view(),
            body: self.body@,
        }
    }
}

/// What came back from the player: the status code and the body as text.
#[derive(Debug, Clone)]
pub struct Response {
    /// The HTTP status code.
    pub status: u16,
    /// The body.
    pub body: String,
}

/// The name of the header that carries the token.
pub open spec fn token_header() -> Seq<char> {
    "apptoken"@
}

/// The path under which all playback operations live.
pub open spec fn playback_prefix() -> Seq<char> {
    "/api/v1/playback"@
}

/// The path of the catalogue passthrough.
pub open spec fn passthrough_path() -> Seq<char> {
    "/api/v1/amapi/run-v3"@
}

/// The base URL of a player on the local host.
pub open spec fn local_base_url(port: u16) -> Seq<char> {
    "http://127.0.0.1:"@ + decimal(port as nat)
}

/// The headers of a request: the token under its name where one is
/// configured, and no header at all where none is.
pub open spec fn auth_headers(token: Option<Seq<char>>) -> Seq<(Seq<char>, Seq<char>)> {
    match token {
        Some(t) => seq![(token_header(), t)],
        None => Seq::empty(),
    }
}

/// A rating restricted to the three ratings there are.
pub open spec fn clamped_rating(rating: i8) -> i8 {
    if rating < -1 {
        -1i8
    } else if rating > 1 {
        1i8
    } else {
        rating
    }
}

/// The mathematical value of a [`CiderClient`].
pub struct ClientView {
    pub base_url: Seq<char>,
    pub api_token: Option<Seq<char>>,
}

impl ClientView {
    /// The request for an operation of the playback namespace.
    pub open spec fn playback(self, method: Method, path: Seq<char>, body: RequestBodyView)
        -> RequestView {
        RequestView {
            method,
            url: self.base_url + playback_prefix() + path,
            headers: auth_headers(self.api_token),
            body,
        }
    }

    /// The request for a path of the raw namespace.
    pub open spec fn raw(self, method: Method, path: Seq<char>, body: RequestBodyView)
        -> RequestView {
        RequestView {
            method,
            url: self.base_url + path,
            headers: auth_headers(self.api_token),
            body,
        }
    }
}

/// Every request of a client that has a token carries exactly that token
/// under the token header, whatever the method, the namespace, the path
/// and the body; a request of a client without a token carries no header.
pub proof fn lemma_token_on_every_request(
    client: ClientView,
    method: Method,
    path: Seq<char>,
    body: RequestBodyView,
)
    ensures
        client.api_token matches Some(token) ==> {
            &&& client.playback(method, path, body).headers == seq![(token_header(), token)]
            &&& client.raw(method, path, body).headers == seq![(token_header(), token)]
        },
        client.api_token is None ==> {
            &&& client.playback(method, path, body).headers.len() == 0
            &&& client.raw(method, path, body).headers.len() == 0
        },
{
}

/// A clamped rating is one of the three ratings, and a rating that is one
/// of them is left as it is.
pub proof fn lemma_clamped_rating(rating: i8)
    ensures
        -1 <= clamped_rating(rating) <= 1,
        -1 <= rating <= 1 ==> clamped_rating(rating) == rating,
        rating > 1 ==> clamped_rating(rating) == 1,
        rating < -1 ==> clamped_rating(rating) == -1,
{
}

/// Where the player listens and what token it asks for.
#[derive(Debug)]
pub struct CiderClient {
    base_url: String,
    api_token: Option<String>,
}

impl View for CiderClient {
    type V = ClientView;

    closed spec fn view(&self) -> ClientView {
        ClientView { base_url: self.base_url@, api_token: self.api_token.deep_view() }
    }
}

impl Clone for CiderClient {
    /// A client with the same configuration.
    fn clone(&self) -> (r: CiderClient)
        ensures
            r@ == self@,
    {
        let api_token = match &self.api_token {
            Some(t) => Some(t.clone()),
            None => None,
        };
        CiderClient { base_url: self.base_url.clone(), api_token }
    }
}

impl Default for CiderClient {
    /// The same as [`CiderClient::new`].
    fn default() -> (r: CiderClient)
        ensures
            r@ == (ClientView { base_url: local_base_url(DEFAULT_PORT), api_token: None }),
    {
        CiderClient::new()
    }
}

impl CiderClient {
    /// A client for the player on the local host at the default port,
    /// without a token.
    pub fn new() -> (r: CiderClient)
        ensures
            r@ == (ClientView { base_url: local_base_url(DEFAULT_PORT), api_token: None }),
    {
        CiderClient::with_port(DEFAULT_PORT)
    }

    /// A client for the player on the local host at `port`, without a
    /// token.
    pub fn with_port(port: u16) -> (r: CiderClient)
        ensures
            r@ == (ClientView { base_url: local_base_url(port), api_token: None }),
    {
        let mut base_url = String::from_str("http://127.0.0.1:");
        let digits = decimal_string(port as u64);
        base_url.append(digits.as_str());
        CiderClient { base_url, api_token: None }
    }

    /// A client for a player at any base URL, without a token.
    pub fn with_base_url(base_url: &str) -> (r: CiderClient)
        ensures
            r@ == (ClientView { base_url: base_url@, api_token: None }),
    {
        CiderClient { base_url: String::from_str(base_url), api_token: None }
    }

    /// The same client with `token` as its token, which every request then
    /// carries.
    pub fn with_token(self, token: &str) -> (r: CiderClient)
        ensures
            r@ == (ClientView { base_url: self@.base_url, api_token: Some(token@) }),
    {
        CiderClient { base_url: self.base_url, api_token: Some(String::from_str(token)) }
    }

    /// The base URL.
    pub fn base_url(&self) -> (r: &str)
        ensures
            r@ == self@.base_url,
    {
        self.base_url.as_str()
    }

    /// The token, where one is configured.
    pub fn api_token(&self) -> (r: Option<&str>)
        ensures
            match r {
                Some(t) => self@.api_token == Some(t@),
                None => self@.api_token is None,
            },
    {
        match &self.api_token {
            Some(t) => Some(t.as_str()),
            None => None,
        }
    }

    /// The headers of every request of this client.
    fn headers(&self) -> (r: Vec<(String, String)>)
        ensures
            r.deep_view() == auth_headers(self@.api_token),
    {
        let mut headers: Vec<(String, String)> = Vec::new();
        if let Some(t) = &self.api_token {
            headers.push((String::from_str("apptoken"), t.clone()));
        }
        headers
    }

    /// The request for `path` in the playback namespace, with `body`.
    fn playback_request(&self, method: Method, path: &str, body: RequestBody) -> (r: Request)
        ensures
            r@ == self@.playback(method, path@, body@),
    {
        let mut url = self.base_url.clone();
        url.append("/api/v1/playback");
        url.append(path);
        Request { method, url, headers: self.headers(), body }
    }

    /// The request for `path` in the raw namespace, with `body`.
    fn raw_request(&self, method: Method, path: &str, body: RequestBody) -> (r: Request)
        ensures
            r@ == self@.raw(method, path@, body@),
    {
        let mut url = self.base_url.clone();
        url.append(path);
        Request { method, url, headers: self.headers(), body }
    }

    /// A request without a body for `path` in the playback namespace.
    pub fn request(&self, method: Method, path: &str) -> (r: Request)
        ensures
            r@ == self@.playback(method, path@, RequestBodyView::Empty),
    {
        self.playback_request(method, path, RequestBody::Empty)
    }

    /// A request without a body for `path`, taken from the root of the
    /// player's interface.
    pub fn request_raw(&self, method: Method, path: &str) -> (r: Request)
        ensures
            r@ == self@.raw(method, path@, RequestBodyView::Empty),
    {
        self.raw_request(method, path, RequestBody::Empty)
    }

    /// Asks whether the player is running and lets this client in.
    pub fn is_active(&self) -> (r: Request)
        ensures
            r@ == self@.playback(Method::Get, "/active"@, RequestBodyView::Empty),
    {
        self.playback_request(Method::Get, "/active", RequestBody::Empty)
    }

    /// Asks whether music is playing.
    pub fn is_playing(&self) -> (r: Request)
        ensures
            r@ == self@.playback(Method::Get, "/is-playing"@, RequestBodyView::Empty),
    {
        self.playback_request(Method::Get, "/is-playing", RequestBody::Empty)
    }

    /// Asks for the loaded track.
    pub fn now_playing(&self) -> (r: Request)
        ensures
            r@ == self@.playback(Method::Get, "/now-playing"@, RequestBodyView::Empty),
    {
        self.playback_request(Method::Get, "/now-playing", RequestBody::Empty)
    }

    /// Resumes playback.
    pub fn play(&self) -> (r: Request)
        ensures
            r@ == self@.playback(Method::Post, "/play"@, RequestBodyView::Empty),
    {
        self.playback_request(Method::Post, "/play", RequestBody::Empty)
    }

    /// Pauses playback.
    pub fn pause(&self) -> (r: Request)
        ensures
            r@ == self@.playback(Method::Post, "/pause"@, RequestBodyView::Empty),
    {
        self.playback_request(Method::Post, "/pause", RequestBody::Empty)
    }

    /// Toggles between playing and paused.
    pub fn play_pause(&self) -> (r: Request)
        ensures
            r@ == self@.playback(Method::Post, "/playpause"@, RequestBodyView::Empty),
    {
        self.playback_request(Method::Post, "/playpause", RequestBody::Empty)
    }

    /// Stops playback and unloads the track; the queue stays.
    pub fn stop(&self) -> (r: Request)
        ensures
            r@ == self@.playback(Method::Post, "/stop"@, RequestBodyView::Empty),
    {
        self.playback_request(Method::Post, "/stop", RequestBody::Empty)
    }

    /// Skips to the next track of the queue.
    pub fn next(&self) -> (r: Request)
        ensures
            r@ == self@.playback(Method::Post, "/next"@, RequestBodyView::Empty),
    {
        self.playback_request(Method::Post, "/next", RequestBody::Empty)
    }

    /// Goes back to the track played before.
    pub fn previous(&self) -> (r: Request)
        ensures
            r@ == self@.playback(Method::Post, "/previous"@, RequestBodyView::Empty),
    {
        self.playback_request(Method::Post, "/previous", RequestBody::Empty)
    }

    /// Asks for the playback queue.
    pub fn get_queue(&self) -> (r: Request)
        ensures
            r@ == self@.playback(Method::Get, "/queue"@, RequestBodyView::Empty),
    {
        self.playback_request(Method::Get, "/queue", RequestBody::Empty)
    }

    /// Clears the queue.
    pub fn clear_queue(&self) -> (r: Request)
        ensures
            r@ == self@.playback(Method::Post, "/queue/clear-queue"@, RequestBodyView::Empty),
    {
        self.playback_request(Method::Post, "/queue/clear-queue", RequestBody::Empty)
    }

    /// Asks for the volume.
    pub fn get_volume(&self) -> (r: Request)
        ensures
            r@ == self@.playback(Method::Get, "/volume"@, RequestBodyView::Empty),
    {
        self.playback_request(Method::Get, "/volume", RequestBody::Empty)
    }

    /// Adds the loaded track to the library.
    pub fn add_to_library(&self) -> (r: Request)
        ensures
            r@ == self@.playback(Method::Post, "/add-to-library"@, RequestBodyView::Empty),
    {
        self.playback_request(Method::Post, "/add-to-library", RequestBody::Empty)
    }

    /// Asks for the repeat mode.
    pub fn get_repeat_mode(&self) -> (r: Request)
        ensures
            r@ == self@.playback(Method::Get, "/repeat-mode"@, RequestBodyView::Empty),
    {
        self.playback_request(Method::Get, "/repeat-mode", RequestBody::Empty)
    }

    /// Steps the repeat mode: this track, all, off.
    pub fn toggle_repeat(&self) -> (r: Request)
        ensures
            r@ == self@.playback(Method::Post, "/toggle-repeat"@, RequestBodyView::Empty),
    {
        self.playback_request(Method::Post, "/toggle-repeat", RequestBody::Empty)
    }

    /// Asks for the shuffle mode.
    pub fn get_shuffle_mode(&self) -> (r: Request)
        ensures
            r@ == self@.playback(Method::Get, "/shuffle-mode"@, RequestBodyView::Empty),
    {
        self.playback_request(Method::Get, "/shuffle-mode", RequestBody::Empty)
    }

    /// Turns shuffle on or off.
    pub fn toggle_shuffle(&self) -> (r: Request)
        ensures
            r@ == self@.playback(Method::Post, "/toggle-shuffle"@, RequestBodyView::Empty),
    {
        self.playback_request(Method::Post, "/toggle-shuffle", RequestBody::Empty)
    }

    /// Asks whether autoplay is on.
    pub fn get_autoplay(&self) -> (r: Request)
        ensures
            r@ == self@.playback(Method::Get, "/autoplay"@, RequestBodyView::Empty),
    {
        self.playback_request(Method::Get, "/autoplay", RequestBody::Empty)
    }

    /// Turns autoplay on or off.
    pub fn toggle_autoplay(&self) -> (r: Request)
        ensures
            r@ == self@.playback(Method::Post, "/toggle-autoplay"@, RequestBodyView::Empty),
    {
        self.playback_request(Method::Post, "/toggle-autoplay", RequestBody::Empty)
    }

    /// Seeks to `position_secs`, an offset into the track in seconds.
    pub fn seek(&self, position_secs: Float64) -> (r: Request)
        ensures
            r@ == self@.playback(
                Method::Post,
                "/seek"@,
                RequestBodyView::Seek { position: position_secs },
            ),
    {
        self.playback_request(
            Method::Post,
            "/seek",
            RequestBody::Seek(SeekRequest { position: position_secs }),
        )
    }

    /// Seeks to `position_ms`, an offset into the track in milliseconds:
    /// the same request as [`CiderClient::seek`] forms for that many
    /// thousandths of a second.
    pub fn seek_ms(&self, position_ms: u64) -> (r: Request)
        ensures
            r@ == self@.playback(
                Method::Post,
                "/seek"@,
                RequestBodyView::Seek { position: seconds_of_millis(position_ms) },
            ),
    {
        self.seek(Float64::from_millis(position_ms))
    }

    /// Plays what a web URL of the catalogue points to.
    pub fn play_url(&self, url: &str) -> (r: Request)
        ensures
            r@ == self@.playback(Method::Post, "/play-url"@, RequestBodyView::PlayUrl { url: url@ }),
    {
        self.playback_request(
            Method::Post,
            "/play-url",
            RequestBody::PlayUrl(PlayUrlRequest { url: String::from_str(url) }),
        )
    }

    /// Plays an item, given its type and its catalogue identifier.
    pub fn play_item(&self, item_type: &str, id: &str) -> (r: Request)
        ensures
            r@ == self@.playback(
                Method::Post,
                "/play-item"@,
                RequestBodyView::PlayItem { item_type: item_type@, id: id@ },
            ),
    {
        self.playback_request(
            Method::Post,
            "/play-item",
            RequestBody::PlayItem(
                PlayItemRequest { item_type: String::from_str(item_type), id: String::from_str(id) },
            ),
        )
    }

    /// Plays an item, given its API reference.
    pub fn play_item_href(&self, href: &str) -> (r: Request)
        ensures
            r@ == self@.playback(
                Method::Post,
                "/play-item-href"@,
                RequestBodyView::PlayItemHref { href: href@ },
            ),
    {
        self.playback_request(
            Method::Post,
            "/play-item-href",
            RequestBody::PlayItemHref(PlayItemHrefRequest { href: String::from_str(href) }),
        )
    }

    /// Puts an item at the start of the queue, to be played next.
    pub fn play_next(&self, item_type: &str, id: &str) -> (r: Request)
        ensures
            r@ == self@.playback(
                Method::Post,
                "/play-next"@,
                RequestBodyView::PlayItem { item_type: item_type@, id: id@ },
            ),
    {
        self.playback_request(
            Method::Post,
            "/play-next",
            RequestBody::PlayItem(
                PlayItemRequest { item_type: String::from_str(item_type), id: String::from_str(id) },
            ),
        )
    }

    /// Puts an item at the end of the queue, to be played last.
    pub fn play_later(&self, item_type: &str, id: &str) -> (r: Request)
        ensures
            r@ == self@.playback(
                Method::Post,
                "/play-later"@,
                RequestBodyView::PlayItem { item_type: item_type@, id: id@ },
            ),
    {
        self.playback_request(
            Method::Post,
            "/play-later",
            RequestBody::PlayItem(
                PlayItemRequest { item_type: String::from_str(item_type), id: String::from_str(id) },
            ),
        )
    }

    /// Moves a queue entry from one place to another. Both indices count
    /// from one and are sent as they are given; the reply is not asked to
    /// hold the queue.
    pub fn queue_move_to_position(&self, start_index: u32, destination_index: u32) -> (r: Request)
        ensures
            r@ == self@.playback(
                Method::Post,
                "/queue/move-to-position"@,
                RequestBodyView::QueueMove { start_index, destination_index, return_queue: None },
            ),
    {
        self.playback_request(
            Method::Post,
            "/queue/move-to-position",
            RequestBody::QueueMove(
                QueueMoveRequest { start_index, destination_index, return_queue: None },
            ),
        )
    }

    /// Removes a queue entry. The index counts from one and is sent as it
    /// is given.
    pub fn queue_remove_by_index(&self, index: u32) -> (r: Request)
        ensures
            r@ == self@.playback(
                Method::Post,
                "/queue/remove-by-index"@,
                RequestBodyView::QueueRemove { index },
            ),
    {
        self.playback_request(
            Method::Post,
            "/queue/remove-by-index",
            RequestBody::QueueRemove(QueueRemoveRequest { index }),
        )
    }

    /// Sets the volume. What is sent is `volume` restricted to the closed
    /// interval from zero to one.
    pub fn set_volume(&self, volume: Float32) -> (r: Request)
        ensures
            r@ == self@.playback(
                Method::Post,
                "/volume"@,
                RequestBodyView::Volume { volume: volume.unit_clamped() },
            ),
            !volume.is_nan() ==> r@.body->Volume_volume.in_unit_interval(),
    {
        self.playback_request(
            Method::Post,
            "/volume",
            RequestBody::Volume(VolumeRequest { volume: volume.clamp_unit() }),
        )
    }

    /// Rates the loaded track. What is sent is `rating` restricted to `-1`
    /// (dislike), `0` (no rating) and `1` (like).
    pub fn set_rating(&self, rating: i8) -> (r: Request)
        ensures
            r@ == self@.playback(
                Method::Post,
                "/set-rating"@,
                RequestBodyView::Rating { rating: clamped_rating(rating) },
            ),
            -1 <= r@.body->Rating_rating <= 1,
    {
        let clamped: i8 = if rating < -1 {
            -1
        } else if rating > 1 {
            1
        } else {
            rating
        };
        self.playback_request(
            Method::Post,
            "/set-rating",
            RequestBody::Rating(RatingRequest { rating: clamped }),
        )
    }

    /// Passes a catalogue API path through the player.
    pub fn amapi_run_v3(&self, path: &str) -> (r: Request)
        ensures
            r@ == self@.raw(
                Method::Post,
                passthrough_path(),
                RequestBodyView::AmApi { path: path@ },
            ),
    {
        self.raw_request(
            Method::Post,
            "/api/v1/amapi/run-v3",
            RequestBody::AmApi(AmApiRequest { path: String::from_str(path) }),
        )
    }
}

} // verus!
