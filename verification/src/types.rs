//! The records of the wire: what the player sends and what it is sent.
//!
//! Each record that is read from a response has a mathematical value (its
//! view), a specification function that says what a JSON object means as
//! such a record, and a reader that is proved against it. Reading is
//! tolerant: see [`crate::field`].

use crate::field::{
    binary64_field, flag_field, opt_flag_field, opt_items_field, opt_object_field,
    opt_text_field, opt_unsigned_field, opt_value_field, read_binary64, read_flag,
    read_opt_binary64, read_opt_flag, read_opt_items, read_opt_object, read_opt_text,
    read_opt_unsigned, read_opt_value, read_text, read_text_list, read_unsigned, text_field,
    text_list_field, unsigned_field, opt_binary64_field,
};
use crate::json::{clone_items, lemma_values_of, values_of, Json, JsonValue};
use crate::number::{Float32, Float64};
use crate::text::{
    decimal, decimal_string, disjoint_chars, is_digit, lemma_decimal_digits,
    lemma_replace_adds_no_occurrence, lemma_replace_at_head, lemma_replace_skips_head,
    lemma_replace_without_first_char, lemma_replace_without_occurrence, occurs, occurs_at,
    replace_all, replace_each,
};
use vstd::prelude::*;

verus! {

// Response envelope

/// The envelope of a response: a status beside the fields of the payload,
/// all members of one object.
#[derive(Debug, Clone)]
pub struct ApiResponse<T> {
    /// The status, as a rule `ok`.
    pub status: String,
    /// The payload, read from the same object.
    pub data: T,
}

impl<T> ApiResponse<T> {
    /// Joins the status that an object carries with a payload read from the
    /// same object. There is an envelope where the object has a string as
    /// its `status` and the payload could be read.
    pub fn from_json(j: &Json, data: Option<T>) -> (r: Option<ApiResponse<T>>)
        ensures
            match r {
                Some(e) => opt_text_field(j@, "status"@) == Some(e.status@) && data == Some(
                    e.data,
                ),
                None => opt_text_field(j@, "status"@) is None || data is None,
            },
    {
        let status = read_opt_text(j, "status");
        match status {
            Some(status) => match data {
                Some(data) => Some(ApiResponse { status, data }),
                None => None,
            },
            None => None,
        }
    }

    /// The payload without its envelope.
    pub fn into_data(self) -> (data: T)
        ensures
            data == self.data,
    {
        self.data
    }
}

// Records read from responses


/// Artwork of a track, an album or a station.
///
/// `url` is a template: it may hold the placeholders `{w}` and `{h}` for the
/// wanted size, which [`Artwork::url_for_size`] fills in. The colours are
/// hexadecimal strings that some containers carry.
#[derive(Debug, Clone)]
pub struct Artwork {
    /// Width of the image in pixels.
    pub width: u32,
    /// Height of the image in pixels.
    pub height: u32,
    /// URL template of the image.
    pub url: String,
    /// First text colour.
    pub text_color1: Option<String>,
    /// Second text colour.
    pub text_color2: Option<String>,
    /// Third text colour.
    pub text_color3: Option<String>,
    /// Fourth text colour.
    pub text_color4: Option<String>,
    /// Background colour.
    pub bg_color: Option<String>,
    /// Whether the image uses the wide colour space of the display.
    pub has_p3: Option<bool>,
}

/// The mathematical value of an [`Artwork`].
pub struct ArtworkView {
    pub width: u32,
    pub height: u32,
    pub url: Seq<char>,
    pub text_color1: Option<Seq<char>>,
    pub text_color2: Option<Seq<char>>,
    pub text_color3: Option<Seq<char>>,
    pub text_color4: Option<Seq<char>>,
    pub bg_color: Option<Seq<char>>,
    pub has_p3: Option<bool>,
}

impl View for Artwork {
    type V = ArtworkView;

    open spec fn view(&self) -> ArtworkView {
        ArtworkView {
            width: self.width,
            height: self.height,
            url: self.url@,
            text_color1: self.text_color1.deep_view(),
            text_color2: self.text_color2.deep_view(),
            text_color3: self.text_color3.deep_view(),
            text_color4: self.text_color4.deep_view(),
            bg_color: self.bg_color.deep_view(),
            has_p3: self.has_p3,
        }
    }
}

/// What identifies a playable item: its catalogue identifier and its kind.
#[derive(Debug, Clone)]
pub struct PlayParams {
    /// Catalogue identifier.
    pub id: String,
    /// Kind of item, such as `song`, `album` or `radioStation`.
    pub kind: String,
}

/// The mathematical value of a [`PlayParams`].
pub struct PlayParamsView {
    pub id: Seq<char>,
    pub kind: Seq<char>,
}

impl View for PlayParams {
    type V = PlayParamsView;

    open spec fn view(&self) -> PlayParamsView {
        PlayParamsView {
            id: self.id@,
            kind: self.kind@,
        }
    }
}

/// A short audio preview of a track.
#[derive(Debug, Clone)]
pub struct Preview {
    /// URL of the preview audio.
    pub url: String,
}

/// The mathematical value of a [`Preview`].
pub struct PreviewView {
    pub url: Seq<char>,
}

impl View for Preview {
    type V = PreviewView;

    open spec fn view(&self) -> PreviewView {
        PreviewView {
            url: self.url@,
        }
    }
}

/// The track that is loaded, with where playback stands in it.
///
/// Every field has a zero value that stands in where the player sends
/// nothing usable for it.
#[derive(Debug, Clone)]
pub struct NowPlaying {
    /// Name of the song.
    pub name: String,
    /// Name of the artist.
    pub artist_name: String,
    /// Name of the album.
    pub album_name: String,
    /// Artwork of the track.
    pub artwork: Artwork,
    /// Length of the track in milliseconds.
    pub duration_in_millis: u64,
    /// Identifier and kind of the track.
    pub play_params: Option<PlayParams>,
    /// Web URL of the track.
    pub url: Option<String>,
    /// International Standard Recording Code.
    pub isrc: Option<String>,
    /// Playback position in seconds.
    pub current_playback_time: Float64,
    /// Remaining playback time in seconds.
    pub remaining_time: Float64,
    /// Shuffle mode: `0` is off, `1` is on.
    pub shuffle_mode: u8,
    /// Repeat mode: `0` is off, `1` repeats the track, `2` repeats all.
    pub repeat_mode: u8,
    /// Whether the track is among the favourites.
    pub in_favorites: bool,
    /// Whether the track is in the library.
    pub in_library: bool,
    /// Names of the genres.
    pub genre_names: Vec<String>,
    /// Number of the track on its album.
    pub track_number: u32,
    /// Number of the disc in its album.
    pub disc_number: u32,
    /// Release date, in ISO 8601 form.
    pub release_date: Option<String>,
    /// Locale of the audio, such as `en-US`.
    pub audio_locale: Option<String>,
    /// Name of the composer.
    pub composer_name: Option<String>,
    /// Whether the track has lyrics.
    pub has_lyrics: bool,
    /// Whether the lyrics are synchronised with the audio.
    pub has_time_synced_lyrics: bool,
    /// Whether the vocals can be turned down.
    pub is_vocal_attenuation_allowed: bool,
    /// Older mark of a high-resolution master.
    pub is_mastered_for_itunes: bool,
    /// Whether the track is a high-resolution master.
    pub is_apple_digital_master: bool,
    /// Traits of the audio, such as `lossless` or `atmos`.
    pub audio_traits: Vec<String>,
    /// Audio previews.
    pub previews: Vec<Preview>,
}

/// The mathematical value of a [`NowPlaying`].
pub struct NowPlayingView {
    pub name: Seq<char>,
    pub artist_name: Seq<char>,
    pub album_name: Seq<char>,
    pub artwork: ArtworkView,
    pub duration_in_millis: u64,
    pub play_params: Option<PlayParamsView>,
    pub url: Option<Seq<char>>,
    pub isrc: Option<Seq<char>>,
    pub current_playback_time: Float64,
    pub remaining_time: Float64,
    pub shuffle_mode: u8,
    pub repeat_mode: u8,
    pub in_favorites: bool,
    pub in_library: bool,
    pub genre_names: Seq<Seq<char>>,
    pub track_number: u32,
    pub disc_number: u32,
    pub release_date: Option<Seq<char>>,
    pub audio_locale: Option<Seq<char>>,
    pub composer_name: Option<Seq<char>>,
    pub has_lyrics: bool,
    pub has_time_synced_lyrics: bool,
    pub is_vocal_attenuation_allowed: bool,
    pub is_mastered_for_itunes: bool,
    pub is_apple_digital_master: bool,
    pub audio_traits: Seq<Seq<char>>,
    pub previews: Seq<PreviewView>,
}

impl View for NowPlaying {
    type V = NowPlayingView;

    open spec fn view(&self) -> NowPlayingView {
        NowPlayingView {
            name: self.name@,
            artist_name: self.artist_name@,
            album_name: self.album_name@,
            artwork: self.artwork@,
            duration_in_millis: self.duration_in_millis,
            play_params: match self.play_params {
                Some(v) => Some(v@),
                None => None,
            },
            url: self.url.deep_view(),
            isrc: self.isrc.deep_view(),
            current_playback_time: self.current_playback_time,
            remaining_time: self.remaining_time,
            shuffle_mode: self.shuffle_mode,
            repeat_mode: self.repeat_mode,
            in_favorites: self.in_favorites,
            in_library: self.in_library,
            genre_names: self.genre_names.deep_view(),
            track_number: self.track_number,
            disc_number: self.disc_number,
            release_date: self.release_date.deep_view(),
            audio_locale: self.audio_locale.deep_view(),
            composer_name: self.composer_name.deep_view(),
            has_lyrics: self.has_lyrics,
            has_time_synced_lyrics: self.has_time_synced_lyrics,
            is_vocal_attenuation_allowed: self.is_vocal_attenuation_allowed,
            is_mastered_for_itunes: self.is_mastered_for_itunes,
            is_apple_digital_master: self.is_apple_digital_master,
            audio_traits: self.audio_traits.deep_view(),
            previews: preview_views(self.previews@),
        }
    }
}

/// What a queue entry says of its track.
#[derive(Debug, Clone)]
pub struct QueueItemAttributes {
    /// Name of the song.
    pub name: String,
    /// Name of the artist.
    pub artist_name: String,
    /// Name of the album.
    pub album_name: String,
    /// Length of the track in milliseconds.
    pub duration_in_millis: u64,
    /// Artwork of the track.
    pub artwork: Option<Artwork>,
    /// Identifier and kind of the track.
    pub play_params: Option<PlayParams>,
    /// Web URL of the track.
    pub url: Option<String>,
    /// International Standard Recording Code.
    pub isrc: Option<String>,
    /// Names of the genres.
    pub genre_names: Vec<String>,
    /// Number of the track on its album.
    pub track_number: u32,
    /// Number of the disc in its album.
    pub disc_number: u32,
    /// Release date, in ISO 8601 form.
    pub release_date: Option<String>,
    /// Locale of the audio, such as `en-US`.
    pub audio_locale: Option<String>,
    /// Name of the composer.
    pub composer_name: Option<String>,
    /// Whether the track has lyrics.
    pub has_lyrics: bool,
    /// Whether the lyrics are synchronised with the audio.
    pub has_time_synced_lyrics: bool,
    /// Whether the vocals can be turned down.
    pub is_vocal_attenuation_allowed: bool,
    /// Older mark of a high-resolution master.
    pub is_mastered_for_itunes: bool,
    /// Whether the track is a high-resolution master.
    pub is_apple_digital_master: bool,
    /// Traits of the audio, such as `lossless` or `atmos`.
    pub audio_traits: Vec<String>,
    /// Audio previews.
    pub previews: Vec<Preview>,
    /// Playback position in seconds.
    pub current_playback_time: Float64,
    /// Remaining playback time in seconds.
    pub remaining_time: Float64,
}

/// The mathematical value of a [`QueueItemAttributes`].
pub struct QueueItemAttributesView {
    pub name: Seq<char>,
    pub artist_name: Seq<char>,
    pub album_name: Seq<char>,
    pub duration_in_millis: u64,
    pub artwork: Option<ArtworkView>,
    pub play_params: Option<PlayParamsView>,
    pub url: Option<Seq<char>>,
    pub isrc: Option<Seq<char>>,
    pub genre_names: Seq<Seq<char>>,
    pub track_number: u32,
    pub disc_number: u32,
    pub release_date: Option<Seq<char>>,
    pub audio_locale: Option<Seq<char>>,
    pub composer_name: Option<Seq<char>>,
    pub has_lyrics: bool,
    pub has_time_synced_lyrics: bool,
    pub is_vocal_attenuation_allowed: bool,
    pub is_mastered_for_itunes: bool,
    pub is_apple_digital_master: bool,
    pub audio_traits: Seq<Seq<char>>,
    pub previews: Seq<PreviewView>,
    pub current_playback_time: Float64,
    pub remaining_time: Float64,
}

impl View for QueueItemAttributes {
    type V = QueueItemAttributesView;

    open spec fn view(&self) -> QueueItemAttributesView {
        QueueItemAttributesView {
            name: self.name@,
            artist_name: self.artist_name@,
            album_name: self.album_name@,
            duration_in_millis: self.duration_in_millis,
            artwork: match self.artwork {
                Some(v) => Some(v@),
                None => None,
            },
            play_params: match self.play_params {
                Some(v) => Some(v@),
                None => None,
            },
            url: self.url.deep_view(),
            isrc: self.isrc.deep_view(),
            genre_names: self.genre_names.deep_view(),
            track_number: self.track_number,
            disc_number: self.disc_number,
            release_date: self.release_date.deep_view(),
            audio_locale: self.audio_locale.deep_view(),
            composer_name: self.composer_name.deep_view(),
            has_lyrics: self.has_lyrics,
            has_time_synced_lyrics: self.has_time_synced_lyrics,
            is_vocal_attenuation_allowed: self.is_vocal_attenuation_allowed,
            is_mastered_for_itunes: self.is_mastered_for_itunes,
            is_apple_digital_master: self.is_apple_digital_master,
            audio_traits: self.audio_traits.deep_view(),
            previews: preview_views(self.previews@),
            current_playback_time: self.current_playback_time,
            remaining_time: self.remaining_time,
        }
    }
}

/// Where a queue entry stands in playback.
#[derive(Debug, Clone)]
pub struct QueueItemState {
    /// `2` marks the entry that is playing.
    pub current: Option<u8>,
}

/// The mathematical value of a [`QueueItemState`].
pub struct QueueItemStateView {
    pub current: Option<u8>,
}

impl View for QueueItemState {
    type V = QueueItemStateView;

    open spec fn view(&self) -> QueueItemStateView {
        QueueItemStateView {
            current: self.current,
        }
    }
}

/// The playlist, station or album that a queue entry came from.
#[derive(Debug, Clone)]
pub struct QueueContainer {
    /// Identifier of the container.
    pub id: Option<String>,
    /// Type of the container, such as `stations` or `playlists`.
    pub container_type: Option<String>,
    /// API reference of the container.
    pub href: Option<String>,
    /// Name of the container.
    pub name: Option<String>,
    /// Attributes of the container, as they came.
    pub attributes: Option<Json>,
}

/// The mathematical value of a [`QueueContainer`].
pub struct QueueContainerView {
    pub id: Option<Seq<char>>,
    pub container_type: Option<Seq<char>>,
    pub href: Option<Seq<char>>,
    pub name: Option<Seq<char>>,
    pub attributes: Option<JsonValue>,
}

impl View for QueueContainer {
    type V = QueueContainerView;

    open spec fn view(&self) -> QueueContainerView {
        QueueContainerView {
            id: self.id.deep_view(),
            container_type: self.container_type.deep_view(),
            href: self.href.deep_view(),
            name: self.name.deep_view(),
            attributes: match self.attributes {
                Some(v) => Some(v@),
                None => None,
            },
        }
    }
}

/// How a queue entry came to be queued.
#[derive(Debug, Clone)]
pub struct QueueContext {
    /// The feature that queued the entry.
    pub feature_name: Option<String>,
}

/// The mathematical value of a [`QueueContext`].
pub struct QueueContextView {
    pub feature_name: Option<Seq<char>>,
}

impl View for QueueContext {
    type V = QueueContextView;

    open spec fn view(&self) -> QueueContextView {
        QueueContextView {
            feature_name: self.feature_name.deep_view(),
        }
    }
}

/// Where the keys for protected streaming are to be had.
#[derive(Debug, Clone)]
pub struct KeyUrls {
    /// URL of the certificate bundle.
    pub hls_key_cert_url: Option<String>,
    /// URL of the licence server.
    pub hls_key_server_url: Option<String>,
    /// URL of the Widevine certificate.
    pub widevine_cert_url: Option<String>,
}

/// The mathematical value of a [`KeyUrls`].
pub struct KeyUrlsView {
    pub hls_key_cert_url: Option<Seq<char>>,
    pub hls_key_server_url: Option<Seq<char>>,
    pub widevine_cert_url: Option<Seq<char>>,
}

impl View for KeyUrls {
    type V = KeyUrlsView;

    open spec fn view(&self) -> KeyUrlsView {
        KeyUrlsView {
            hls_key_cert_url: self.hls_key_cert_url.deep_view(),
            hls_key_server_url: self.hls_key_server_url.deep_view(),
            widevine_cert_url: self.widevine_cert_url.deep_view(),
        }
    }
}

/// One entry of the playback queue.
///
/// The queue holds what was played, what is playing and what comes next;
/// [`QueueItem::is_current`] tells the entry that is playing.
#[derive(Debug, Clone)]
pub struct QueueItem {
    /// Catalogue identifier of the entry.
    pub id: Option<String>,
    /// Type of the entry, such as `song`.
    pub item_type: Option<String>,
    /// Streaming URL of the asset.
    pub asset_url: Option<String>,
    /// Streaming metadata, as it came.
    pub hls_metadata: Option<Json>,
    /// Codec descriptor of the audio.
    pub flavor: Option<String>,
    /// What the entry says of its track.
    pub attributes: Option<QueueItemAttributes>,
    /// Identifier of the playback type.
    pub playback_type: Option<u32>,
    /// Where the entry came from.
    pub container: Option<QueueContainer>,
    /// How the entry came to be queued.
    pub context: Option<QueueContext>,
    /// Where the entry stands in playback.
    pub state: Option<QueueItemState>,
    /// Identifier of the song, which may differ from `id`.
    pub song_id: Option<String>,
    /// The audio assets on offer, as they came.
    pub assets: Option<Vec<Json>>,
    /// Key URLs for protected streaming.
    pub key_urls: Option<KeyUrls>,
}

/// The mathematical value of a [`QueueItem`].
pub struct QueueItemView {
    pub id: Option<Seq<char>>,
    pub item_type: Option<Seq<char>>,
    pub asset_url: Option<Seq<char>>,
    pub hls_metadata: Option<JsonValue>,
    pub flavor: Option<Seq<char>>,
    pub attributes: Option<QueueItemAttributesView>,
    pub playback_type: Option<u32>,
    pub container: Option<QueueContainerView>,
    pub context: Option<QueueContextView>,
    pub state: Option<QueueItemStateView>,
    pub song_id: Option<Seq<char>>,
    pub assets: Option<Seq<JsonValue>>,
    pub key_urls: Option<KeyUrlsView>,
}

impl View for QueueItem {
    type V = QueueItemView;

    open spec fn view(&self) -> QueueItemView {
        QueueItemView {
            id: self.id.deep_view(),
            item_type: self.item_type.deep_view(),
            asset_url: self.asset_url.deep_view(),
            hls_metadata: match self.hls_metadata {
                Some(v) => Some(v@),
                None => None,
            },
            flavor: self.flavor.deep_view(),
            attributes: match self.attributes {
                Some(v) => Some(v@),
                None => None,
            },
            playback_type: self.playback_type,
            container: match self.container {
                Some(v) => Some(v@),
                None => None,
            },
            context: match self.context {
                Some(v) => Some(v@),
                None => None,
            },
            state: match self.state {
                Some(v) => Some(v@),
                None => None,
            },
            song_id: self.song_id.deep_view(),
            assets: match self.assets {
                Some(v) => Some(values_of(v@)),
                None => None,
            },
            key_urls: match self.key_urls {
                Some(v) => Some(v@),
                None => None,
            },
        }
    }
}

// What a JSON object means as each record

/// The object behind an optional member, or `null` where there is none.
pub open spec fn object_or_null(o: Option<JsonValue>) -> JsonValue {
    match o {
        Some(v) => v,
        None => JsonValue::Null,
    }
}

/// The values of a list of previews.
pub open spec fn preview_views(previews: Seq<Preview>) -> Seq<PreviewView> {
    Seq::new(previews.len(), |i: int| previews[i]@)
}

/// Whether every item is an object.
pub open spec fn all_objects(items: Seq<JsonValue>) -> bool {
    forall|i: int| 0 <= i < items.len() ==> (#[trigger] items[i]) is Object
}

/// The previews under `name`, or the empty list where no array of objects
/// alone stands there.
pub open spec fn previews_field(j: JsonValue, name: Seq<char>) -> Seq<PreviewView> {
    match opt_items_field(j, name) {
        Some(items) => if all_objects(items) {
            Seq::new(items.len(), |i: int| preview_of(items[i]))
        } else {
            Seq::empty()
        },
        None => Seq::empty(),
    }
}


/// What an object says of an [`Artwork`], member by member; a value that is no
/// object says nothing, and every field then has its zero value.
pub open spec fn artwork_of(j: JsonValue) -> ArtworkView {
    ArtworkView {
        width: unsigned_field(j, "width"@, 0xFFFF_FFFF) as u32,
        height: unsigned_field(j, "height"@, 0xFFFF_FFFF) as u32,
        url: text_field(j, "url"@),
        text_color1: opt_text_field(j, "textColor1"@),
        text_color2: opt_text_field(j, "textColor2"@),
        text_color3: opt_text_field(j, "textColor3"@),
        text_color4: opt_text_field(j, "textColor4"@),
        bg_color: opt_text_field(j, "bgColor"@),
        has_p3: opt_flag_field(j, "hasP3"@),
    }
}

/// What an object says of a [`PlayParams`], member by member; a value that is no
/// object says nothing, and every field then has its zero value.
pub open spec fn play_params_of(j: JsonValue) -> PlayParamsView {
    PlayParamsView {
        id: text_field(j, "id"@),
        kind: text_field(j, "kind"@),
    }
}

/// What an object says of a [`Preview`], member by member; a value that is no
/// object says nothing, and every field then has its zero value.
pub open spec fn preview_of(j: JsonValue) -> PreviewView {
    PreviewView {
        url: text_field(j, "url"@),
    }
}

/// What an object says of a [`NowPlaying`], member by member; a value that is no
/// object says nothing, and every field then has its zero value.
pub open spec fn now_playing_of(j: JsonValue) -> NowPlayingView {
    NowPlayingView {
        name: text_field(j, "name"@),
        artist_name: text_field(j, "artistName"@),
        album_name: text_field(j, "albumName"@),
        artwork: artwork_of(object_or_null(opt_object_field(j, "artwork"@))),
        duration_in_millis: unsigned_field(j, "durationInMillis"@, 0xFFFF_FFFF_FFFF_FFFF),
        play_params: match opt_object_field(j, "playParams"@) {
            Some(o) => Some(play_params_of(o)),
            None => None,
        },
        url: opt_text_field(j, "url"@),
        isrc: opt_text_field(j, "isrc"@),
        current_playback_time: binary64_field(j, "currentPlaybackTime"@),
        remaining_time: binary64_field(j, "remainingTime"@),
        shuffle_mode: unsigned_field(j, "shuffleMode"@, 0xFF) as u8,
        repeat_mode: unsigned_field(j, "repeatMode"@, 0xFF) as u8,
        in_favorites: flag_field(j, "inFavorites"@),
        in_library: flag_field(j, "inLibrary"@),
        genre_names: text_list_field(j, "genreNames"@),
        track_number: unsigned_field(j, "trackNumber"@, 0xFFFF_FFFF) as u32,
        disc_number: unsigned_field(j, "discNumber"@, 0xFFFF_FFFF) as u32,
        release_date: opt_text_field(j, "releaseDate"@),
        audio_locale: opt_text_field(j, "audioLocale"@),
        composer_name: opt_text_field(j, "composerName"@),
        has_lyrics: flag_field(j, "hasLyrics"@),
        has_time_synced_lyrics: flag_field(j, "hasTimeSyncedLyrics"@),
        is_vocal_attenuation_allowed: flag_field(j, "isVocalAttenuationAllowed"@),
        is_mastered_for_itunes: flag_field(j, "isMasteredForItunes"@),
        is_apple_digital_master: flag_field(j, "isAppleDigitalMaster"@),
        audio_traits: text_list_field(j, "audioTraits"@),
        previews: previews_field(j, "previews"@),
    }
}

/// What an object says of a [`QueueItemAttributes`], member by member; a value that is no
/// object says nothing, and every field then has its zero value.
pub open spec fn attributes_of(j: JsonValue) -> QueueItemAttributesView {
    QueueItemAttributesView {
        name: text_field(j, "name"@),
        artist_name: text_field(j, "artistName"@),
        album_name: text_field(j, "albumName"@),
        duration_in_millis: unsigned_field(j, "durationInMillis"@, 0xFFFF_FFFF_FFFF_FFFF),
        artwork: match opt_object_field(j, "artwork"@) {
            Some(o) => Some(artwork_of(o)),
            None => None,
        },
        play_params: match opt_object_field(j, "playParams"@) {
            Some(o) => Some(play_params_of(o)),
            None => None,
        },
        url: opt_text_field(j, "url"@),
        isrc: opt_text_field(j, "isrc"@),
        genre_names: text_list_field(j, "genreNames"@),
        track_number: unsigned_field(j, "trackNumber"@, 0xFFFF_FFFF) as u32,
        disc_number: unsigned_field(j, "discNumber"@, 0xFFFF_FFFF) as u32,
        release_date: opt_text_field(j, "releaseDate"@),
        audio_locale: opt_text_field(j, "audioLocale"@),
        composer_name: opt_text_field(j, "composerName"@),
        has_lyrics: flag_field(j, "hasLyrics"@),
        has_time_synced_lyrics: flag_field(j, "hasTimeSyncedLyrics"@),
        is_vocal_attenuation_allowed: flag_field(j, "isVocalAttenuationAllowed"@),
        is_mastered_for_itunes: flag_field(j, "isMasteredForItunes"@),
        is_apple_digital_master: flag_field(j, "isAppleDigitalMaster"@),
        audio_traits: text_list_field(j, "audioTraits"@),
        previews: previews_field(j, "previews"@),
        current_playback_time: binary64_field(j, "currentPlaybackTime"@),
        remaining_time: binary64_field(j, "remainingTime"@),
    }
}

/// What an object says of a [`QueueItemState`], member by member; a value that is no
/// object says nothing, and every field then has its zero value.
pub open spec fn state_of(j: JsonValue) -> QueueItemStateView {
    QueueItemStateView {
        current: match opt_unsigned_field(j, "current"@, 0xFF) {
            Some(n) => Some(n as u8),
            None => None,
        },
    }
}

/// What an object says of a [`QueueContainer`], member by member; a value that is no
/// object says nothing, and every field then has its zero value.
pub open spec fn container_of(j: JsonValue) -> QueueContainerView {
    QueueContainerView {
        id: opt_text_field(j, "id"@),
        container_type: opt_text_field(j, "type"@),
        href: opt_text_field(j, "href"@),
        name: opt_text_field(j, "name"@),
        attributes: opt_value_field(j, "attributes"@),
    }
}

/// What an object says of a [`QueueContext`], member by member; a value that is no
/// object says nothing, and every field then has its zero value.
pub open spec fn context_of(j: JsonValue) -> QueueContextView {
    QueueContextView {
        feature_name: opt_text_field(j, "featureName"@),
    }
}

/// What an object says of a [`KeyUrls`], member by member; a value that is no
/// object says nothing, and every field then has its zero value.
pub open spec fn key_urls_of(j: JsonValue) -> KeyUrlsView {
    KeyUrlsView {
        hls_key_cert_url: opt_text_field(j, "hls-key-cert-url"@),
        hls_key_server_url: opt_text_field(j, "hls-key-server-url"@),
        widevine_cert_url: opt_text_field(j, "widevine-cert-url"@),
    }
}

/// What an object says of a [`QueueItem`], member by member; a value that is no
/// object says nothing, and every field then has its zero value.
pub open spec fn queue_item_of(j: JsonValue) -> QueueItemView {
    QueueItemView {
        id: opt_text_field(j, "id"@),
        item_type: opt_text_field(j, "type"@),
        asset_url: opt_text_field(j, "assetURL"@),
        hls_metadata: opt_value_field(j, "hlsMetadata"@),
        flavor: opt_text_field(j, "flavor"@),
        attributes: match opt_object_field(j, "attributes"@) {
            Some(o) => Some(attributes_of(o)),
            None => None,
        },
        playback_type: match opt_unsigned_field(j, "playbackType"@, 0xFFFF_FFFF) {
            Some(n) => Some(n as u32),
            None => None,
        },
        container: match opt_object_field(j, "_container"@) {
            Some(o) => Some(container_of(o)),
            None => None,
        },
        context: match opt_object_field(j, "_context"@) {
            Some(o) => Some(context_of(o)),
            None => None,
        },
        state: match opt_object_field(j, "_state"@) {
            Some(o) => Some(state_of(o)),
            None => None,
        },
        song_id: opt_text_field(j, "_songId"@),
        assets: opt_items_field(j, "assets"@),
        key_urls: match opt_object_field(j, "keyURLs"@) {
            Some(o) => Some(key_urls_of(o)),
            None => None,
        },
    }
}

/// Reads the previews under `name`, or the empty list where no array of
/// objects alone stands there.
pub fn read_previews(j: &Json, name: &str) -> (r: Vec<Preview>)
    ensures
        preview_views(r@) == previews_field(j@, name@),
{
    match read_opt_items(j, name) {
        Some(items) => {
            let ghost values = values_of(items@);
            proof {
                lemma_values_of(items@);
            }
            let mut out: Vec<Preview> = Vec::new();
            let mut i: usize = 0;
            while i < items.len()
                invariant
                    i <= items.len(),
                    opt_items_field(j@, name@) == Some(values),
                    values == values_of(items@),
                    values.len() == items.len(),
                    forall|k: int| 0 <= k < items.len() ==> #[trigger] values[k] == items@[k]@,
                    out.len() == i,
                    forall|k: int| 0 <= k < i ==> (#[trigger] values[k]) is Object,
                    forall|k: int| 0 <= k < i ==> (#[trigger] out@[k])@ == preview_of(values[k]),
                decreases items.len() - i,
            {
                if !items[i].is_object() {
                    assert(!(values[i as int] is Object));
                    return Vec::new();
                }
                let preview = Preview::from_json(&items[i]);
                out.push(preview);
                i += 1;
            }
            out
        },
        None => Vec::new(),
    }
}

// Readers

impl Artwork {
    /// Reads an [`Artwork`] from an object, member by member.
    pub fn from_json(j: &Json) -> (r: Artwork)
        ensures
            r@ == artwork_of(j@),
    {
        let width = read_unsigned(j, "width", 0xFFFF_FFFF) as u32;
        let height = read_unsigned(j, "height", 0xFFFF_FFFF) as u32;
        let url = read_text(j, "url");
        let text_color1 = read_opt_text(j, "textColor1");
        let text_color2 = read_opt_text(j, "textColor2");
        let text_color3 = read_opt_text(j, "textColor3");
        let text_color4 = read_opt_text(j, "textColor4");
        let bg_color = read_opt_text(j, "bgColor");
        let has_p3 = read_opt_flag(j, "hasP3");
        Artwork { width, height, url, text_color1, text_color2, text_color3, text_color4, bg_color, has_p3 }
    }

    /// The URL of the image at the given size: the template with `size`, in
    /// decimal, in place of each `{w}` and each `{h}`. A template without
    /// placeholders comes back as it is.
    pub fn url_for_size(&self, size: u32) -> (r: String)
        ensures
            r@ == rendered_url(self.url@, size),
    {
        let digits = decimal_string(size as u64);
        let widened = replace_each(self.url.as_str(), "{w}", digits.as_str());
        replace_each(widened.as_str(), "{h}", digits.as_str())
    }
}

impl PlayParams {
    /// Reads a [`PlayParams`] from an object, member by member.
    pub fn from_json(j: &Json) -> (r: PlayParams)
        ensures
            r@ == play_params_of(j@),
    {
        let id = read_text(j, "id");
        let kind = read_text(j, "kind");
        PlayParams { id, kind }
    }
}

impl Preview {
    /// Reads a [`Preview`] from an object, member by member.
    pub fn from_json(j: &Json) -> (r: Preview)
        ensures
            r@ == preview_of(j@),
    {
        let url = read_text(j, "url");
        Preview { url }
    }
}

impl NowPlaying {
    /// Reads a [`NowPlaying`] from an object, member by member.
    pub fn from_json(j: &Json) -> (r: NowPlaying)
        ensures
            r@ == now_playing_of(j@),
    {
        let name = read_text(j, "name");
        let artist_name = read_text(j, "artistName");
        let album_name = read_text(j, "albumName");
        let artwork = match read_opt_object(j, "artwork") {
            Some(o) => Artwork::from_json(o),
            None => Artwork::from_json(&Json::Null),
        };
        let duration_in_millis = read_unsigned(j, "durationInMillis", 0xFFFF_FFFF_FFFF_FFFF);
        let play_params = match read_opt_object(j, "playParams") {
            Some(o) => Some(PlayParams::from_json(o)),
            None => None,
        };
        let url = read_opt_text(j, "url");
        let isrc = read_opt_text(j, "isrc");
        let current_playback_time = read_binary64(j, "currentPlaybackTime");
        let remaining_time = read_binary64(j, "remainingTime");
        let shuffle_mode = read_unsigned(j, "shuffleMode", 0xFF) as u8;
        let repeat_mode = read_unsigned(j, "repeatMode", 0xFF) as u8;
        let in_favorites = read_flag(j, "inFavorites");
        let in_library = read_flag(j, "inLibrary");
        let genre_names = read_text_list(j, "genreNames");
        let track_number = read_unsigned(j, "trackNumber", 0xFFFF_FFFF) as u32;
        let disc_number = read_unsigned(j, "discNumber", 0xFFFF_FFFF) as u32;
        let release_date = read_opt_text(j, "releaseDate");
        let audio_locale = read_opt_text(j, "audioLocale");
        let composer_name = read_opt_text(j, "composerName");
        let has_lyrics = read_flag(j, "hasLyrics");
        let has_time_synced_lyrics = read_flag(j, "hasTimeSyncedLyrics");
        let is_vocal_attenuation_allowed = read_flag(j, "isVocalAttenuationAllowed");
        let is_mastered_for_itunes = read_flag(j, "isMasteredForItunes");
        let is_apple_digital_master = read_flag(j, "isAppleDigitalMaster");
        let audio_traits = read_text_list(j, "audioTraits");
        let previews = read_previews(j, "previews");
        NowPlaying { name, artist_name, album_name, artwork, duration_in_millis, play_params, url, isrc, current_playback_time, remaining_time, shuffle_mode, repeat_mode, in_favorites, in_library, genre_names, track_number, disc_number, release_date, audio_locale, composer_name, has_lyrics, has_time_synced_lyrics, is_vocal_attenuation_allowed, is_mastered_for_itunes, is_apple_digital_master, audio_traits, previews }
    }

    /// The identifier of the song: that of the play parameters, where there
    /// are any.
    pub fn song_id(&self) -> (r: Option<&str>)
        ensures
            match r {
                Some(id) => self@.play_params is Some && id@ == self@.play_params->0.id,
                None => self@.play_params is None,
            },
    {
        match &self.play_params {
            Some(p) => Some(p.id.as_str()),
            None => None,
        }
    }

    /// The playback position in whole milliseconds; zero where the
    /// position is below zero, as it is for a moment around a seek.
    pub fn current_position_ms(&self) -> (r: u64)
        ensures
            r == self@.current_playback_time.millis(),
            self@.current_playback_time.sign_set() ==> r == 0,
    {
        self.current_playback_time.to_millis()
    }

    /// The URL of the artwork at the given square size in pixels.
    pub fn artwork_url(&self, size: u32) -> (r: String)
        ensures
            r@ == rendered_url(self@.artwork.url, size),
    {
        self.artwork.url_for_size(size)
    }
}

impl QueueItemAttributes {
    /// Reads a [`QueueItemAttributes`] from an object, member by member.
    pub fn from_json(j: &Json) -> (r: QueueItemAttributes)
        ensures
            r@ == attributes_of(j@),
    {
        let name = read_text(j, "name");
        let artist_name = read_text(j, "artistName");
        let album_name = read_text(j, "albumName");
        let duration_in_millis = read_unsigned(j, "durationInMillis", 0xFFFF_FFFF_FFFF_FFFF);
        let artwork = match read_opt_object(j, "artwork") {
            Some(o) => Some(Artwork::from_json(o)),
            None => None,
        };
        let play_params = match read_opt_object(j, "playParams") {
            Some(o) => Some(PlayParams::from_json(o)),
            None => None,
        };
        let url = read_opt_text(j, "url");
        let isrc = read_opt_text(j, "isrc");
        let genre_names = read_text_list(j, "genreNames");
        let track_number = read_unsigned(j, "trackNumber", 0xFFFF_FFFF) as u32;
        let disc_number = read_unsigned(j, "discNumber", 0xFFFF_FFFF) as u32;
        let release_date = read_opt_text(j, "releaseDate");
        let audio_locale = read_opt_text(j, "audioLocale");
        let composer_name = read_opt_text(j, "composerName");
        let has_lyrics = read_flag(j, "hasLyrics");
        let has_time_synced_lyrics = read_flag(j, "hasTimeSyncedLyrics");
        let is_vocal_attenuation_allowed = read_flag(j, "isVocalAttenuationAllowed");
        let is_mastered_for_itunes = read_flag(j, "isMasteredForItunes");
        let is_apple_digital_master = read_flag(j, "isAppleDigitalMaster");
        let audio_traits = read_text_list(j, "audioTraits");
        let previews = read_previews(j, "previews");
        let current_playback_time = read_binary64(j, "currentPlaybackTime");
        let remaining_time = read_binary64(j, "remainingTime");
        QueueItemAttributes { name, artist_name, album_name, duration_in_millis, artwork, play_params, url, isrc, genre_names, track_number, disc_number, release_date, audio_locale, composer_name, has_lyrics, has_time_synced_lyrics, is_vocal_attenuation_allowed, is_mastered_for_itunes, is_apple_digital_master, audio_traits, previews, current_playback_time, remaining_time }
    }
}

impl QueueItemState {
    /// Reads a [`QueueItemState`] from an object, member by member.
    pub fn from_json(j: &Json) -> (r: QueueItemState)
        ensures
            r@ == state_of(j@),
    {
        let current = match read_opt_unsigned(j, "current", 0xFF) {
            Some(n) => Some(n as u8),
            None => None,
        };
        QueueItemState { current }
    }
}

impl QueueContainer {
    /// Reads a [`QueueContainer`] from an object, member by member.
    pub fn from_json(j: &Json) -> (r: QueueContainer)
        ensures
            r@ == container_of(j@),
    {
        let id = read_opt_text(j, "id");
        let container_type = read_opt_text(j, "type");
        let href = read_opt_text(j, "href");
        let name = read_opt_text(j, "name");
        let attributes = read_opt_value(j, "attributes");
        QueueContainer { id, container_type, href, name, attributes }
    }
}

impl QueueContext {
    /// Reads a [`QueueContext`] from an object, member by member.
    pub fn from_json(j: &Json) -> (r: QueueContext)
        ensures
            r@ == context_of(j@),
    {
        let feature_name = read_opt_text(j, "featureName");
        QueueContext { feature_name }
    }
}

impl KeyUrls {
    /// Reads a [`KeyUrls`] from an object, member by member.
    pub fn from_json(j: &Json) -> (r: KeyUrls)
        ensures
            r@ == key_urls_of(j@),
    {
        let hls_key_cert_url = read_opt_text(j, "hls-key-cert-url");
        let hls_key_server_url = read_opt_text(j, "hls-key-server-url");
        let widevine_cert_url = read_opt_text(j, "widevine-cert-url");
        KeyUrls { hls_key_cert_url, hls_key_server_url, widevine_cert_url }
    }
}

impl QueueItem {
    /// Reads a [`QueueItem`] from an object, member by member.
    pub fn from_json(j: &Json) -> (r: QueueItem)
        ensures
            r@ == queue_item_of(j@),
    {
        let id = read_opt_text(j, "id");
        let item_type = read_opt_text(j, "type");
        let asset_url = read_opt_text(j, "assetURL");
        let hls_metadata = read_opt_value(j, "hlsMetadata");
        let flavor = read_opt_text(j, "flavor");
        let attributes = match read_opt_object(j, "attributes") {
            Some(o) => Some(QueueItemAttributes::from_json(o)),
            None => None,
        };
        let playback_type = match read_opt_unsigned(j, "playbackType", 0xFFFF_FFFF) {
            Some(n) => Some(n as u32),
            None => None,
        };
        let container = match read_opt_object(j, "_container") {
            Some(o) => Some(QueueContainer::from_json(o)),
            None => None,
        };
        let context = match read_opt_object(j, "_context") {
            Some(o) => Some(QueueContext::from_json(o)),
            None => None,
        };
        let state = match read_opt_object(j, "_state") {
            Some(o) => Some(QueueItemState::from_json(o)),
            None => None,
        };
        let song_id = read_opt_text(j, "_songId");
        let assets = match read_opt_items(j, "assets") {
            Some(items) => Some(clone_items(items)),
            None => None,
        };
        let key_urls = match read_opt_object(j, "keyURLs") {
            Some(o) => Some(KeyUrls::from_json(o)),
            None => None,
        };
        QueueItem { id, item_type, asset_url, hls_metadata, flavor, attributes, playback_type, container, context, state, song_id, assets, key_urls }
    }

    /// Whether this is the entry that is playing: its state is there and
    /// says `2`.
    pub fn is_current(&self) -> (r: bool)
        ensures
            r == self@.is_current(),
    {
        match &self.state {
            Some(s) => match s.current {
                Some(c) => c == 2,
                None => false,
            },
            None => false,
        }
    }
}

impl Default for Artwork {
    /// An artwork without size, template or colours.
    fn default() -> (r: Artwork)
        ensures
            r@ == artwork_of(JsonValue::Null),
    {
        Artwork::from_json(&Json::Null)
    }
}

impl QueueItemView {
    /// Whether this is the entry that is playing: the state is there and
    /// its `current` is exactly `2`.
    pub open spec fn is_current(self) -> bool {
        self.state matches Some(s) && s.current == Some(2u8)
    }
}

// Artwork URLs

/// The placeholder for the width in an artwork URL template.
pub open spec fn width_placeholder() -> Seq<char> {
    "{w}"@
}

/// The placeholder for the height in an artwork URL template.
pub open spec fn height_placeholder() -> Seq<char> {
    "{h}"@
}

/// An artwork URL template with `size`, in decimal, in place of every width
/// placeholder and every height placeholder.
pub open spec fn rendered_url(url: Seq<char>, size: u32) -> Seq<char> {
    replace_all(
        replace_all(url, width_placeholder(), decimal(size as nat)),
        height_placeholder(),
        decimal(size as nat),
    )
}

/// The two placeholders are `{`, a letter and `}`, and no digit stands in
/// either.
proof fn lemma_placeholders(size: u32)
    ensures
        width_placeholder() == seq!['{', 'w', '}'],
        height_placeholder() == seq!['{', 'h', '}'],
        decimal(size as nat).len() > 0,
        disjoint_chars(width_placeholder(), decimal(size as nat)),
        disjoint_chars(height_placeholder(), decimal(size as nat)),
{
    reveal_strlit("{w}");
    reveal_strlit("{h}");
    lemma_decimal_digits(size as nat);
}

/// A rendered artwork URL holds no placeholder, whatever the template and
/// the size.
pub proof fn lemma_rendered_url_has_no_placeholder(url: Seq<char>, size: u32)
    ensures
        !occurs(rendered_url(url, size), width_placeholder()),
        !occurs(rendered_url(url, size), height_placeholder()),
{
    let digits = decimal(size as nat);
    let widened = replace_all(url, width_placeholder(), digits);
    lemma_placeholders(size);
    lemma_replace_adds_no_occurrence(url, width_placeholder(), digits, width_placeholder());
    lemma_replace_adds_no_occurrence(widened, height_placeholder(), digits, width_placeholder());
    lemma_replace_adds_no_occurrence(widened, height_placeholder(), digits, height_placeholder());
}

/// A template that holds neither placeholder is rendered as it is.
pub proof fn lemma_rendered_url_without_placeholder(url: Seq<char>, size: u32)
    requires
        !occurs(url, width_placeholder()),
        !occurs(url, height_placeholder()),
    ensures
        rendered_url(url, size) == url,
{
    lemma_placeholders(size);
    lemma_replace_without_occurrence(url, width_placeholder(), decimal(size as nat));
    lemma_replace_without_occurrence(url, height_placeholder(), decimal(size as nat));
}

/// In a template made of a width placeholder and a height placeholder with
/// texts before, between and behind them in which no `{` stands, both
/// placeholders give way to the size in decimal and the texts stay.
pub proof fn lemma_rendered_url_fills_both(
    before: Seq<char>,
    between: Seq<char>,
    behind: Seq<char>,
    size: u32,
)
    requires
        !before.contains('{'),
        !between.contains('{'),
        !behind.contains('{'),
    ensures
        rendered_url(
            before + width_placeholder() + between + height_placeholder() + behind,
            size,
        ) == before + decimal(size as nat) + between + decimal(size as nat) + behind,
{
    let digits = decimal(size as nat);
    let w = width_placeholder();
    let h = height_placeholder();
    lemma_placeholders(size);
    lemma_decimal_digits(size as nat);
    // First the width placeholder: it is found behind `before`, and what
    // follows it holds no other.
    let tail = between + h + behind;
    let url = before + w + between + h + behind;
    assert(url == before + (w + tail));
    assert(!occurs(tail, w)) by {
        if occurs(tail, w) {
            let k = choose|k: int| occurs_at(tail, w, k);
            let found = tail.subrange(k, k + 3);
            assert(found[0] == '{' && found[1] == 'w');
        }
    }
    lemma_replace_skips_head(before, w + tail, w, digits);
    lemma_replace_at_head(tail, w, digits);
    lemma_replace_without_occurrence(tail, w, digits);
    // Then the height placeholder: no `{` stands before it, the digits
    // that came in being none, and none stands behind it.
    let head = before + digits + between;
    assert(before + (digits + tail) == head + (h + behind));
    assert forall|i: int| 0 <= i < head.len() implies head[i] != '{' by {
        if before.len() <= i < before.len() + digits.len() {
            assert(is_digit(digits[i - before.len()]));
        }
    }
    lemma_replace_skips_head(head, h + behind, h, digits);
    lemma_replace_at_head(behind, h, digits);
    lemma_replace_without_first_char(behind, h, digits);
}

// Payloads of the status queries

/// Payload of the reply to the question whether music is playing.
#[derive(Debug, Clone)]
pub struct IsPlayingResponse {
    /// Whether music is playing.
    pub is_playing: bool,
}

/// Payload of the reply that holds the loaded track.
#[derive(Debug, Clone)]
pub struct NowPlayingResponse {
    /// The loaded track.
    pub info: NowPlaying,
}

/// The mathematical value of a [`NowPlayingResponse`].
pub struct NowPlayingResponseView {
    pub info: NowPlayingView,
}

impl View for NowPlayingResponse {
    type V = NowPlayingResponseView;

    open spec fn view(&self) -> NowPlayingResponseView {
        NowPlayingResponseView { info: self.info@ }
    }
}

/// Payload of the reply that holds the volume.
#[derive(Debug, Clone)]
pub struct VolumeResponse {
    /// The volume, from zero (muted) to one (full).
    pub volume: Float32,
}

/// Payload of the reply that holds the repeat mode.
#[derive(Debug, Clone)]
pub struct RepeatModeResponse {
    /// `0` is off, `1` repeats the track, `2` repeats all.
    pub value: u8,
}

/// Payload of the reply that holds the shuffle mode.
#[derive(Debug, Clone)]
pub struct ShuffleModeResponse {
    /// `0` is off, `1` is on.
    pub value: u8,
}

/// Payload of the reply that holds the autoplay setting.
#[derive(Debug, Clone)]
pub struct AutoplayResponse {
    /// Whether autoplay is on.
    pub value: bool,
}

/// What an object means as the payload of an is-playing reply: its
/// `is_playing`, which must be a truth value.
pub open spec fn is_playing_of(j: JsonValue) -> Option<IsPlayingResponse> {
    match opt_flag_field(j, "is_playing"@) {
        Some(b) => Some(IsPlayingResponse { is_playing: b }),
        None => None,
    }
}

/// What an object means as the payload of a now-playing reply: its `info`,
/// which must be an object.
pub open spec fn now_playing_response_of(j: JsonValue) -> Option<NowPlayingResponseView> {
    match opt_object_field(j, "info"@) {
        Some(o) => Some(NowPlayingResponseView { info: now_playing_of(o) }),
        None => None,
    }
}

/// What an object means as the payload of a volume reply: its `volume`,
/// which must be a number, as the binary32 number nearest to it.
pub open spec fn volume_of(j: JsonValue) -> Option<VolumeResponse> {
    match opt_binary64_field(j, "volume"@) {
        Some(x) => Some(VolumeResponse { volume: x.narrowed() }),
        None => None,
    }
}

/// What an object says of a mode: its `value`, which must be an unsigned
/// integer of at most 255.
pub open spec fn mode_of(j: JsonValue) -> Option<u8> {
    match opt_unsigned_field(j, "value"@, 0xFF) {
        Some(n) => Some(n as u8),
        None => None,
    }
}

/// What an object means as the payload of a repeat-mode reply.
pub open spec fn repeat_mode_of(j: JsonValue) -> Option<RepeatModeResponse> {
    match mode_of(j) {
        Some(value) => Some(RepeatModeResponse { value }),
        None => None,
    }
}

/// What an object means as the payload of a shuffle-mode reply.
pub open spec fn shuffle_mode_of(j: JsonValue) -> Option<ShuffleModeResponse> {
    match mode_of(j) {
        Some(value) => Some(ShuffleModeResponse { value }),
        None => None,
    }
}

/// What an object means as the payload of an autoplay reply: its `value`,
/// which must be a truth value.
pub open spec fn autoplay_of(j: JsonValue) -> Option<AutoplayResponse> {
    match opt_flag_field(j, "value"@) {
        Some(b) => Some(AutoplayResponse { value: b }),
        None => None,
    }
}

impl IsPlayingResponse {
    /// Reads the payload of an is-playing reply, strictly.
    pub fn from_json(j: &Json) -> (r: Option<IsPlayingResponse>)
        ensures
            r == is_playing_of(j@),
    {
        match read_opt_flag(j, "is_playing") {
            Some(b) => Some(IsPlayingResponse { is_playing: b }),
            None => None,
        }
    }
}

impl NowPlayingResponse {
    /// Reads the payload of a now-playing reply: the track is read
    /// tolerantly, but there must be an object to read it from.
    pub fn from_json(j: &Json) -> (r: Option<NowPlayingResponse>)
        ensures
            match r {
                Some(p) => now_playing_response_of(j@) == Some(p@),
                None => now_playing_response_of(j@) is None,
            },
    {
        match read_opt_object(j, "info") {
            Some(o) => Some(NowPlayingResponse { info: NowPlaying::from_json(o) }),
            None => None,
        }
    }
}

impl VolumeResponse {
    /// Reads the payload of a volume reply, strictly.
    pub fn from_json(j: &Json) -> (r: Option<VolumeResponse>)
        ensures
            r == volume_of(j@),
    {
        match read_opt_binary64(j, "volume") {
            Some(x) => Some(VolumeResponse { volume: x.narrow() }),
            None => None,
        }
    }
}

impl RepeatModeResponse {
    /// Reads the payload of a repeat-mode reply, strictly.
    pub fn from_json(j: &Json) -> (r: Option<RepeatModeResponse>)
        ensures
            r == repeat_mode_of(j@),
    {
        match read_opt_unsigned(j, "value", 0xFF) {
            Some(n) => Some(RepeatModeResponse { value: n as u8 }),
            None => None,
        }
    }
}

impl ShuffleModeResponse {
    /// Reads the payload of a shuffle-mode reply, strictly.
    pub fn from_json(j: &Json) -> (r: Option<ShuffleModeResponse>)
        ensures
            r == shuffle_mode_of(j@),
    {
        match read_opt_unsigned(j, "value", 0xFF) {
            Some(n) => Some(ShuffleModeResponse { value: n as u8 }),
            None => None,
        }
    }
}

impl AutoplayResponse {
    /// Reads the payload of an autoplay reply, strictly.
    pub fn from_json(j: &Json) -> (r: Option<AutoplayResponse>)
        ensures
            r == autoplay_of(j@),
    {
        match read_opt_flag(j, "value") {
            Some(b) => Some(AutoplayResponse { value: b }),
            None => None,
        }
    }
}

// Request bodies

/// Body of the request to play a web URL.
#[derive(Debug, Clone)]
pub struct PlayUrlRequest {
    /// The URL to play.
    pub url: String,
}

/// Body of the requests to play an item, or to queue it next or last, by
/// type and identifier.
#[derive(Debug, Clone)]
pub struct PlayItemRequest {
    /// Type of the item, such as `songs` or `albums`; sent as `type`.
    pub item_type: String,
    /// Catalogue identifier of the item, as a string.
    pub id: String,
}

/// Body of the request to play an item by its API reference.
#[derive(Debug, Clone)]
pub struct PlayItemHrefRequest {
    /// The API reference of the item.
    pub href: String,
}

/// Body of the request to seek.
#[derive(Debug, Clone)]
pub struct SeekRequest {
    /// The position to seek to, in seconds.
    pub position: Float64,
}

/// Body of the request to set the volume.
#[derive(Debug, Clone)]
pub struct VolumeRequest {
    /// The volume, from zero to one.
    pub volume: Float32,
}

/// Body of the request to rate the loaded track.
#[derive(Debug, Clone)]
pub struct RatingRequest {
    /// `-1` dislikes, `0` takes the rating away, `1` likes.
    pub rating: i8,
}

/// Body of the request to move a queue entry.
#[derive(Debug, Clone)]
pub struct QueueMoveRequest {
    /// Index of the entry to move, counted from one; sent as `startIndex`.
    pub start_index: u32,
    /// Index to move it to, counted from one; sent as `destinationIndex`.
    pub destination_index: u32,
    /// Whether the reply is to hold the queue; sent as `returnQueue`, and
    /// left out where it is nothing.
    pub return_queue: Option<bool>,
}

/// Body of the request to remove a queue entry.
#[derive(Debug, Clone)]
pub struct QueueRemoveRequest {
    /// Index of the entry to remove, counted from one.
    pub index: u32,
}

/// Body of the request that passes a catalogue path through.
#[derive(Debug, Clone)]
pub struct AmApiRequest {
    /// The catalogue API path.
    pub path: String,
}

} // verus!
