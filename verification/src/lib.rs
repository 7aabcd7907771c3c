//! Typed request building and response normalisation for the local REST
//! interface of the Cider music player.
//!
//! A [`CiderClient`] forms one [`Request`] per operation; the caller sends
//! it and hands what came back to the function of [`outcome`] that belongs
//! to the operation, which gives the typed result or a [`CiderError`].

pub mod client;
pub mod field;
pub mod json;
pub mod number;
pub mod outcome;
pub mod text;
pub mod types;

pub use client::{
    CiderClient, CiderError, HttpFailure, Method, Request, RequestBody, Response, WireValue,
    DEFAULT_PORT,
};
pub use json::{Json, JsonNumber};
pub use number::{Float32, Float64};
pub use types::{
    AmApiRequest, ApiResponse, Artwork, AutoplayResponse, IsPlayingResponse, KeyUrls,
    NowPlaying, NowPlayingResponse, PlayItemHrefRequest, PlayItemRequest, PlayParams,
    PlayUrlRequest, Preview, QueueContainer, QueueContext, QueueItem, QueueItemAttributes,
    QueueItemState, QueueMoveRequest, QueueRemoveRequest, RatingRequest, RepeatModeResponse,
    SeekRequest, ShuffleModeResponse, VolumeRequest, VolumeResponse,
};
