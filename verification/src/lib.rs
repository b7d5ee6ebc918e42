//! A client library for the SoundCloud HTTP API: the data models, the
//! pagination rules, and the exact requests that each API call sends.
//!
//! Each API call of [`Client`] gives the [`Request`] that it sends; the
//! caller sends it and hands the answer back where a call decides on it.

pub mod apis;
pub mod client;
pub mod cursor;
pub mod endpoints;
pub mod error;
pub mod models;
pub mod outside;
pub mod page;
pub mod text;
pub mod tracklist;
pub mod urls;

pub use apis::{MyReposts, TrackUploadBuilder, UserReposts};
pub use client::{Body, Client, FormPart, Method, Request, API_HOST};
pub use cursor::{PageCursor, Step};
pub use endpoints::{location_url, not_following, resource_kind, ResourceKind};
pub use error::{ClientError, Result};
pub use models::{App, Comment, Playlist, ResolvedResource, Track, TrackInsight, TrackStreams, User};
pub use page::{Page, PageOptions, PageOptionsBuilder, PageOptionsBuilderError};
pub use urls::ParsedUrl;
