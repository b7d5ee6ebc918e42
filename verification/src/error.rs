//! The errors of the library.
use vstd::prelude::*;

verus! {

/// Everything that can go wrong when talking to the API.
#[derive(Debug)]
pub enum ClientError {
    /// The API answered in a way the client cannot use.
    ApiError(String),
    /// A body did not decode as the expected JSON.
    JsonError(serde_json::Error),
    /// The request failed, or the status was not a success.
    HttpError(reqwest::Error),
    /// A header of the response is not visible ASCII.
    HttpHeaderError(reqwest::header::ToStrError),
    /// A header of the request cannot be sent.
    HttpInvalidHeaderError(reqwest::header::InvalidHeaderValue),
    /// A search filter was refused.
    InvalidFilter(String),
    /// Writing a downloaded body failed.
    Io(std::io::Error),
    /// The track cannot be downloaded through the API.
    TrackNotDownloadable,
    /// The track cannot be streamed through the API.
    TrackNotStreamable,
    /// A URL did not parse.
    UrlParseError(url::ParseError),
}

/// The result type of the library.
pub type Result<T> = core::result::Result<T, ClientError>;

} // verus!
