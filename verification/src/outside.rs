//! Declarations of the outside types that values of this library carry.
use vstd::prelude::*;

verus! {

/// The error that `serde_json` reports when a body does not decode.
#[verifier::external_type_specification]
#[verifier::external_body]
pub struct ExJsonError(serde_json::Error);

/// The error that `reqwest` reports for a failed request or a non-success status.
#[verifier::external_type_specification]
#[verifier::external_body]
pub struct ExHttpError(reqwest::Error);

/// The error of `HeaderValue::to_str` on a header that is not visible ASCII.
#[verifier::external_type_specification]
#[verifier::external_body]
pub struct ExToStrError(reqwest::header::ToStrError);

/// The error of `HeaderValue::from_str` on text that a header cannot carry.
#[verifier::external_type_specification]
#[verifier::external_body]
pub struct ExInvalidHeaderValue(reqwest::header::InvalidHeaderValue);

/// An I/O error while copying a response body.
#[verifier::external_type_specification]
#[verifier::external_body]
pub struct ExIoError(std::io::Error);

/// The error of `url::Url::parse`; its variants are plain and public.
#[verifier::external_type_specification]
pub struct ExParseError(url::ParseError);

/// A JSON value, carried through as the body of a request.
#[verifier::external_type_specification]
#[verifier::external_body]
pub struct ExJsonValue(serde_json::Value);

} // verus!
