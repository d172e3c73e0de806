//! Errors of the backend.

use vstd::prelude::*;
use reqwest::Error as HttpError;
use url::ParseError;

verus! {

/// An error of the HTTP client; it is carried, never inspected.
#[verifier::external_type_specification]
#[verifier::external_body]
pub struct ExReqwestError(HttpError);

/// An error of the URL parser; it is carried, never inspected.
#[verifier::external_type_specification]
#[verifier::external_body]
pub struct ExUrlParseError(ParseError);

/// Everything that can go wrong between the GUI and the server.
#[derive(Debug)]
pub enum Error {
    /// The server answered successfully, but its body was no JSON document.
    BackendError,
    /// The HTTP request itself failed.
    ReqwestError(HttpError),
    /// A URL could not be built.
    UrlParseError(ParseError),
    /// The server refused the request; the JSON body it sent, as text.
    XMZError(String),
}

impl From<HttpError> for Error {
    fn from(err: HttpError) -> (r: Error) {
        Error::ReqwestError(err)
    }
}

impl vstd::std_specs::convert::FromSpecImpl<HttpError> for Error {
    open spec fn obeys_from_spec() -> bool {
        true
    }

    open spec fn from_spec(err: HttpError) -> Error {
        Error::ReqwestError(err)
    }
}

impl From<ParseError> for Error {
    fn from(err: ParseError) -> (r: Error) {
        Error::UrlParseError(err)
    }
}

impl vstd::std_specs::convert::FromSpecImpl<ParseError> for Error {
    open spec fn obeys_from_spec() -> bool {
        true
    }

    open spec fn from_spec(err: ParseError) -> Error {
        Error::UrlParseError(err)
    }
}

} // verus!
