//! The failure type of every operation of the crate.

use crate::api::errors::ApiError;
use vstd::prelude::*;
use vstd::std_specs::convert::FromSpecImpl;
use vstd::string::*;

verus! {

/// Failure type of the `reqwest` transport, carried through unread.
#[verifier::external_type_specification]
#[verifier::external_body]
pub struct ExReqwestError(reqwest::Error);

/// Failure type of the `serde_json` decoder, carried through unread.
#[verifier::external_type_specification]
#[verifier::external_body]
pub struct ExJsonError(serde_json::Error);

/// Why an operation failed. Exactly one variant describes a failure.
#[derive(Debug)]
pub enum TransportError {
    /// The transport failed before a response was complete.
    Http(reqwest::Error),
    /// A successful response held a body that did not decode.
    Json(serde_json::Error),
    /// The API answered with a status that is no success.
    Api(ApiError),
    /// An identifier failed validation; the text says why.
    InvalidTag(String),
    /// The bearer token cannot stand in a header value.
    InvalidToken,
}

impl From<reqwest::Error> for TransportError {
    /// A transport failure is an `Http` error.
    fn from(err: reqwest::Error) -> (error: Self) {
        TransportError::Http(err)
    }
}

impl FromSpecImpl<reqwest::Error> for TransportError {
    open spec fn obeys_from_spec() -> bool {
        true
    }

    open spec fn from_spec(err: reqwest::Error) -> Self {
        TransportError::Http(err)
    }
}

impl From<serde_json::Error> for TransportError {
    /// A decoding failure is a `Json` error.
    fn from(err: serde_json::Error) -> (error: Self) {
        TransportError::Json(err)
    }
}

impl FromSpecImpl<serde_json::Error> for TransportError {
    open spec fn obeys_from_spec() -> bool {
        true
    }

    open spec fn from_spec(err: serde_json::Error) -> Self {
        TransportError::Json(err)
    }
}

/// `reqwest::Error`'s `Display`: the failure in words.
#[verifier::external_body]
fn describe_http(err: &reqwest::Error) -> String {
    err.to_string()
}

/// `serde_json::Error`'s `Display`: the failure in words, with its place in
/// the text.
#[verifier::external_body]
fn describe_json(err: &serde_json::Error) -> String {
    err.to_string()
}

impl TransportError {
    /// The error in one line: which kind it is, then its details. The
    /// details of a transport or decoding failure are the words of the
    /// error that it holds.
    pub fn to_string(&self) -> (line: String)
        ensures
            match self {
                TransportError::Http(_) => exists|detail: Seq<char>|
                    line@ == "HTTP error: "@ + detail,
                TransportError::Json(_) => exists|detail: Seq<char>|
                    line@ == "JSON error: "@ + detail,
                TransportError::Api(err) => line@ == "API error: "@ + err.line(),
                TransportError::InvalidTag(tag) => line@ == "Invalid tag: "@ + tag@,
                TransportError::InvalidToken => line@ == "Invalid API token"@,
            },
    {
        match self {
            TransportError::Http(err) => {
                let detail = describe_http(err);
                "HTTP error: ".to_owned().concat(detail.as_str())
            },
            TransportError::Json(err) => {
                let detail = describe_json(err);
                "JSON error: ".to_owned().concat(detail.as_str())
            },
            TransportError::Api(err) => "API error: ".to_owned().concat(err.to_string().as_str()),
            TransportError::InvalidTag(tag) => "Invalid tag: ".to_owned().concat(tag.as_str()),
            TransportError::InvalidToken => "Invalid API token".to_owned(),
        }
    }
}

} // verus!
