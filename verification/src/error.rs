//! The failures a call can end in: rejected credentials, a failed transport,
//! or a response that does not decode.

use vstd::prelude::*;
use vstd::std_specs::convert::FromSpecImpl;

verus! {

/// Why a text did not decode.
#[derive(Debug)]
pub enum JsonFailure {
    /// The text is not a JSON document; the parser's message says where.
    Syntax(String),
    /// The text is a JSON document of another shape than the one asked for.
    Shape,
}

/// Why a call failed.
#[derive(Debug)]
pub enum Error {
    /// The transport failed; its message is handed on as it came.
    HTTP(String),
    /// A text did not decode; `data` holds that text when it was a response.
    JSON { error: JsonFailure, data: Option<String> },
    /// The credential cannot be used to sign, or does not fit in a header.
    InvalidAuth,
}

impl From<crypto_mac::InvalidKeyLength> for Error {
    fn from(other: crypto_mac::InvalidKeyLength) -> (error: Self) {
        Error::InvalidAuth
    }
}

impl FromSpecImpl<crypto_mac::InvalidKeyLength> for Error {
    open spec fn obeys_from_spec() -> bool {
        true
    }

    open spec fn from_spec(other: crypto_mac::InvalidKeyLength) -> Self {
        Error::InvalidAuth
    }
}

impl From<reqwest::header::InvalidHeaderValue> for Error {
    fn from(other: reqwest::header::InvalidHeaderValue) -> (error: Self) {
        Error::InvalidAuth
    }
}

impl FromSpecImpl<reqwest::header::InvalidHeaderValue> for Error {
    open spec fn obeys_from_spec() -> bool {
        true
    }

    open spec fn from_spec(other: reqwest::header::InvalidHeaderValue) -> Self {
        Error::InvalidAuth
    }
}

impl From<JsonFailure> for Error {
    fn from(other: JsonFailure) -> (error: Self) {
        Error::JSON { error: other, data: None }
    }
}

impl FromSpecImpl<JsonFailure> for Error {
    open spec fn obeys_from_spec() -> bool {
        true
    }

    open spec fn from_spec(other: JsonFailure) -> Self {
        Error::JSON { error: other, data: None }
    }
}

} // verus!
