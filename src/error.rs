//! The closed set of failures a request can end in.
use vstd::prelude::*;

use crate::text::{decimal, decimal_string};

verus! {

/// Why a request failed.
#[derive(Clone, Debug, PartialEq)]
pub enum HttpError {
    /// The transport could not complete the exchange.
    Network { message: String },
    /// The transport gave up waiting.
    Timeout,
    /// The request URL is empty.
    InvalidUrl { url: String },
    /// A body could not be encoded or decoded.
    Serialization { message: String },
    /// The server answered with a status outside `200..300`.
    Http { status: u16, message: String, body: Option<String> },
    /// The caller or transport cancelled the request.
    Cancelled,
    /// The response could not be interpreted.
    InvalidResponse,
    /// The request was put together wrongly.
    Configuration { message: String },
}

/// A status in `400..500`.
pub open spec fn is_client_status(status: u16) -> bool {
    400 <= status && status < 500
}

/// Whether another attempt may follow a failure of this kind: never after
/// a cancellation, an invalid URL, a configuration error or a client-error
/// status; always after the other kinds.
pub open spec fn retryable(e: HttpError) -> bool {
    match e {
        HttpError::Cancelled => false,
        HttpError::InvalidUrl { .. } => false,
        HttpError::Configuration { .. } => false,
        HttpError::Http { status, .. } => !is_client_status(status),
        _ => true,
    }
}

/// The human-readable description of a failure.
pub open spec fn error_text(e: HttpError) -> Seq<char> {
    match e {
        HttpError::Network { message } => "Network error: "@ + message@,
        HttpError::Timeout => "Request timeout"@,
        HttpError::InvalidUrl { url } => "Invalid URL: "@ + url@,
        HttpError::Serialization { message } => "Serialization error: "@ + message@,
        HttpError::Http { status, message, .. } => "HTTP "@ + decimal(status as nat) + ": "@
            + message@,
        HttpError::Cancelled => "Cancelled by user"@,
        HttpError::InvalidResponse => "Invalid response format"@,
        HttpError::Configuration { message } => "Configuration error: "@ + message@,
    }
}

impl HttpError {
    /// Whether the retry loop may make another attempt after this failure.
    pub fn is_retryable(&self) -> (r: bool)
        ensures
            r == retryable(*self),
    {
        match self {
            HttpError::Cancelled => false,
            HttpError::InvalidUrl { .. } => false,
            HttpError::Configuration { .. } => false,
            HttpError::Http { status, .. } => !(400 <= *status && *status < 500),
            _ => true,
        }
    }

    /// The human-readable description of this failure.
    pub fn to_string(&self) -> (r: String)
        ensures
            r@ == error_text(*self),
    {
        match self {
            HttpError::Network { message } => String::from_str("Network error: ").concat(
                message.as_str(),
            ),
            HttpError::Timeout => String::from_str("Request timeout"),
            HttpError::InvalidUrl { url } => String::from_str("Invalid URL: ").concat(
                url.as_str(),
            ),
            HttpError::Serialization { message } => String::from_str(
                "Serialization error: ",
            ).concat(message.as_str()),
            HttpError::Http { status, message, .. } => {
                let code = decimal_string(*status as u64);
                String::from_str("HTTP ").concat(code.as_str()).concat(": ").concat(
                    message.as_str(),
                )
            },
            HttpError::Cancelled => String::from_str("Cancelled by user"),
            HttpError::InvalidResponse => String::from_str("Invalid response format"),
            HttpError::Configuration { message } => String::from_str(
                "Configuration error: ",
            ).concat(message.as_str()),
        }
    }
}

} // verus!
