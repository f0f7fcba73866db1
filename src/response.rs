//! The envelope around a completed exchange, and its classification.
use vstd::prelude::*;

use crate::error::HttpError;
use crate::headers::HeaderMap;
use crate::request::RequestConfig;
use crate::json::{decode_json, json_error_text, json_parses};
use crate::text::{decimal, decimal_string, has_prefix};

verus! {

/// A status in `200..300`.
pub open spec fn is_success_status(status: u16) -> bool {
    200 <= status && status < 300
}

/// The message given to the error for a status outside `200..300`.
pub open spec fn status_message(status: u16) -> Seq<char> {
    "HTTP error "@ + decimal(status as nat)
}

/// A response as the transport handed it back, with the request's
/// correlation name.
#[derive(Debug)]
pub struct HttpResponse {
    pub status: u16,
    pub headers: HeaderMap,
    pub body: String,
    pub url: String,
    pub call_name: Option<String>,
}

impl Clone for HttpResponse {
    fn clone(&self) -> (r: Self)
        ensures
            r.status == self.status,
            r.headers@ == self.headers@,
            r.body@ == self.body@,
            r.url@ == self.url@,
            match (r.call_name, self.call_name) {
                (Some(a), Some(b)) => a@ == b@,
                (None, None) => true,
                _ => false,
            },
    {
        let call_name = match &self.call_name {
            Some(n) => Some(String::from_str(n.as_str())),
            None => None,
        };
        HttpResponse {
            status: self.status,
            headers: self.headers.clone(),
            body: String::from_str(self.body.as_str()),
            url: String::from_str(self.url.as_str()),
            call_name,
        }
    }
}

impl HttpResponse {
    /// The body as text.
    pub fn text(&self) -> (r: &str)
        ensures
            r@ == self.body@,
    {
        self.body.as_str()
    }

    /// Status in `200..300`.
    pub fn is_success(&self) -> (r: bool)
        ensures
            r == is_success_status(self.status),
    {
        self.status >= 200 && self.status < 300
    }

    /// Status in `400..500`.
    pub fn is_client_error(&self) -> (r: bool)
        ensures
            r == (400 <= self.status && self.status < 500),
    {
        self.status >= 400 && self.status < 500
    }

    /// Status in `500..600`.
    pub fn is_server_error(&self) -> (r: bool)
        ensures
            r == (500 <= self.status && self.status < 600),
    {
        self.status >= 500 && self.status < 600
    }

    /// Reads a response header, comparing names case-insensitively.
    pub fn header(&self, name: &str) -> (r: Option<&String>)
        ensures
            match r {
                Some(v) => self.headers.spec_get(name@) == Some(v@),
                None => self.headers.spec_get(name@) is None,
            },
    {
        self.headers.get(name)
    }

    /// Parses the body as JSON. Fails with `Serialization` exactly when the
    /// body is not JSON.
    pub fn json(&self) -> (r: Result<serde_json::Value, HttpError>)
        ensures
            r is Ok <==> json_parses(self.body@),
            r matches Err(e) ==> (e matches HttpError::Serialization { message }
                && has_prefix(message@, "Failed to deserialize JSON: "@)),
    {
        match decode_json(self.body.as_str()) {
            Ok(v) => Ok(v),
            Err(e) => {
                let detail = json_error_text(&e);
                let prefix = "Failed to deserialize JSON: ";
                let message = String::from_str(prefix).concat(detail.as_str());
                proof {
                    assert(message@.subrange(0, prefix@.len() as int) =~= prefix@);
                }
                Err(HttpError::Serialization { message })
            },
        }
    }

    /// The classified outcome of a transport answer to the request `config`:
    /// for a status in `200..300` the envelope, which echoes the request's
    /// `call_name`; otherwise the `Http` error that `classify` gives.
    pub fn from_transport(
        config: &RequestConfig,
        status: u16,
        headers: HeaderMap,
        body: String,
        url: String,
    ) -> (r: Result<HttpResponse, HttpError>)
        ensures
            is_success_status(status) ==> (r matches Ok(resp) && resp.status == status
                && resp.headers@ == headers@ && resp.body == body && resp.url == url
                && match (resp.call_name, config.call_name) {
                (Some(a), Some(b)) => a@ == b@,
                (None, None) => true,
                _ => false,
            }),
            !is_success_status(status) ==> (r matches Err(
                HttpError::Http { status: s, message, body: Some(b) },
            ) && s == status && message@ == status_message(status) && b@ == body@),
    {
        let call_name = match &config.call_name {
            Some(n) => Some(String::from_str(n.as_str())),
            None => None,
        };
        HttpResponse { status, headers, body, url, call_name }.classify()
    }

    /// The outcome of an exchange: the envelope itself for a status in
    /// `200..300`, otherwise an `Http` error that carries the status, the
    /// message `HTTP error <status>` and the body.
    pub fn classify(self) -> (r: Result<HttpResponse, HttpError>)
        ensures
            is_success_status(self.status) ==> r == Ok::<HttpResponse, HttpError>(self),
            !is_success_status(self.status) ==> (r matches Err(
                HttpError::Http { status, message, body: Some(b) },
            ) && status == self.status && message@ == status_message(self.status) && b@
                == self.body@),
    {
        if self.status >= 200 && self.status < 300 {
            Ok(self)
        } else {
            let code = decimal_string(self.status as u64);
            let message = String::from_str("HTTP error ").concat(code.as_str());
            Err(HttpError::Http { status: self.status, message, body: Some(self.body) })
        }
    }
}

} // verus!
