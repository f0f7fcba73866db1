//! What one request consists of, and the fluent builder that assembles it.
use vstd::prelude::*;

use crate::error::HttpError;
use crate::headers::{pairs_view, put, put_all, HeaderMap};
use crate::json::{encode_json, json_error_text};
use crate::text::{has_prefix, same_name};

verus! {

#[verifier::external_type_specification]
#[verifier::external_body]
pub struct ExFormData(web_sys::FormData);

/// Relies on the derived `Clone` of `web_sys::FormData`: a second handle to
/// the same form.
pub assume_specification[ <web_sys::FormData as Clone>::clone ](f: &web_sys::FormData) -> web_sys::FormData;

/// The request method.
#[derive(Debug, Clone, Copy, PartialEq, Eq, Structural)]
pub enum HttpMethod {
    Get,
    Post,
    Put,
    Delete,
    Patch,
    Head,
    Options,
}

/// The method's name on the wire.
pub open spec fn method_name(m: HttpMethod) -> Seq<char> {
    match m {
        HttpMethod::Get => "GET"@,
        HttpMethod::Post => "POST"@,
        HttpMethod::Put => "PUT"@,
        HttpMethod::Delete => "DELETE"@,
        HttpMethod::Patch => "PATCH"@,
        HttpMethod::Head => "HEAD"@,
        HttpMethod::Options => "OPTIONS"@,
    }
}

impl HttpMethod {
    /// The method's name on the wire.
    pub fn as_str(&self) -> (r: &'static str)
        ensures
            r@ == method_name(*self),
    {
        match self {
            HttpMethod::Get => "GET",
            HttpMethod::Post => "POST",
            HttpMethod::Put => "PUT",
            HttpMethod::Delete => "DELETE",
            HttpMethod::Patch => "PATCH",
            HttpMethod::Head => "HEAD",
            HttpMethod::Options => "OPTIONS",
        }
    }
}

/// The body of a request: exactly one of these at a time.
#[derive(Debug)]
pub enum RequestBody {
    Empty,
    Text(String),
    Json(String),
    FormData(web_sys::FormData),
    Binary(Vec<u8>),
}

/// Two bodies are of the same kind and hold the same text or bytes (a
/// form is a handle, so any two forms count as the same).
pub open spec fn same_body(a: RequestBody, b: RequestBody) -> bool {
    match (a, b) {
        (RequestBody::Empty, RequestBody::Empty) => true,
        (RequestBody::Text(x), RequestBody::Text(y)) => x@ == y@,
        (RequestBody::Json(x), RequestBody::Json(y)) => x@ == y@,
        (RequestBody::FormData(_), RequestBody::FormData(_)) => true,
        (RequestBody::Binary(x), RequestBody::Binary(y)) => x@ == y@,
        _ => false,
    }
}

/// Two optional strings hold the same text.
pub open spec fn same_text(a: Option<String>, b: Option<String>) -> bool {
    match (a, b) {
        (Some(x), Some(y)) => x@ == y@,
        (None, None) => true,
        _ => false,
    }
}

/// Two configurations describe the same request.
pub open spec fn same_config(a: RequestConfig, b: RequestConfig) -> bool {
    &&& a.method == b.method
    &&& a.url@ == b.url@
    &&& a.headers@ == b.headers@
    &&& same_body(a.body, b.body)
    &&& a.timeout_ms == b.timeout_ms
    &&& a.with_loader == b.with_loader
    &&& a.with_progress == b.with_progress
    &&& a.with_notifications == b.with_notifications
    &&& same_text(a.call_name, b.call_name)
    &&& a.retry_count == b.retry_count
    &&& a.retry_delay_ms == b.retry_delay_ms
}

fn clone_text(s: &Option<String>) -> (r: Option<String>)
    ensures
        same_text(r, *s),
{
    match s {
        Some(t) => Some(String::from_str(t.as_str())),
        None => None,
    }
}

impl Clone for RequestBody {
    fn clone(&self) -> (r: Self)
        ensures
            same_body(r, *self),
    {
        match self {
            RequestBody::Empty => RequestBody::Empty,
            RequestBody::Text(t) => RequestBody::Text(String::from_str(t.as_str())),
            RequestBody::Json(t) => RequestBody::Json(String::from_str(t.as_str())),
            RequestBody::FormData(f) => RequestBody::FormData(f.clone()),
            RequestBody::Binary(d) => {
                let c = d.clone();
                proof {
                    assert(c@ =~= d@);
                }
                RequestBody::Binary(c)
            },
        }
    }
}

impl Clone for RequestConfig {
    fn clone(&self) -> (r: Self)
        ensures
            same_config(r, *self),
    {
        RequestConfig {
            method: self.method,
            url: String::from_str(self.url.as_str()),
            headers: self.headers.clone(),
            body: self.body.clone(),
            timeout_ms: self.timeout_ms,
            with_loader: self.with_loader,
            with_progress: self.with_progress,
            with_notifications: self.with_notifications,
            call_name: clone_text(&self.call_name),
            retry_count: self.retry_count,
            retry_delay_ms: self.retry_delay_ms,
        }
    }
}

/// Default request timeout, in milliseconds.
pub const DEFAULT_TIMEOUT_MS: u32 = 30000;

/// Default unit of the retry backoff, in milliseconds.
pub const DEFAULT_RETRY_DELAY_MS: u32 = 1000;

/// Everything one request consists of.
#[derive(Debug)]
pub struct RequestConfig {
    pub method: HttpMethod,
    pub url: String,
    pub headers: HeaderMap,
    pub body: RequestBody,
    /// `None` disables the timeout.
    pub timeout_ms: Option<u32>,
    pub with_loader: bool,
    pub with_progress: bool,
    pub with_notifications: bool,
    /// A label echoed back on the response, for tracing.
    pub call_name: Option<String>,
    /// Attempts allowed beyond the first.
    pub retry_count: u32,
    /// The backoff unit: attempt `k` waits `k` times this long.
    pub retry_delay_ms: u32,
}

/// `c` holds the defaults: no headers or body, the default timeout, every
/// feature off, no name, no retries and the default backoff unit.
pub open spec fn holds_defaults(c: RequestConfig) -> bool {
    &&& c.headers@.len() == 0
    &&& c.body is Empty
    &&& c.timeout_ms == Some(DEFAULT_TIMEOUT_MS)
    &&& !c.with_loader
    &&& !c.with_progress
    &&& !c.with_notifications
    &&& c.call_name is None
    &&& c.retry_count == 0
    &&& c.retry_delay_ms == DEFAULT_RETRY_DELAY_MS
}

impl Default for RequestConfig {
    fn default() -> (r: Self)
        ensures
            r.method == HttpMethod::Get,
            r.url@.len() == 0,
            holds_defaults(r),
    {
        RequestConfig {
            method: HttpMethod::Get,
            url: String::new(),
            headers: HeaderMap::new(),
            body: RequestBody::Empty,
            timeout_ms: Some(DEFAULT_TIMEOUT_MS),
            with_loader: false,
            with_progress: false,
            with_notifications: false,
            call_name: None,
            retry_count: 0,
            retry_delay_ms: DEFAULT_RETRY_DELAY_MS,
        }
    }
}

/// The header name set together with a JSON body.
pub open spec fn content_type_name() -> Seq<char> {
    "Content-Type"@
}

/// The media type of a JSON body.
pub open spec fn json_media_type() -> Seq<char> {
    "application/json"@
}

/// Assembles a request one setting at a time.
#[derive(Debug)]
pub struct RequestBuilder {
    pub config: RequestConfig,
}

impl Clone for RequestBuilder {
    fn clone(&self) -> (r: Self)
        ensures
            same_config(r.config, self.config),
    {
        RequestBuilder { config: self.config.clone() }
    }
}

impl RequestBuilder {
    /// A request with the given method and URL and default settings.
    pub fn new(method: HttpMethod, url: &str) -> (r: Self)
        ensures
            r.config.method == method,
            r.config.url@ == url@,
            holds_defaults(r.config),
    {
        let config = RequestConfig {
            method,
            url: String::from_str(url),
            ..Default::default()
        };
        RequestBuilder { config }
    }

    /// Writes a header; a header of the same name (ignoring case) is
    /// replaced.
    pub fn header(self, name: &str, value: &str) -> (r: Self)
        ensures
            r.config.headers@ == put(self.config.headers@, name@, value@),
            forall|n: Seq<char>|
                #[trigger] r.config.headers.spec_get(n) == if same_name(n, name@) {
                    Some(value@)
                } else {
                    self.config.headers.spec_get(n)
                },
            r.config == (RequestConfig { headers: r.config.headers, ..self.config }),
    {
        let mut b = self;
        b.config.headers.insert(name, value);
        b
    }

    /// Writes each header in turn, as `header` does.
    pub fn headers(self, pairs: Vec<(String, String)>) -> (r: Self)
        ensures
            r.config.headers@ == put_all(self.config.headers@, pairs_view(pairs@)),
            r.config == (RequestConfig { headers: r.config.headers, ..self.config }),
    {
        let mut b = self;
        b.config.headers.extend(pairs);
        b
    }

    /// Uses already encoded JSON text as the body and sets
    /// `Content-Type: application/json`.
    pub fn json_text(self, text: String) -> (r: Self)
        ensures
            r.config.headers@ == put(
                self.config.headers@,
                content_type_name(),
                json_media_type(),
            ),
            forall|n: Seq<char>|
                #[trigger] r.config.headers.spec_get(n) == if same_name(n, content_type_name()) {
                    Some(json_media_type())
                } else {
                    self.config.headers.spec_get(n)
                },
            r.config.body == RequestBody::Json(text),
            r.config == (RequestConfig {
                headers: r.config.headers,
                body: r.config.body,
                ..self.config
            }),
    {
        let mut b = self;
        b.config.headers.insert("Content-Type", "application/json");
        b.config.body = RequestBody::Json(text);
        b
    }

    /// Encodes `data` as the JSON body, replacing any earlier body, and sets
    /// `Content-Type: application/json`. Encoding a JSON value always
    /// succeeds; a `Serialization` error would carry the encoder's reason.
    pub fn json(self, data: &serde_json::Value) -> (r: Result<Self, HttpError>)
        ensures
            r is Ok,
            r matches Ok(b) ==> {
                &&& b.config.headers@ == put(
                    self.config.headers@,
                    content_type_name(),
                    json_media_type(),
                )
                &&& forall|n: Seq<char>|
                    #[trigger] b.config.headers.spec_get(n) == if same_name(
                        n,
                        content_type_name(),
                    ) {
                        Some(json_media_type())
                    } else {
                        self.config.headers.spec_get(n)
                    }
                &&& b.config.body is Json
                &&& b.config == (RequestConfig {
                    headers: b.config.headers,
                    body: b.config.body,
                    ..self.config
                })
            },
            r matches Err(e) ==> (e matches HttpError::Serialization { message } && has_prefix(
                message@,
                "Failed to serialize JSON: "@,
            )),
    {
        match encode_json(data) {
            Ok(text) => Ok(self.json_text(text)),
            Err(e) => {
                let detail = json_error_text(&e);
                let prefix = "Failed to serialize JSON: ";
                let message = String::from_str(prefix).concat(detail.as_str());
                proof {
                    assert(message@.subrange(0, prefix@.len() as int) =~= prefix@);
                }
                Err(HttpError::Serialization { message })
            },
        }
    }

    /// Uses a multipart form as the body.
    pub fn form_data(self, form: web_sys::FormData) -> (r: Self)
        ensures
            r.config == (RequestConfig { body: RequestBody::FormData(form), ..self.config }),
    {
        let mut b = self;
        b.config.body = RequestBody::FormData(form);
        b
    }

    /// Uses plain text as the body.
    pub fn text(self, text: &str) -> (r: Self)
        ensures
            r.config.body matches RequestBody::Text(t) && t@ == text@,
            r.config == (RequestConfig { body: r.config.body, ..self.config }),
    {
        let mut b = self;
        b.config.body = RequestBody::Text(String::from_str(text));
        b
    }

    /// Uses raw bytes as the body.
    pub fn binary(self, data: Vec<u8>) -> (r: Self)
        ensures
            r.config == (RequestConfig { body: RequestBody::Binary(data), ..self.config }),
    {
        let mut b = self;
        b.config.body = RequestBody::Binary(data);
        b
    }

    /// Turns the loader notifications on or off.
    pub fn with_loader(self, enabled: bool) -> (r: Self)
        ensures
            r.config == (RequestConfig { with_loader: enabled, ..self.config }),
    {
        let mut b = self;
        b.config.with_loader = enabled;
        b
    }

    /// Turns the progress notifications on or off.
    pub fn with_progress(self, enabled: bool) -> (r: Self)
        ensures
            r.config == (RequestConfig { with_progress: enabled, ..self.config }),
    {
        let mut b = self;
        b.config.with_progress = enabled;
        b
    }

    /// Turns the outcome message on or off.
    pub fn with_notifications(self, enabled: bool) -> (r: Self)
        ensures
            r.config == (RequestConfig { with_notifications: enabled, ..self.config }),
    {
        let mut b = self;
        b.config.with_notifications = enabled;
        b
    }

    /// Labels the request for tracing.
    pub fn call_name(self, name: &str) -> (r: Self)
        ensures
            r.config.call_name matches Some(n) && n@ == name@,
            r.config == (RequestConfig { call_name: r.config.call_name, ..self.config }),
    {
        let mut b = self;
        b.config.call_name = Some(String::from_str(name));
        b
    }

    /// Sets the timeout in milliseconds.
    pub fn timeout(self, ms: u32) -> (r: Self)
        ensures
            r.config == (RequestConfig { timeout_ms: Some(ms), ..self.config }),
    {
        let mut b = self;
        b.config.timeout_ms = Some(ms);
        b
    }

    /// Disables the timeout.
    pub fn no_timeout(self) -> (r: Self)
        ensures
            r.config == (RequestConfig { timeout_ms: None, ..self.config }),
    {
        let mut b = self;
        b.config.timeout_ms = None;
        b
    }

    /// Allows `count` attempts beyond the first, attempt `k` waiting
    /// `k * delay_ms` milliseconds before it starts.
    pub fn retry(self, count: u32, delay_ms: u32) -> (r: Self)
        ensures
            r.config == (RequestConfig {
                retry_count: count,
                retry_delay_ms: delay_ms,
                ..self.config
            }),
    {
        let mut b = self;
        b.config.retry_count = count;
        b.config.retry_delay_ms = delay_ms;
        b
    }
}

} // verus!
