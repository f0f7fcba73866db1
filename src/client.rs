//! Shared defaults and the builders made from them.
use vstd::prelude::*;

use crate::headers::{put, HeaderMap};
use crate::request::{HttpMethod, RequestBuilder, DEFAULT_RETRY_DELAY_MS, DEFAULT_TIMEOUT_MS};
use crate::text::{has_prefix, starts_with};

verus! {

/// `path` names a scheme of its own and is used as it stands.
pub open spec fn has_scheme(path: Seq<char>) -> bool {
    has_prefix(path, "http://"@) || has_prefix(path, "https://"@)
}

/// `s` without one trailing slash, where it ends in one.
pub open spec fn without_trailing_slash(s: Seq<char>) -> Seq<char> {
    if s.len() > 0 && s.last() == '/' {
        s.drop_last()
    } else {
        s
    }
}

/// `s` without one leading slash, where it starts with one.
pub open spec fn without_leading_slash(s: Seq<char>) -> Seq<char> {
    if s.len() > 0 && s[0] == '/' {
        s.drop_first()
    } else {
        s
    }
}

/// The URL a client with base `base` uses for `path`.
pub open spec fn resolve_url(base: Option<Seq<char>>, path: Seq<char>) -> Seq<char> {
    match base {
        None => path,
        Some(b) => if has_scheme(path) {
            path
        } else {
            without_trailing_slash(b) + "/"@ + without_leading_slash(path)
        },
    }
}

/// Holds the settings that every request it makes starts from.
#[derive(Debug)]
pub struct HttpClient {
    pub base_url: Option<String>,
    pub default_headers: HeaderMap,
    pub default_timeout_ms: Option<u32>,
}

/// The base URL of a client, in abstract form.
pub open spec fn base_of(c: &HttpClient) -> Option<Seq<char>> {
    match c.base_url {
        Some(b) => Some(b@),
        None => None,
    }
}

/// `b` is what `c` makes for `method` and `path`: the resolved URL, the
/// client's headers and timeout, and otherwise the defaults.
pub open spec fn made_by(c: &HttpClient, b: RequestBuilder, method: HttpMethod, path: Seq<char>) -> bool {
    &&& b.config.method == method
    &&& b.config.url@ == resolve_url(base_of(c), path)
    &&& b.config.headers@ == c.default_headers@
    &&& b.config.timeout_ms == Some(
        match c.default_timeout_ms {
            Some(t) => t,
            None => DEFAULT_TIMEOUT_MS,
        },
    )
    &&& b.config.body is Empty
    &&& !b.config.with_loader
    &&& !b.config.with_progress
    &&& !b.config.with_notifications
    &&& b.config.call_name is None
    &&& b.config.retry_count == 0
    &&& b.config.retry_delay_ms == DEFAULT_RETRY_DELAY_MS
}

impl HttpClient {
    /// A client with no base URL, no headers and the default timeout.
    pub fn new() -> (r: Self)
        ensures
            r.base_url is None,
            r.default_headers@.len() == 0,
            r.default_timeout_ms == Some(DEFAULT_TIMEOUT_MS),
    {
        HttpClient {
            base_url: None,
            default_headers: HeaderMap::new(),
            default_timeout_ms: Some(DEFAULT_TIMEOUT_MS),
        }
    }

    /// Sets the URL that relative paths are joined to.
    pub fn base_url(self, url: &str) -> (r: Self)
        ensures
            r.base_url matches Some(b) && b@ == url@,
            r.default_headers == self.default_headers,
            r.default_timeout_ms == self.default_timeout_ms,
    {
        let mut c = self;
        c.base_url = Some(String::from_str(url));
        c
    }

    /// Adds a header to every request; a default of the same name (ignoring
    /// case) is replaced.
    pub fn default_header(self, name: &str, value: &str) -> (r: Self)
        ensures
            r.default_headers@ == put(self.default_headers@, name@, value@),
            r.base_url == self.base_url,
            r.default_timeout_ms == self.default_timeout_ms,
    {
        let mut c = self;
        c.default_headers.insert(name, value);
        c
    }

    /// Sets the timeout of every request.
    pub fn default_timeout(self, ms: u32) -> (r: Self)
        ensures
            r == (HttpClient { default_timeout_ms: Some(ms), ..self }),
    {
        let mut c = self;
        c.default_timeout_ms = Some(ms);
        c
    }

    /// The URL used for `path`: `path` itself where there is no base URL or
    /// `path` starts with `http://` or `https://`; otherwise the base and the
    /// path joined by one slash, after dropping one trailing slash of the
    /// base and one leading slash of the path.
    pub fn build_url(&self, path: &str) -> (r: String)
        ensures
            r@ == resolve_url(base_of(self), path@),
    {
        match &self.base_url {
            None => String::from_str(path),
            Some(base) => {
                if starts_with(path, "http://") || starts_with(path, "https://") {
                    String::from_str(path)
                } else {
                    let b = base.as_str();
                    let n = b.unicode_len();
                    let head = if n > 0 && b.get_char(n - 1) == '/' {
                        b.substring_char(0, n - 1)
                    } else {
                        b
                    };
                    let m = path.unicode_len();
                    let tail = if m > 0 && path.get_char(0) == '/' {
                        path.substring_char(1, m)
                    } else {
                        path
                    };
                    proof {
                        assert(head@ =~= without_trailing_slash(base@));
                        assert(tail@ =~= without_leading_slash(path@));
                    }
                    String::from_str(head).concat("/").concat(tail)
                }
            },
        }
    }

    /// A builder for `method` and `path` carrying this client's defaults.
    fn create_builder(&self, method: HttpMethod, path: &str) -> (r: RequestBuilder)
        ensures
            made_by(self, r, method, path@),
    {
        let url = self.build_url(path);
        let mut builder = RequestBuilder::new(method, url.as_str());
        builder.config.headers = self.default_headers.clone();
        match self.default_timeout_ms {
            Some(t) => {
                builder.config.timeout_ms = Some(t);
            },
            None => {},
        }
        builder
    }

    /// A GET request for `path`.
    pub fn get(&self, path: &str) -> (r: RequestBuilder)
        ensures
            made_by(self, r, HttpMethod::Get, path@),
    {
        self.create_builder(HttpMethod::Get, path)
    }

    /// A POST request for `path`.
    pub fn post(&self, path: &str) -> (r: RequestBuilder)
        ensures
            made_by(self, r, HttpMethod::Post, path@),
    {
        self.create_builder(HttpMethod::Post, path)
    }

    /// A PUT request for `path`.
    pub fn put(&self, path: &str) -> (r: RequestBuilder)
        ensures
            made_by(self, r, HttpMethod::Put, path@),
    {
        self.create_builder(HttpMethod::Put, path)
    }

    /// A DELETE request for `path`.
    pub fn delete(&self, path: &str) -> (r: RequestBuilder)
        ensures
            made_by(self, r, HttpMethod::Delete, path@),
    {
        self.create_builder(HttpMethod::Delete, path)
    }

    /// A PATCH request for `path`.
    pub fn patch(&self, path: &str) -> (r: RequestBuilder)
        ensures
            made_by(self, r, HttpMethod::Patch, path@),
    {
        self.create_builder(HttpMethod::Patch, path)
    }

    /// A HEAD request for `path`.
    pub fn head(&self, path: &str) -> (r: RequestBuilder)
        ensures
            made_by(self, r, HttpMethod::Head, path@),
    {
        self.create_builder(HttpMethod::Head, path)
    }

    /// An OPTIONS request for `path`.
    pub fn options(&self, path: &str) -> (r: RequestBuilder)
        ensures
            made_by(self, r, HttpMethod::Options, path@),
    {
        self.create_builder(HttpMethod::Options, path)
    }
}

impl Clone for HttpClient {
    fn clone(&self) -> (r: Self)
        ensures
            base_of(&r) == base_of(self),
            r.default_headers@ == self.default_headers@,
            r.default_timeout_ms == self.default_timeout_ms,
    {
        let base_url = match &self.base_url {
            Some(b) => Some(String::from_str(b.as_str())),
            None => None,
        };
        HttpClient {
            base_url,
            default_headers: self.default_headers.clone(),
            default_timeout_ms: self.default_timeout_ms,
        }
    }
}

impl Default for HttpClient {
    fn default() -> (r: Self)
        ensures
            r.base_url is None,
            r.default_headers@.len() == 0,
            r.default_timeout_ms == Some(DEFAULT_TIMEOUT_MS),
    {
        HttpClient::new()
    }
}

/// A client with no base URL, no headers and the default timeout.
pub fn get_http_client() -> (r: HttpClient)
    ensures
        r.base_url is None,
        r.default_headers@.len() == 0,
        r.default_timeout_ms == Some(DEFAULT_TIMEOUT_MS),
{
    HttpClient::new()
}

} // verus!
