//! A fluent HTTP request builder and the decisions of its retry loop.
//!
//! `HttpClient` holds shared defaults (base URL, headers, timeout) and makes
//! `RequestBuilder`s; a builder assembles a `RequestConfig`. Sending is driven
//! by a `RetryExecutor`, which decides every step of one send (sink events,
//! backoff waits, transport calls, the outcome) while the caller performs
//! them. A transport's answer becomes an `HttpResponse` for a status in
//! `200..300` and an `HttpError` otherwise. The module `laws` states what
//! holds of every send.
pub mod client;
pub mod error;
pub mod headers;
pub mod json;
pub mod laws;
pub mod request;
pub mod response;
pub mod retry;
pub mod text;

pub use client::{get_http_client, HttpClient};
pub use error::HttpError;
pub use headers::HeaderMap;
pub use request::{HttpMethod, RequestBody, RequestBuilder, RequestConfig};
pub use response::HttpResponse;
pub use retry::{verdict, Action, RetryExecutor, RetryPolicy, SendState, Stage, Verdict};
pub use text::{decimal_string, eq_ignore_case, starts_with};
