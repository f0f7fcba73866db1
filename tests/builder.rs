use httpcalls::{HeaderMap, HttpClient, HttpError, HttpMethod, RequestBody, RequestBuilder};

fn person() -> serde_json::Value {
    let mut map = serde_json::Map::new();
    map.insert("name".to_string(), serde_json::Value::String("John".to_string()));
    map.insert("age".to_string(), serde_json::Value::from(30u32));
    serde_json::Value::Object(map)
}

#[test]
fn test_http_client_creation() {
    let client = HttpClient::new();
    assert!(client.base_url.is_none());
    assert_eq!(client.default_headers.len(), 0);
    assert_eq!(client.default_timeout_ms, Some(30000));
}

#[test]
fn test_http_client_with_base_url() {
    let client = HttpClient::new()
        .base_url("https://api.example.com")
        .default_header("Authorization", "Bearer token123");
    assert_eq!(client.base_url.as_deref(), Some("https://api.example.com"));
    assert_eq!(
        client.default_headers.get("Authorization"),
        Some(&"Bearer token123".to_string())
    );
}

#[test]
fn test_request_builder_get() {
    let client = HttpClient::new();
    let builder = client.get("/api/users");
    assert_eq!(builder.config.method, HttpMethod::Get);
    assert_eq!(builder.config.url, "/api/users");
}

#[test]
fn test_request_builder_post_with_json() {
    let client = HttpClient::new();
    let builder = client
        .post("/api/users")
        .json(&person())
        .unwrap()
        .with_loader(true)
        .call_name("create_user");
    assert_eq!(builder.config.method, HttpMethod::Post);
    assert_eq!(builder.config.with_loader, true);
    assert_eq!(builder.config.call_name, Some("create_user".to_string()));
    assert_eq!(
        builder.config.headers.get("Content-Type"),
        Some(&"application/json".to_string())
    );
}

#[test]
fn test_request_builder_headers() {
    let client = HttpClient::new();
    let builder = client
        .get("/api/data")
        .header("Accept", "application/json")
        .header("X-Custom", "custom-value");
    assert_eq!(
        builder.config.headers.get("Accept"),
        Some(&"application/json".to_string())
    );
    assert_eq!(
        builder.config.headers.get("X-Custom"),
        Some(&"custom-value".to_string())
    );
}

#[test]
fn test_request_builder_multiple_headers() {
    let client = HttpClient::new();
    let headers = vec![
        ("Accept".to_string(), "application/json".to_string()),
        ("Authorization".to_string(), "Bearer token".to_string()),
    ];
    let builder = client.get("/api/data").headers(headers);
    assert_eq!(
        builder.config.headers.get("Accept"),
        Some(&"application/json".to_string())
    );
    assert_eq!(
        builder.config.headers.get("Authorization"),
        Some(&"Bearer token".to_string())
    );
}

#[test]
fn test_request_builder_text_body() {
    let client = HttpClient::new();
    let builder = client.post("/api/data").text("Hello, World!");
    match &builder.config.body {
        RequestBody::Text(text) => assert_eq!(text, "Hello, World!"),
        _ => panic!("Expected text body"),
    }
}

#[test]
fn test_request_builder_configuration() {
    let client = HttpClient::new();
    let builder = client
        .post("/api/upload")
        .with_loader(true)
        .with_progress(true)
        .with_notifications(true)
        .timeout(60000)
        .retry(3, 1000);
    assert_eq!(builder.config.with_loader, true);
    assert_eq!(builder.config.with_progress, true);
    assert_eq!(builder.config.with_notifications, true);
    assert_eq!(builder.config.timeout_ms, Some(60000));
    assert_eq!(builder.config.retry_count, 3);
    assert_eq!(builder.config.retry_delay_ms, 1000);
}

#[test]
fn test_http_methods() {
    let client = HttpClient::new();
    assert_eq!(client.get("/api/get").config.method, HttpMethod::Get);
    assert_eq!(client.post("/api/post").config.method, HttpMethod::Post);
    assert_eq!(client.put("/api/put").config.method, HttpMethod::Put);
    assert_eq!(client.delete("/api/delete").config.method, HttpMethod::Delete);
    assert_eq!(client.patch("/api/patch").config.method, HttpMethod::Patch);
    assert_eq!(client.head("/api/head").config.method, HttpMethod::Head);
    assert_eq!(client.options("/api/options").config.method, HttpMethod::Options);
}

#[test]
fn test_url_building_with_base_url() {
    let client = HttpClient::new().base_url("https://api.example.com");
    let builder1 = client.get("/users");
    assert_eq!(builder1.config.url, "https://api.example.com/users");
    let builder2 = client.get("users/123");
    assert_eq!(builder2.config.url, "https://api.example.com/users/123");
}

#[test]
fn test_http_error_types() {
    let network_error = HttpError::Network {
        message: "Connection failed".to_string(),
    };
    assert!(network_error.to_string().contains("Network error"));
    let timeout_error = HttpError::Timeout;
    assert_eq!(timeout_error.to_string(), "Request timeout");
    let http_error = HttpError::Http {
        status: 404,
        message: "Not Found".to_string(),
        body: None,
    };
    assert!(http_error.to_string().contains("HTTP 404"));
}

#[test]
fn test_default_client() {
    let client = HttpClient::default();
    let builder = client.get("/test");
    assert_eq!(builder.config.method, HttpMethod::Get);
    assert_eq!(builder.config.url, "/test");
}

#[test]
fn test_request_body_types() {
    let body_none = RequestBody::Empty;
    assert!(matches!(body_none, RequestBody::Empty));
    let body_text = RequestBody::Text("test".to_string());
    match body_text {
        RequestBody::Text(text) => assert_eq!(text, "test"),
        _ => panic!("Expected Text body"),
    }
    let body_json = RequestBody::Json(r#"{"key":"value"}"#.to_string());
    match body_json {
        RequestBody::Json(json) => assert!(json.contains("key")),
        _ => panic!("Expected JSON body"),
    }
    let body_binary = RequestBody::Binary(vec![1, 2, 3, 4]);
    match body_binary {
        RequestBody::Binary(data) => assert_eq!(data, vec![1, 2, 3, 4]),
        _ => panic!("Expected Binary body"),
    }
}

#[test]
fn test_method_as_str() {
    assert_eq!(HttpMethod::Get.as_str(), "GET");
    assert_eq!(HttpMethod::Post.as_str(), "POST");
    assert_eq!(HttpMethod::Put.as_str(), "PUT");
    assert_eq!(HttpMethod::Delete.as_str(), "DELETE");
    assert_eq!(HttpMethod::Patch.as_str(), "PATCH");
    assert_eq!(HttpMethod::Head.as_str(), "HEAD");
    assert_eq!(HttpMethod::Options.as_str(), "OPTIONS");
}

#[test]
fn builder_defaults() {
    let b = RequestBuilder::new(HttpMethod::Put, "/x");
    assert_eq!(b.config.url, "/x");
    assert!(matches!(b.config.body, RequestBody::Empty));
    assert_eq!(b.config.timeout_ms, Some(30000));
    assert_eq!(b.config.retry_count, 0);
    assert_eq!(b.config.retry_delay_ms, 1000);
    assert!(!b.config.with_loader && !b.config.with_progress && !b.config.with_notifications);
    assert!(b.config.call_name.is_none());
    assert_eq!(b.config.headers.len(), 0);
}

#[test]
fn no_timeout_clears_timeout() {
    let b = RequestBuilder::new(HttpMethod::Get, "/x").timeout(5).no_timeout();
    assert_eq!(b.config.timeout_ms, None);
}

#[test]
fn later_body_replaces_earlier() {
    let b = RequestBuilder::new(HttpMethod::Post, "/x")
        .text("first")
        .binary(vec![9, 8]);
    match b.config.body {
        RequestBody::Binary(data) => assert_eq!(data, vec![9, 8]),
        _ => panic!("Expected Binary body"),
    }
}

#[test]
fn json_body_round_trips() {
    let value = person();
    let b = RequestBuilder::new(HttpMethod::Post, "/x").json(&value).unwrap();
    match &b.config.body {
        RequestBody::Json(text) => {
            assert_eq!(text, r#"{"age":30,"name":"John"}"#);
            let back: serde_json::Value = serde_json::from_str(text).unwrap();
            assert_eq!(back, value);
        }
        _ => panic!("Expected JSON body"),
    }
    assert_eq!(
        b.config.headers.get("content-type"),
        Some(&"application/json".to_string())
    );
}

#[test]
fn json_replaces_existing_content_type() {
    let b = RequestBuilder::new(HttpMethod::Post, "/x")
        .header("CONTENT-TYPE", "text/plain")
        .json(&serde_json::Value::Bool(true))
        .unwrap();
    assert_eq!(b.config.headers.len(), 1);
    assert_eq!(b.config.headers.entries()[0].0, "Content-Type");
    assert_eq!(
        b.config.headers.get("Content-Type"),
        Some(&"application/json".to_string())
    );
    match &b.config.body {
        RequestBody::Json(text) => assert_eq!(text, "true"),
        _ => panic!("Expected JSON body"),
    }
}

#[test]
fn header_read_ignores_case() {
    let b = RequestBuilder::new(HttpMethod::Get, "/x").header("Accept", "x");
    assert_eq!(b.config.headers.get("ACCEPT"), Some(&"x".to_string()));
    assert_eq!(b.config.headers.get("accept"), Some(&"x".to_string()));
    assert_eq!(b.config.headers.get("Accepts"), None);
}

#[test]
fn later_header_write_wins() {
    let b = RequestBuilder::new(HttpMethod::Get, "/x")
        .header("Accept", "a")
        .header("X-Other", "o")
        .header("accept", "b");
    assert_eq!(b.config.headers.len(), 2);
    assert_eq!(b.config.headers.entries()[0].0, "accept");
    assert_eq!(b.config.headers.get("Accept"), Some(&"b".to_string()));
}

#[test]
fn builder_header_overrides_client_default() {
    let client = HttpClient::new()
        .default_header("Accept", "text/html")
        .default_timeout(500);
    let b = client.get("/x").header("ACCEPT", "application/json");
    assert_eq!(b.config.headers.len(), 1);
    assert_eq!(
        b.config.headers.get("accept"),
        Some(&"application/json".to_string())
    );
    assert_eq!(b.config.timeout_ms, Some(500));
}

#[test]
fn extend_applies_pairs_in_order() {
    let mut m = HeaderMap::new();
    m.insert("A", "1");
    m.extend(vec![
        ("b".to_string(), "2".to_string()),
        ("a".to_string(), "3".to_string()),
        ("B".to_string(), "4".to_string()),
    ]);
    assert_eq!(m.len(), 2);
    assert_eq!(m.entries()[0], ("a".to_string(), "3".to_string()));
    assert_eq!(m.entries()[1], ("B".to_string(), "4".to_string()));
}

#[test]
fn header_map_clone_keeps_entries() {
    let mut m = HeaderMap::new();
    m.insert("A", "1");
    m.insert("B", "2");
    let c = m.clone();
    assert_eq!(c.entries(), m.entries());
}

#[test]
fn header_read_ignores_non_ascii_case() {
    let b = RequestBuilder::new(HttpMethod::Get, "/x").header("é", "v");
    assert_eq!(b.config.headers.get("É"), Some(&"v".to_string()));
}

#[test]
fn json_always_succeeds_and_replaces_body() {
    let b = RequestBuilder::new(HttpMethod::Post, "/x")
        .binary(vec![1])
        .json(&serde_json::Value::Null);
    match b {
        Ok(b) => match &b.config.body {
            RequestBody::Json(text) => assert_eq!(text, "null"),
            _ => panic!("Expected JSON body"),
        },
        Err(_) => panic!("encoding a JSON value cannot fail"),
    }
}

#[test]
fn cloned_builder_keeps_settings() {
    let b = RequestBuilder::new(HttpMethod::Patch, "/x")
        .header("A", "1")
        .text("body")
        .call_name("n")
        .retry(2, 5);
    let c = b.clone();
    assert_eq!(c.config.method, HttpMethod::Patch);
    assert_eq!(c.config.url, "/x");
    assert_eq!(c.config.headers.entries(), b.config.headers.entries());
    assert_eq!(c.config.call_name.as_deref(), Some("n"));
    assert_eq!(c.config.retry_count, 2);
    assert_eq!(c.config.retry_delay_ms, 5);
    match &c.config.body {
        RequestBody::Text(t) => assert_eq!(t, "body"),
        _ => panic!("Expected text body"),
    }
}
