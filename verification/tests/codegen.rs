use oxidoc::codegen::{escape_python_string, escape_quoted_string, escape_shell, CodegenRequest};

fn test_request() -> CodegenRequest {
    CodegenRequest {
        method: "GET".into(),
        url: "https://api.example.com/users/42".into(),
        headers: vec![
            ("Authorization".into(), "Bearer token123".into()),
            ("X-Request-ID".into(), "req-001".into()),
        ],
        body: None,
    }
}

#[test]
fn test_curl_generation() {
    let req = test_request();
    let curl = req.to_curl();
    assert!(curl.contains("curl -X GET"));
    assert!(curl.contains("https://api.example.com/users/42"));
    assert!(curl.contains("Authorization"));
    assert!(curl.contains("Bearer token123"));
}

#[test]
fn test_curl_with_body() {
    let req = CodegenRequest {
        method: "POST".into(),
        url: "https://api.example.com/users".into(),
        headers: vec![("Content-Type".into(), "application/json".into())],
        body: Some("{\"name\": \"Alice\"}".into()),
    };
    let curl = req.to_curl();
    assert!(curl.contains("curl -X POST"));
    assert!(curl.contains("-d"));
    assert!(curl.contains("name"));
}

#[test]
fn test_python_generation() {
    let req = test_request();
    let python = req.to_python();
    assert!(python.contains("import requests"));
    assert!(python.contains("https://api.example.com/users/42"));
    assert!(python.contains("requests.request"));
    assert!(python.contains("'GET'"));
}

#[test]
fn test_javascript_generation() {
    let req = test_request();
    let js = req.to_javascript();
    assert!(js.contains("const url = 'https://api.example.com/users/42'"));
    assert!(js.contains("fetch(url"));
    assert!(js.contains(".then(response => response.json())"));
}

#[test]
fn test_rust_generation() {
    let req = test_request();
    let rust = req.to_rust();
    assert!(rust.contains("#[tokio::main]"));
    assert!(rust.contains("reqwest::Client::new()"));
    assert!(rust.contains("Bearer token123"));
}

#[test]
fn test_escape_shell() {
    assert_eq!(escape_shell("hello"), "hello");
    assert_eq!(escape_shell("it's"), "it'\\''s");
}

#[test]
fn test_escape_quoted_string() {
    assert_eq!(escape_quoted_string("hello"), "hello");
    assert_eq!(escape_quoted_string("line1\nline2"), "line1\\nline2");
    assert_eq!(escape_quoted_string("quote\"here"), "quote\\\"here");
}

#[test]
fn escape_python_string_escapes_quotes_and_backslashes() {
    assert_eq!(escape_python_string("it's"), "it\\'s");
    assert_eq!(escape_python_string("a\\b"), "a\\\\b");
}

#[test]
fn curl_without_headers_or_body_is_one_line() {
    let req = CodegenRequest {
        method: "DELETE".into(),
        url: "https://api.example.com/x".into(),
        headers: vec![],
        body: None,
    };
    assert_eq!(req.to_curl(), "curl -X DELETE 'https://api.example.com/x'");
}
