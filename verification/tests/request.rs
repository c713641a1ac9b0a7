use oxidoc::request::ApiRequest;

#[test]
fn test_api_request_creation() {
    let req = ApiRequest::new("GET".into(), "https://api.example.com/users".into());
    assert_eq!(req.method, "GET");
    assert_eq!(req.url, "https://api.example.com/users");
    assert!(req.headers.is_empty());
    assert!(req.body.is_none());
}

#[test]
fn test_api_request_with_headers() {
    let req = ApiRequest::new("GET".into(), "https://api.example.com".into())
        .with_header("Authorization".into(), "Bearer token".into())
        .with_header("X-Custom".into(), "value".into());

    assert_eq!(req.headers.len(), 2);
    assert_eq!(req.headers[0].0, "Authorization");
    assert_eq!(req.headers[1].1, "value");
}

#[test]
fn test_api_request_with_body() {
    let req = ApiRequest::new("POST".into(), "https://api.example.com".into())
        .with_body("{\"name\": \"test\"}".into());

    assert_eq!(req.body, Some("{\"name\": \"test\"}".into()));
}
