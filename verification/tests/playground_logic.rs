use oxidoc::auth::AuthType;
use oxidoc::playground::ParameterDef;
use oxidoc::playground_logic::{
    auth_from_choice, build_url, initial_param_values, prepare_request, set_param_value,
    snippet_request,
};
use oxidoc::response::{format_response_body, get_status_class};

#[test]
fn test_build_url_no_params() {
    let url = build_url("https://api.example.com", "/users", &[]);
    assert_eq!(url, "https://api.example.com/users");
}

#[test]
fn test_build_url_with_params() {
    let url = build_url(
        "https://api.example.com",
        "/users/{id}/posts/{postId}",
        &[("id".into(), "42".into()), ("postId".into(), "1".into())],
    );
    assert_eq!(url, "https://api.example.com/users/42/posts/1");
}

#[test]
fn build_url_replaces_every_occurrence() {
    let url = build_url("", "/{a}/{a}/{b}", &[("a".into(), "x".into())]);
    assert_eq!(url, "/x/x/{b}");
}

#[test]
fn test_status_class_2xx() {
    assert_eq!(get_status_class(200), "api-status-2xx");
    assert_eq!(get_status_class(201), "api-status-2xx");
    assert_eq!(get_status_class(299), "api-status-2xx");
}

#[test]
fn test_status_class_3xx() {
    assert_eq!(get_status_class(300), "api-status-3xx");
    assert_eq!(get_status_class(302), "api-status-3xx");
}

#[test]
fn test_status_class_4xx() {
    assert_eq!(get_status_class(400), "api-status-4xx");
    assert_eq!(get_status_class(404), "api-status-4xx");
    assert_eq!(get_status_class(499), "api-status-4xx");
}

#[test]
fn test_status_class_5xx() {
    assert_eq!(get_status_class(500), "api-status-5xx");
    assert_eq!(get_status_class(503), "api-status-5xx");
    assert_eq!(get_status_class(100), "api-status-5xx");
}

#[test]
fn test_format_plain_text() {
    let plain = "Hello, world!";
    assert_eq!(format_response_body(plain), plain);
}

#[test]
fn test_format_json() {
    let json = r#"{"name":"test","value":123}"#;
    let formatted = format_response_body(json);
    assert!(formatted.contains("name"));
    assert!(formatted.contains("test"));
    assert!(formatted.contains("value"));
    assert!(formatted.contains("123"));
    assert!(formatted.contains('\n'));
}

#[test]
fn prepared_request_headers_and_body() {
    let auth = AuthType::Bearer { token: "t".into() };
    let req = prepare_request(
        "POST".into(),
        "https://api.example.com",
        "/pets/{id}",
        &[("id".into(), "7".into())],
        &auth,
        "{}".into(),
    );
    assert_eq!(req.method, "POST");
    assert_eq!(req.url, "https://api.example.com/pets/7");
    assert_eq!(
        req.headers,
        vec![
            ("Accept".to_string(), "application/json".to_string()),
            ("Authorization".to_string(), "Bearer t".to_string()),
            ("Content-Type".to_string(), "application/json".to_string()),
        ]
    );
    assert_eq!(req.body, Some("{}".to_string()));

    let key_as_content_type = AuthType::ApiKey { key: "text/plain".into(), header_name: "Content-Type".into() };
    let req = prepare_request("PUT".into(), "", "/x", &[], &key_as_content_type, "b".into());
    assert_eq!(req.headers.len(), 2);
    let no_body = prepare_request("GET".into(), "", "/x", &[], &AuthType::NoAuth, String::new());
    assert_eq!(no_body.headers.len(), 1);
    assert_eq!(no_body.body, None);
}

#[test]
fn snippet_request_has_only_auth_headers() {
    let auth = AuthType::ApiKey { key: "k".into(), header_name: "X-API-Key".into() };
    let req = snippet_request("GET".into(), "https://h", "/p", &[], &auth, String::new());
    assert_eq!(req.url, "https://h/p");
    assert_eq!(req.headers, vec![("X-API-Key".to_string(), "k".to_string())]);
    assert_eq!(req.body, None);
    assert_eq!(req.to_curl(), "curl -X GET 'https://h/p' \\\n  -H 'X-API-Key: k'");
}

#[test]
fn auth_choices() {
    assert_eq!(
        auth_from_choice("apikey"),
        AuthType::ApiKey { key: String::new(), header_name: "X-API-Key".into() }
    );
    assert_eq!(auth_from_choice("bearer"), AuthType::Bearer { token: String::new() });
    assert_eq!(
        auth_from_choice("basic"),
        AuthType::BasicAuth { username: String::new(), password: String::new() }
    );
    assert_eq!(auth_from_choice("none"), AuthType::NoAuth);
}

#[test]
fn parameter_values_start_empty_and_update_by_name() {
    let params = vec![
        ParameterDef { name: "id".into(), location: "path".into(), param_type: "string".into(), required: true },
        ParameterDef { name: "q".into(), location: "query".into(), param_type: "string".into(), required: false },
    ];
    let mut values = initial_param_values(&params);
    assert_eq!(values, vec![("id".to_string(), String::new()), ("q".to_string(), String::new())]);
    set_param_value(&mut values, "q", "rust".into());
    set_param_value(&mut values, "missing", "x".into());
    assert_eq!(values, vec![("id".to_string(), String::new()), ("q".to_string(), "rust".to_string())]);
}
