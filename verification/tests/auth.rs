use oxidoc::auth::{default_api_key_header, AuthType};

#[test]
fn test_auth_type_default() {
    assert_eq!(AuthType::default(), AuthType::NoAuth);
}

#[test]
fn test_auth_type_names() {
    assert_eq!(AuthType::NoAuth.name(), "None");
    assert_eq!(
        AuthType::Bearer {
            token: "test".into()
        }
        .name(),
        "Bearer Token"
    );
    assert_eq!(
        AuthType::BasicAuth {
            username: "user".into(),
            password: "pass".into()
        }
        .name(),
        "Basic Auth"
    );
    assert_eq!(
        AuthType::ApiKey {
            key: "key".into(),
            header_name: "X-API-Key".into()
        }
        .name(),
        "API Key"
    );
}

#[test]
fn test_apply_bearer_auth() {
    let auth = AuthType::Bearer {
        token: "mytoken".into(),
    };
    let mut headers = Vec::new();
    auth.apply_to_headers(&mut headers);
    assert_eq!(headers.len(), 1);
    assert_eq!(headers[0].0, "Authorization");
    assert_eq!(headers[0].1, "Bearer mytoken");
}

#[test]
fn test_apply_apikey_auth() {
    let auth = AuthType::ApiKey {
        key: "secret123".into(),
        header_name: "X-API-Key".into(),
    };
    let mut headers = Vec::new();
    auth.apply_to_headers(&mut headers);
    assert_eq!(headers.len(), 1);
    assert_eq!(headers[0].0, "X-API-Key");
    assert_eq!(headers[0].1, "secret123");
}

#[test]
fn test_apply_none_auth() {
    let auth = AuthType::NoAuth;
    let mut headers = Vec::new();
    auth.apply_to_headers(&mut headers);
    assert_eq!(headers.len(), 0);
}

#[test]
fn basic_auth_header_is_base64_of_credentials() {
    let auth = AuthType::BasicAuth {
        username: "Aladdin".into(),
        password: "open sesame".into(),
    };
    let mut headers = vec![("Accept".to_string(), "*/*".to_string())];
    auth.apply_to_headers(&mut headers);
    assert_eq!(headers.len(), 2);
    assert_eq!(headers[1].0, "Authorization");
    assert_eq!(headers[1].1, "Basic QWxhZGRpbjpvcGVuIHNlc2FtZQ==");
}

#[test]
fn empty_secrets_add_no_header() {
    let mut headers = Vec::new();
    AuthType::Bearer { token: String::new() }.apply_to_headers(&mut headers);
    AuthType::ApiKey { key: String::new(), header_name: "X".into() }.apply_to_headers(&mut headers);
    AuthType::BasicAuth { username: String::new(), password: "p".into() }
        .apply_to_headers(&mut headers);
    assert!(headers.is_empty());
}

#[test]
fn default_api_key_header_name() {
    assert_eq!(default_api_key_header(), "X-API-Key");
}
