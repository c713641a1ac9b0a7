use oxidoc::error::OxidocError;
use oxidoc::search_provider::{SearchConfig, SearchProvider};

#[test]
fn test_oxidoc_provider_from_config() {
    let config = SearchConfig {
        model_path: Some("/path/to/model".to_string()),
        ..SearchConfig::default()
    };
    let provider = SearchProvider::from_config(&config).unwrap();
    assert!(provider.is_builtin());
    assert!(matches!(provider, SearchProvider::Oxidoc { .. }));
}

#[test]
fn test_algolia_provider_from_config() {
    let config = SearchConfig {
        provider: "algolia".to_string(),
        app_id: Some("test-app-id".to_string()),
        api_key: Some("test-api-key".to_string()),
        index_name: Some("test-index".to_string()),
        ..SearchConfig::default()
    };
    let provider = SearchProvider::from_config(&config).unwrap();
    assert!(!provider.is_builtin());
    assert!(matches!(provider, SearchProvider::Algolia { .. }));
}

#[test]
fn test_algolia_missing_required_field() {
    let config = SearchConfig {
        provider: "algolia".to_string(),
        app_id: Some("test-app-id".to_string()),
        index_name: Some("test-index".to_string()),
        ..SearchConfig::default()
    };
    let result = SearchProvider::from_config(&config);
    assert!(result.is_err());
    assert!(matches!(
        result.unwrap_err(),
        OxidocError::SearchProviderConfig { .. }
    ));
}

#[test]
fn test_meilisearch_provider_from_config() {
    let config = SearchConfig {
        provider: "meilisearch".to_string(),
        api_key: Some("test-key".to_string()),
        index_name: Some("docs".to_string()),
        host: Some("https://search.example.com".to_string()),
        ..SearchConfig::default()
    };
    let provider = SearchProvider::from_config(&config).unwrap();
    assert!(!provider.is_builtin());
}

#[test]
fn test_custom_provider_from_config() {
    let config = SearchConfig {
        provider: "custom".to_string(),
        stylesheet: Some("https://cdn.example.com/search.css".to_string()),
        script: Some("https://cdn.example.com/search.js".to_string()),
        init_script: Some("SearchWidget.init({container: '#oxidoc-search-slot'})".to_string()),
        ..SearchConfig::default()
    };
    let provider = SearchProvider::from_config(&config).unwrap();
    assert!(!provider.is_builtin());
}

#[test]
fn test_oxidoc_no_head_tags() {
    let provider = SearchProvider::from_config(&SearchConfig::default()).unwrap();
    assert_eq!(provider.render_head_tags(), "");
    assert_eq!(provider.render_scripts(), "");
    assert_eq!(provider.search_container_html(), "");
}

#[test]
fn test_algolia_head_tags() {
    let config = SearchConfig {
        provider: "algolia".to_string(),
        app_id: Some("app".to_string()),
        api_key: Some("key".to_string()),
        index_name: Some("idx".to_string()),
        ..SearchConfig::default()
    };
    let provider = SearchProvider::from_config(&config).unwrap();
    assert!(provider.render_head_tags().contains("@docsearch/css@3"));
}

#[test]
fn test_algolia_scripts() {
    let config = SearchConfig {
        provider: "algolia".to_string(),
        app_id: Some("test-app".to_string()),
        api_key: Some("test-key".to_string()),
        index_name: Some("test-index".to_string()),
        ..SearchConfig::default()
    };
    let provider = SearchProvider::from_config(&config).unwrap();
    let scripts = provider.render_scripts();
    assert!(scripts.contains("@docsearch/js@3"));
    assert!(scripts.contains("test-app"));
    assert!(scripts.contains("test-key"));
    assert!(scripts.contains("test-index"));
    assert!(scripts.contains("docsearch("));
}

#[test]
fn test_custom_provider_renders_stylesheet() {
    let config = SearchConfig {
        provider: "custom".to_string(),
        stylesheet: Some("https://example.com/search.css".to_string()),
        ..SearchConfig::default()
    };
    let provider = SearchProvider::from_config(&config).unwrap();
    assert!(provider
        .render_head_tags()
        .contains("https://example.com/search.css"));
}

#[test]
fn test_non_builtin_providers_have_search_container() {
    let configs = vec![
        SearchConfig {
            provider: "algolia".to_string(),
            app_id: Some("a".to_string()),
            api_key: Some("k".to_string()),
            index_name: Some("i".to_string()),
            ..SearchConfig::default()
        },
        SearchConfig {
            provider: "custom".to_string(),
            ..SearchConfig::default()
        },
    ];
    for config in configs {
        let provider = SearchProvider::from_config(&config).unwrap();
        assert!(!provider.search_container_html().is_empty());
        assert!(provider
            .search_container_html()
            .contains("data-oxidoc-search"));
    }
}

#[test]
fn missing_field_error_names_provider_and_field() {
    let config = SearchConfig {
        provider: "typesense".to_string(),
        api_key: Some("k".to_string()),
        ..SearchConfig::default()
    };
    match SearchProvider::from_config(&config) {
        Err(OxidocError::SearchProviderConfig { provider, field }) => {
            assert_eq!(provider, "typesense");
            assert_eq!(field, "host");
        }
        other => panic!("unexpected result: {:?}", other),
    }
}

#[test]
fn unknown_provider_is_treated_as_empty_custom() {
    let config = SearchConfig {
        provider: "something-else".to_string(),
        stylesheet: Some("ignored.css".to_string()),
        ..SearchConfig::default()
    };
    let provider = SearchProvider::from_config(&config).unwrap();
    assert!(!provider.is_builtin());
    assert!(matches!(
        provider,
        SearchProvider::Custom { stylesheet: None, script: None, init_script: None }
    ));
    assert_eq!(provider.render_head_tags(), "");
}
