use oxidoc::versioning::{archived_versions, VersioningConfig, VersioningState};

#[test]
fn test_versioning_state_disabled_by_default() {
    let config = VersioningConfig::default();
    let state = VersioningState::from_config(&config);
    assert!(!state.enabled);
    assert_eq!(state.versions.len(), 0);
}

#[test]
fn test_versioning_state_enabled() {
    let config = VersioningConfig {
        default: Some("v2.0".to_string()),
        versions: vec!["v1.0".to_string(), "v2.0".to_string()],
    };
    let state = VersioningState::from_config(&config);
    assert!(state.enabled);
    assert_eq!(state.default_version, "v2.0");
    assert_eq!(state.versions.len(), 2);
}

#[test]
fn test_versioning_state_default_to_latest() {
    let config = VersioningConfig {
        default: None,
        versions: vec!["v1.0".to_string(), "v2.0".to_string()],
    };
    let state = VersioningState::from_config(&config);
    assert_eq!(state.default_version, "v2.0");
}

#[test]
fn test_versioning_build_dirs_disabled() {
    let state = VersioningState {
        versions: vec![],
        default_version: String::new(),
        enabled: false,
    };
    assert_eq!(state.build_dirs(), vec!["".to_string()]);
}

#[test]
fn test_versioning_build_dirs_enabled() {
    let state = VersioningState {
        versions: vec!["v1.0".to_string(), "v2.0".to_string()],
        default_version: "v2.0".to_string(),
        enabled: true,
    };
    let dirs = state.build_dirs();
    assert_eq!(dirs.len(), 3);
    assert!(dirs.contains(&"v1.0".to_string()));
    assert!(dirs.contains(&"v2.0".to_string()));
    assert!(dirs.contains(&"".to_string()));
}

#[test]
fn test_render_version_switcher_disabled() {
    let state = VersioningState {
        versions: vec![],
        default_version: String::new(),
        enabled: false,
    };
    assert_eq!(state.render_version_switcher("v1.0"), "");
}

#[test]
fn test_render_version_switcher_single_version() {
    let state = VersioningState {
        versions: vec!["v1.0".to_string()],
        default_version: "v1.0".to_string(),
        enabled: true,
    };
    assert_eq!(state.render_version_switcher("v1.0"), "");
}

#[test]
fn test_render_version_switcher_multiple_versions() {
    let state = VersioningState {
        versions: vec!["v1.0".to_string(), "v2.0".to_string()],
        default_version: "v2.0".to_string(),
        enabled: true,
    };
    let html = state.render_version_switcher("v1.0");
    assert!(html.contains("oxidoc-version-switcher"));
    assert!(html.contains("v1.0"));
    assert!(html.contains("v2.0"));
    assert!(html.contains(">v1.0 <"));
}

#[test]
fn test_render_version_switcher_current_active() {
    let state = VersioningState {
        versions: vec!["v1.0".to_string(), "v2.0".to_string()],
        default_version: "v2.0".to_string(),
        enabled: true,
    };
    let html = state.render_version_switcher("v2.0");
    assert!(html.contains(r#"href="/" class="oxidoc-version-link active""#));
    assert!(html.contains(">v2.0 <"));
}

#[test]
fn test_render_version_switcher_urls() {
    let state = VersioningState {
        versions: vec!["v1.0".to_string(), "v2.0".to_string(), "v3.0".to_string()],
        default_version: "v3.0".to_string(),
        enabled: true,
    };
    let html = state.render_version_switcher("v1.0");
    assert!(html.contains(r#"href="/v1.0/""#));
    assert!(html.contains(r#"href="/v2.0/""#));
    assert!(html.contains(r#"href="/""#));
    assert!(html.contains(r#"class="oxidoc-version-link active" data-version="v1.0""#));
    assert!(html.contains("onclick"));
    assert!(html.contains("addEventListener"));
}

#[test]
fn test_from_config_with_archives_no_archives_no_config() {
    let config = VersioningConfig::default();
    let state = VersioningState::from_config_with_archives(&config, Vec::new(), None);
    assert!(!state.enabled);
}

#[test]
fn test_from_config_with_archives_auto_discovers() {
    let config = VersioningConfig::default();
    let archived = vec!["v2.0".to_string(), "v1.0".to_string()];
    let state = VersioningState::from_config_with_archives(&config, archived, None);
    assert!(state.enabled);
    assert_eq!(state.versions, vec!["latest", "v2.0", "v1.0"]);
    assert_eq!(state.default_version, "latest");
}

#[test]
fn test_from_config_with_archives_custom_current_label() {
    let config = VersioningConfig::default();
    let archived = vec!["v1.0".to_string()];
    let state = VersioningState::from_config_with_archives(&config, archived, Some("v2.0"));
    assert!(state.enabled);
    assert_eq!(state.versions, vec!["v2.0", "v1.0"]);
    assert_eq!(state.default_version, "v2.0");
}

#[test]
fn test_from_config_with_archives_explicit_config_takes_precedence() {
    let config = VersioningConfig {
        default: Some("v3.0".to_string()),
        versions: vec!["v2.0".to_string(), "v3.0".to_string()],
    };
    let archived = vec!["v1.0".to_string()];
    let state = VersioningState::from_config_with_archives(&config, archived, None);
    assert!(state.enabled);
    assert_eq!(state.default_version, "v3.0");
    assert_eq!(state.versions, vec!["v2.0", "v3.0"]);
}

#[test]
fn version_switcher_lists_versions_as_json() {
    let state = VersioningState {
        versions: vec!["v1.0".to_string(), "v2.0".to_string()],
        default_version: "v2.0".to_string(),
        enabled: true,
    };
    let html = state.render_version_switcher("v1.0");
    assert!(html.starts_with(r#"<div class="oxidoc-version-switcher" data-versions='["v1.0","v2.0"]'>"#));
    assert!(html.ends_with("</div>"));
}

#[test]
fn archived_versions_keeps_archives_newest_first() {
    let names: Vec<String> = vec![
        "v1.0.rdx.archive".into(),
        "notes.txt".into(),
        "v2.0.rdx.archive".into(),
        "v1.5.rdx.archive".into(),
        ".rdx.archive".into(),
        "rdx.archive".into(),
    ];
    assert_eq!(archived_versions(&names), vec!["v2.0", "v1.5", "v1.0", ""]);
    assert!(archived_versions(&[]).is_empty());
}

#[test]
fn archived_versions_feed_the_versioning_state() {
    let names: Vec<String> = vec!["v1.0.rdx.archive".into(), "v2.0.rdx.archive".into()];
    let archived = archived_versions(&names);
    let state =
        VersioningState::from_config_with_archives(&VersioningConfig::default(), archived, None);
    assert!(state.enabled);
    assert_eq!(state.versions, vec!["latest", "v2.0", "v1.0"]);
    assert_eq!(state.default_version, "latest");
}
