use oxidoc::config::OxidocConfig;
use oxidoc::search_provider::SearchProvider;
use oxidoc::template_404::{render_404_page, render_404_page_for_year};
use oxidoc::template_assets::AssetConfig;

fn test_config() -> OxidocConfig {
    OxidocConfig::new("Test Docs")
}

fn default_search_provider() -> SearchProvider {
    SearchProvider::Oxidoc { model_path: None }
}

#[test]
fn render_404_page_contains_essentials() {
    let config = test_config();
    let html = render_404_page(
        &config,
        &AssetConfig::default(),
        "en",
        &default_search_provider(),
        "",
        "",
    );
    assert!(html.contains("<!DOCTYPE html>"));
    assert!(html.contains("404"));
    assert!(html.contains("Not Found"));
    assert!(html.contains("Return to home"));
}

#[test]
fn render_404_page_with_assets_and_sri() {
    let config = test_config();
    let assets = AssetConfig {
        css_path: Some("/oxidoc.a1b2c3d4.css"),
        js_path: Some("/oxidoc-loader.h5i6j7k8.js"),
        css_sri: Some("sha384-abc123"),
        js_sri: Some("sha384-def456"),
    };
    let html = render_404_page(
        &config,
        &assets,
        "en",
        &default_search_provider(),
        "",
        "",
    );
    assert!(html.contains(r#"href="/oxidoc.a1b2c3d4.css""#));
    assert!(html.contains(r#"src="/oxidoc-loader.h5i6j7k8.js""#));
    assert!(html.contains(r#"integrity="sha384-abc123""#));
    assert!(html.contains(r#"integrity="sha384-def456""#));
}

#[test]
fn render_404_page_default_assets_and_locale() {
    let config = test_config();
    let html = render_404_page_for_year(
        &config,
        &AssetConfig::default(),
        "fr",
        &default_search_provider(),
        "<div class=\"locales\"></div>",
        "",
        "2030",
    );
    assert!(html.starts_with("<!DOCTYPE html>\n<html lang=\"fr\" data-locale=\"fr\">\n<head>\n"));
    assert!(html.contains("<title>Page Not Found - Test Docs</title>"));
    assert!(html.contains(r#"<link rel="stylesheet" href="/oxidoc.css">"#));
    assert!(html.contains(r#"<script src="/oxidoc-loader.js" type="module" async></script>"#));
    assert!(html.contains("<body data-locale=\"fr\">"));
    assert!(html.contains("<div class=\"locales\"></div>"));
    assert!(html.contains(r#"<a href="/" class="oxidoc-logo">Test Docs</a>"#));
    assert!(html.ends_with("</body>\n</html>"));
}
