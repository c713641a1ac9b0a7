use oxidoc::config::{HeaderLink, OxidocConfig};
use oxidoc::search_provider::SearchProvider;
use oxidoc::template::page::{
    render_landing_page, render_landing_page_for_year, render_page, render_page_for_year, PageChrome,
};
use oxidoc::template_assets::AssetConfig;

fn test_config() -> OxidocConfig {
    OxidocConfig::new("Test Docs")
}

fn default_assets() -> AssetConfig<'static> {
    AssetConfig::default()
}

fn default_search_provider() -> SearchProvider {
    SearchProvider::Oxidoc { model_path: None }
}

fn test_chrome() -> PageChrome {
    PageChrome {
        menu_toggle_html: r#"<button class="oxidoc-menu-toggle"></button>"#.to_string(),
        header_actions_html: r#"<div class="oxidoc-header-actions"><button class="oxidoc-theme-toggle"></button><button class="oxidoc-search-trigger"></button></div>"#.to_string(),
        search_dialog_html: r#"<dialog class="oxidoc-search-dialog"></dialog>"#.to_string(),
        scripts_html: "<script>theme()</script>\n<script>search()</script>\n".to_string(),
        mermaid_script: r#"<script type="module">mermaid()</script>"#.to_string(),
    }
}

/// Render a page with test defaults; only title, content, slug, and description vary.
fn render_test_page(
    config: &OxidocConfig,
    title: &str,
    content: &str,
    slug: &str,
    desc: Option<&str>,
) -> String {
    render_page(
        config,
        title,
        content,
        "",
        "",
        "",
        slug,
        desc,
        "",
        &default_assets(),
        "en",
        "",
        &default_search_provider(),
        false,
        &test_chrome(),
    )
}

fn render_test_page_with_assets(
    config: &OxidocConfig,
    title: &str,
    slug: &str,
    assets: &AssetConfig<'_>,
) -> String {
    render_page(
        config,
        title,
        "",
        "",
        "",
        "",
        slug,
        None,
        "",
        assets,
        "en",
        "",
        &default_search_provider(),
        false,
        &test_chrome(),
    )
}

fn check_structure_and_accessibility() {
    let config = test_config();
    let html = render_test_page(&config, "Intro", "<p>Hello</p>", "intro", None);
    assert!(html.contains("<!DOCTYPE html>"));
    assert!(html.contains("<title>Intro - Test Docs</title>"));
    assert!(html.contains(r#"href="/oxidoc.css""#));
    assert!(html.contains("<p>Hello</p>"));
    assert!(html.contains("oxidoc-loader.js"));
    assert!(html.contains(r#"lang="en""#));
    assert!(html.contains("oxidoc-skip-nav"));
    assert!(html.contains(r##"href="#oxidoc-main""##));
    assert!(html.contains(r##"id="oxidoc-main""##));
    assert!(html.contains(r#"rel="preload" href="/oxidoc.css" as="style""#));
    assert!(html.contains(r#"rel="preload" href="/oxidoc-loader.js" as="script""#));
    assert!(html.contains("oxidoc-search-trigger"));
    assert!(html.contains("oxidoc-theme-toggle"));
    assert!(html.contains("oxidoc-footer"));

    let mut logo_cfg = OxidocConfig::new("T");
    logo_cfg.project.logo = Some("/logo.svg".into());
    let html = render_test_page(&logo_cfg, "", "", "", None);
    assert!(html.contains(r#"src="/logo.svg""#) && html.contains("oxidoc-logo-img"));
}

fn check_seo_and_description() {
    let html = render_test_page(&test_config(), "Test Page", "", "test", Some("A test page"));
    assert!(html.contains(r#"<meta name="description" content="A test page">"#));
    assert!(html.contains(r#"<meta property="og:title""#));
    assert!(html.contains(r#"<meta property="og:type" content="article""#));
    assert!(html.contains(r#"<meta property="og:description""#));
    assert!(html.contains(r#"<meta name="twitter:card" content="summary""#));
    assert!(html.contains("application/ld+json"));

    let mut cfg = OxidocConfig::new("T");
    cfg.project.description = Some("Fallback desc".into());
    let html = render_test_page(&cfg, "P", "", "p", None);
    assert!(html.contains("Fallback desc"));
}

fn check_custom_assets_and_sri() {
    let config = test_config();
    let assets = AssetConfig {
        css_path: Some("/oxidoc.a1b2c3d4.css"),
        js_path: Some("/oxidoc-loader.h5i6j7k8.js"),
        ..Default::default()
    };
    let html = render_test_page_with_assets(&config, "Test", "test", &assets);
    assert!(html.contains(r#"href="/oxidoc.a1b2c3d4.css""#));
    assert!(html.contains(r#"src="/oxidoc-loader.h5i6j7k8.js""#));

    let sri_assets = AssetConfig {
        css_sri: Some("sha384-abc123"),
        js_sri: Some("sha384-def456"),
        ..assets
    };
    let html = render_test_page_with_assets(&config, "Test", "test", &sri_assets);
    assert!(html.contains(r#"integrity="sha384-abc123""#));
    assert!(html.contains(r#"integrity="sha384-def456""#));
    assert!(html.contains(r#"crossorigin="anonymous""#));
}

fn check_analytics() {
    let mut ga_config = OxidocConfig::new("Test");
    ga_config.analytics.google_analytics = Some("G-XXXXXXXXXX".into());
    let html = render_test_page(&ga_config, "", "", "", None);
    assert!(html.contains("googletagmanager.com") && html.contains("G-XXXXXXXXXX"));

    let mut custom_config = OxidocConfig::new("Test");
    custom_config.analytics.script = Some("<script>custom</script>".into());
    let html = render_test_page(&custom_config, "", "", "", None);
    assert!(html.contains("custom"));
}

#[test]
fn page_render_page_structure_and_accessibility() {
    check_structure_and_accessibility();
}

#[test]
fn template_render_page_structure_and_accessibility() {
    check_structure_and_accessibility();
}

#[test]
fn page_render_page_seo_and_description() {
    check_seo_and_description();
}

#[test]
fn template_render_page_seo_and_description() {
    check_seo_and_description();
}

#[test]
fn page_render_page_with_custom_assets_and_sri() {
    check_custom_assets_and_sri();
}

#[test]
fn template_render_page_with_custom_assets_and_sri() {
    check_custom_assets_and_sri();
}

#[test]
fn page_render_page_includes_analytics() {
    check_analytics();
}

#[test]
fn template_render_page_includes_analytics() {
    check_analytics();
}

#[test]
fn render_page_og_type_homepage_vs_article() {
    let config = test_config();
    let provider = default_search_provider();
    let homepage_html = render_page(
        &config, "Home", "", "", "", "", "", None, "", &default_assets(), "en", "", &provider,
        true, &test_chrome(),
    );
    assert!(
        homepage_html.contains(r#"<meta property="og:type" content="website""#),
        "homepage should emit og:type=website"
    );
    let article_html = render_page(
        &config, "Guide", "", "", "", "", "guide", None, "", &default_assets(), "en", "",
        &provider, false, &test_chrome(),
    );
    assert!(
        article_html.contains(r#"<meta property="og:type" content="article""#),
        "regular page should emit og:type=article"
    );
}

#[test]
fn render_page_json_ld_and_canonical_url() {
    let mut config = test_config();
    config.project.base_url = Some("https://docs.example.com".into());
    let html = render_page_for_year(
        &config, "Say \"hi\"", "", "", "", "", "guide/intro", None, "", &default_assets(), "en",
        "", &default_search_provider(), false, &test_chrome(), "2026",
    );
    assert!(html.contains(
        r#"<script type="application/ld+json">{"@context":"https://schema.org","@type":"WebPage","name":"Say \"hi\" - Test Docs","description":"Test Docs documentation","url":"https://docs.example.com/guide/intro","site":{"name":"Test Docs"}}</script>"#
    ));
    assert!(html.contains(r#"<link rel="canonical" href="https://docs.example.comguide/intro">"#));
    assert!(html.contains(r#"<meta property="og:url" content="https://docs.example.com/guide/intro">"#));
    assert!(html.contains("<title>Say &quot;hi&quot; - Test Docs</title>"));
}

#[test]
fn render_page_moves_head_blocks_and_adds_scripts() {
    let mut config = test_config();
    config.search.semantic = true;
    config.project.favicon = Some("/icon.png".into());
    config.routing.header_links = vec![HeaderLink { label: "Docs".into(), href: "/docs".into() }];
    let content = r#"<!--oxidoc-head-start--><meta name="description" content="Own"><!--oxidoc-head-end--><pre class="mermaid">graph</pre>"#;
    let toc = r#"<nav class="oxidoc-toc"><ul><li>A</li></ul></nav>"#;
    let html = render_page_for_year(
        &config, "T", content, toc, "", "", "t", None, "", &default_assets(), "en",
        "<select></select>", &default_search_provider(), false, &test_chrome(), "2026",
    );
    assert!(html.contains("<meta name=\"description\" content=\"Own\">\n</head>"));
    assert!(!html.contains(r#"<meta name="description" content="Test Docs documentation">"#));
    assert!(!html.contains("oxidoc-head-start"));
    assert!(html.contains(r#"<dialog class="oxidoc-search-dialog" data-semantic="true"></dialog>"#));
    assert!(html.contains("<script>search()</script>\n<script type=\"module\">mermaid()</script></body>"));
    assert!(html.contains(r#"<link rel="icon" type="image/png" href="/icon.png">"#));
    assert!(html.contains(r#"<a href="/docs" class="oxidoc-header-nav-link">Docs</a>"#));
    assert!(html.contains(r#"aria-label="Table of contents"><ul><li>A</li></ul></nav></div>"#));
    assert!(html.contains(r#"<div class="oxidoc-toc-inner"><nav class="oxidoc-toc">"#));
    assert!(html.contains("<select></select>"));
    assert!(html.ends_with("</body>\n</html>"));
}

#[test]
fn render_page_without_mermaid_adds_no_mermaid_script() {
    let html = render_page_for_year(
        &test_config(), "T", "<p>x</p>", "", "", "", "t", None, "", &default_assets(), "en", "",
        &default_search_provider(), false, &test_chrome(), "2026",
    );
    assert!(!html.contains("mermaid()"));
    assert!(html.contains(r#"<dialog class="oxidoc-search-dialog"></dialog>"#));
}

#[test]
fn landing_page_has_no_sidebar_or_toc() {
    let config = test_config();
    let provider = SearchProvider::Oxidoc { model_path: None };
    let html = render_landing_page(
        &config,
        "Welcome",
        "<p>Hello</p>",
        "",
        None,
        &AssetConfig::default(),
        "en",
        "",
        &provider,
        &test_chrome(),
    );
    assert!(html.contains("oxidoc-landing"));
    assert!(html.contains("oxidoc-header-landing"));
    assert!(html.contains("oxidoc-sidebar-landing"));
    assert!(!html.contains("oxidoc-toc-sidebar"));
    assert!(!html.contains("oxidoc-layout"));
    assert!(html.contains("<p>Hello</p>"));
    assert!(html.contains("oxidoc-footer"));
}

#[test]
fn landing_page_keeps_default_meta_and_moves_head_blocks() {
    let mut config = test_config();
    config.project.base_url = Some("https://x.test/".into());
    let content = r#"<!--oxidoc-head-start--><meta name="description" content="Own"><!--oxidoc-head-end--><p>Hi</p>"#;
    let html = render_landing_page_for_year(
        &config, "", content, "", None, &AssetConfig::default(), "fr", "", &default_search_provider(),
        &test_chrome(), "2026",
    );
    assert!(html.contains(r#"<meta name="description" content="Test Docs documentation">"#));
    assert!(html.contains("<meta name=\"description\" content=\"Own\">\n</head>"));
    assert!(html.contains(r#"<meta property="og:type" content="article">"#));
    assert!(html.contains(r#"<meta property="og:url" content="https://x.test/">"#));
    assert!(html.contains(r#""@type":"WebPage","name":"Test Docs""#));
    assert!(html.contains(r#"<html lang="fr" data-locale="fr">"#));
    assert!(html.contains("Copyright") || html.contains("Built with"));
    assert!(html.ends_with("</body>\n</html>"));
}
