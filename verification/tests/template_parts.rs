use oxidoc::config::{LinkConfig, NavGroup, OxidocConfig, PageEntry};
use oxidoc::template_parts::{
    render_analytics_script, render_footer, render_footer_for_year, render_page_meta,
    render_sidebar, render_sidebar_with_homepage, PageGitMeta, PageNav,
};

fn page(title: &str, slug: &str) -> PageEntry {
    PageEntry {
        title: title.into(),
        short_title: title.into(),
        slug: slug.into(),
        file_path: String::new(),
        group: None,
    }
}

#[test]
fn render_sidebar_with_groups() {
    let groups = vec![NavGroup {
        title: "Getting Started".into(),
        pages: vec![page("Intro", "intro"), page("Setup", "setup")],
    }];
    let html = render_sidebar(&groups, "intro");
    assert!(html.contains("Getting Started"));
    assert!(html.contains(r#"aria-current="page""#));
    assert!(html.contains(r#"href="/intro""#));
    assert!(html.contains(r#"href="/setup""#));
}

#[test]
fn render_sidebar_index_slugs_and_homepage() {
    let groups = vec![
        NavGroup {
            title: String::new(),
            pages: vec![page("Home", "home"), page("Lib", "lib/index")],
        },
        NavGroup {
            title: "Empty".into(),
            pages: vec![],
        },
    ];
    let html = render_sidebar_with_homepage(&groups, "lib/index", Some("home"));
    assert_eq!(
        html,
        r#"<div class="oxidoc-nav-group"><ul><li><a href="/">Home</a></li><li><a href="/lib" class="active" aria-current="page">Lib</a></li></ul></div>"#
    );
}

#[test]
fn render_footer_with_links_and_copyright() {
    let mut config = OxidocConfig::new("T");
    config.footer.copyright_owner = Some("Acme".into());
    config.footer.links = vec![LinkConfig {
        label: "GitHub".into(),
        href: "https://github.com".into(),
    }];
    let html = render_footer(&config);
    assert!(html.contains("Acme"));
    assert!(html.contains("Copyright ©"));
    assert!(html.contains("GitHub"));
    assert!(html.contains("oxidoc-footer"));
}

#[test]
fn render_footer_with_default_attribution() {
    let config = OxidocConfig::new("T");
    let html = render_footer(&config);
    assert!(html.contains("oxidoc-footer"));
    assert!(html.contains("Built with"));
}

#[test]
fn render_footer_empty_when_attribution_disabled() {
    let mut config = OxidocConfig::new("T");
    config.attribution.oxidoc = false;
    let html = render_footer(&config);
    assert!(html.is_empty());
}

#[test]
fn render_footer_for_year_exact() {
    let mut config = OxidocConfig::new("T");
    config.footer.copyright_owner = Some("Acme & Co".into());
    config.footer.copyright_owner_url = Some("https://acme.test".into());
    let html = render_footer_for_year(&config, "2026");
    assert_eq!(
        html,
        r#"<footer class="oxidoc-footer" role="contentinfo"><p class="oxidoc-footer-copyright">Copyright © 2026 <a href="https://acme.test">Acme &amp; Co</a>. Built with <a href="https://oxidoc.dev">Oxidoc</a>.</p></footer>"#
    );
}

#[test]
fn render_footer_for_unknown_year_leaves_year_out() {
    let mut config = OxidocConfig::new("T");
    config.footer.copyright_owner = Some("Acme".into());
    config.attribution.oxidoc = false;
    let html = render_footer_for_year(&config, "");
    assert_eq!(
        html,
        r#"<footer class="oxidoc-footer" role="contentinfo"><p class="oxidoc-footer-copyright">Copyright © Acme.</p></footer>"#
    );
}

#[test]
fn render_footer_uses_a_four_digit_year() {
    let mut config = OxidocConfig::new("T");
    config.footer.copyright_owner = Some("Acme".into());
    config.attribution.oxidoc = false;
    let html = render_footer(&config);
    let start = html.find("Copyright © ").unwrap() + "Copyright © ".len();
    let year: String = html[start..].chars().take(4).collect();
    assert!(year.chars().all(|c| c.is_ascii_digit()));
    assert!(year.as_str() >= "2024");
}

#[test]
fn render_analytics_google() {
    let mut config = OxidocConfig::new("T");
    config.analytics.google_analytics = Some("G-TEST123".into());
    let html = render_analytics_script(&config);
    assert!(html.contains("googletagmanager.com"));
    assert!(html.contains("G-TEST123"));
}

#[test]
fn render_analytics_custom_script_then_newline() {
    let mut config = OxidocConfig::new("T");
    config.analytics.script = Some("<script>x()</script>".into());
    assert_eq!(render_analytics_script(&config), "<script>x()</script>\n");
    let none = OxidocConfig::new("T");
    assert_eq!(render_analytics_script(&none), "");
}

#[test]
fn render_page_meta_empty_without_anything() {
    let config = OxidocConfig::new("T");
    let html = render_page_meta(&config, "intro", &PageNav::default(), &PageGitMeta::default(), None);
    assert!(html.is_empty());
}

#[test]
fn render_page_meta_edit_link_and_nav() {
    let mut config = OxidocConfig::new("T");
    config.project.edit_url = Some("https://github.com/o/r/blob/main/docs//".into());
    let nav = PageNav {
        prev: Some(("home".into(), "Home".into())),
        next: Some(("setup".into(), "Set <up>".into())),
    };
    let git = PageGitMeta {
        last_updated: Some("Mar 6, 2026".into()),
        last_author: Some("Ann".into()),
    };
    let html = render_page_meta(&config, "intro", &nav, &git, Some("home"));
    assert!(html.contains(r#"href="https://github.com/o/r/blob/main/docs/intro.rdx?plain=1""#));
    assert!(html.contains("Edit this page"));
    assert!(html.contains("Last updated on <strong>Mar 6, 2026</strong> by Ann"));
    assert!(html.contains(r#"<a href="/" class="oxidoc-page-nav-prev">"#));
    assert!(html.contains(r#"<a href="/setup" class="oxidoc-page-nav-next">"#));
    assert!(html.contains("Set &lt;up&gt; &raquo;"));
}
