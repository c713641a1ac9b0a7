use oxidoc::config::{NavGroup, OxidocConfig, PageEntry, RedirectEntry};
use oxidoc::outputs::{generate_seo_files, index_redirect_html, redirect_file, robots_txt, sitemap_xml};

fn test_nav_groups() -> Vec<NavGroup> {
    vec![NavGroup {
        title: "Getting Started".into(),
        pages: vec![
            PageEntry {
                title: "Intro".into(),
                short_title: "Intro".into(),
                slug: "intro".into(),
                file_path: String::new(),
                group: None,
            },
            PageEntry {
                title: "Setup".into(),
                short_title: "Setup".into(),
                slug: "setup".into(),
                file_path: String::new(),
                group: None,
            },
        ],
    }]
}

#[test]
fn generate_sitemap_creates_valid_xml() {
    let content = sitemap_xml(&test_nav_groups(), "https://example.com");
    assert!(content.contains(r#"<?xml version="1.0" encoding="UTF-8"?>"#));
    assert!(content.contains("<urlset"));
    assert!(content.contains("https://example.com/intro"));
    assert!(content.contains("https://example.com/setup"));
    assert!(!content.contains(".html"));
    assert!(content.contains("</urlset>"));
}

#[test]
fn generate_sitemap_handles_trailing_slash() {
    let content = sitemap_xml(&test_nav_groups(), "https://example.com/");
    assert!(content.contains("https://example.com/intro"));
    assert!(!content.contains("https://example.com//intro"));
}

#[test]
fn generate_robots_txt_allows_all() {
    let content = robots_txt("https://example.com");
    assert!(content.contains("User-agent: *"));
    assert!(content.contains("Allow: /"));
    assert!(content.contains("Sitemap: https://example.com/sitemap.xml"));
    assert_eq!(robots_txt("https://example.com/"), "User-agent: *\nAllow: /\nSitemap: https://example.com/sitemap.xml\n");
}

#[test]
fn seo_files_use_root_without_base_url() {
    let config = OxidocConfig::new("T");
    let (sitemap, robots) = generate_seo_files(&test_nav_groups(), &config);
    assert!(sitemap.contains("<loc>/intro</loc>"));
    assert_eq!(robots, "User-agent: *\nAllow: /\nSitemap: /sitemap.xml\n");
}

#[test]
fn index_redirect_points_to_first_page() {
    let mut groups = vec![NavGroup { title: "Empty".into(), pages: vec![] }];
    assert_eq!(index_redirect_html(&groups), None);
    groups.extend(test_nav_groups());
    let html = index_redirect_html(&groups).unwrap();
    assert_eq!(
        html,
        "<!DOCTYPE html>\n<html>\n<head><meta http-equiv=\"refresh\" content=\"0; url=/intro\"></head>\n<body><a href=\"/intro\">Redirecting...</a></body>\n</html>"
    );
}

#[test]
fn redirect_files_name_and_escape() {
    let r = RedirectEntry { from: "/old/page".into(), to: "/new?a=1&b=2".into() };
    let (name, html) = redirect_file(&r);
    assert_eq!(name, "old-page.html");
    assert!(html.contains("url=/new?a=1&amp;b=2"));
    let root = RedirectEntry { from: "/".into(), to: "/home".into() };
    assert_eq!(redirect_file(&root).0, "index.html");
}
