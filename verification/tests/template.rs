use oxidoc::config::{HeaderLink, OxidocConfig};
use oxidoc::template::meta::{collect_meta_keys, remove_overridden_meta_tags};
use oxidoc::template::nav::{build_header_nav, build_mobile_nav_links, render_logo_html};
use oxidoc::template_assets::{build_preload_links, build_script_tag, build_stylesheet_link};

#[test]
fn header_nav_links() {
    assert_eq!(build_header_nav(&[]), "");
    let links = vec![HeaderLink { label: "Docs".into(), href: "/docs".into() }];
    assert_eq!(
        build_header_nav(&links),
        r#"<nav class="oxidoc-header-nav"><a href="/docs" class="oxidoc-header-nav-link">Docs</a></nav>"#
    );
    assert_eq!(
        build_mobile_nav_links(&links),
        r#"<nav class="oxidoc-mobile-nav-links" aria-label="Main navigation"><ul><li><a href="/docs">Docs</a></li></ul></nav>"#
    );
}

#[test]
fn logo_with_and_without_image() {
    let mut config = OxidocConfig::new("A & B");
    let (logo, name) = render_logo_html(&config);
    assert_eq!(name, "A &amp; B");
    assert_eq!(logo, r#"<a href="/" class="oxidoc-logo">A &amp; B</a>"#);
    config.project.logo = Some("/logo.svg".into());
    let (logo, _) = render_logo_html(&config);
    assert_eq!(
        logo,
        r#"<a href="/" class="oxidoc-logo"><img src="/logo.svg" alt="A &amp; B" class="oxidoc-logo-img"> <span>A &amp; B</span></a>"#
    );
}

#[test]
fn asset_tags_with_and_without_sri() {
    assert_eq!(
        build_stylesheet_link("/a.css", None),
        r#"    <link rel="stylesheet" href="/a.css">"#
    );
    assert_eq!(
        build_stylesheet_link("/a.css", Some("sha384-x")),
        r#"    <link rel="stylesheet" href="/a.css" integrity="sha384-x" crossorigin="anonymous">"#
    );
    assert_eq!(
        build_script_tag("/a.js", None),
        r#"    <script src="/a.js" type="module" async></script>"#
    );
    assert_eq!(
        build_script_tag("/a.js", Some("sha384-y")),
        r#"    <script src="/a.js" type="module" async integrity="sha384-y" crossorigin="anonymous"></script>"#
    );
    let (css, js) = build_preload_links("/a.css", None, "/a.js", Some("sha384-y"));
    assert_eq!(css, r#"    <link rel="preload" href="/a.css" as="style">"#);
    assert_eq!(
        js,
        r#"    <link rel="preload" href="/a.js" as="script" integrity="sha384-y" crossorigin="anonymous">"#
    );
}

#[test]
fn meta_keys_in_order_without_repeats() {
    let fragment = r#"<meta property="og:title" content="X"><meta name="description" content="Y"><meta property="og:title" content="Z">"#;
    assert_eq!(
        collect_meta_keys(fragment),
        vec!["property:og:title".to_string(), "name:description".to_string()]
    );
    assert!(collect_meta_keys("<title>T</title>").is_empty());
}

#[test]
fn overridden_meta_tags_are_removed() {
    let html = "<head>\n<meta name=\"description\" content=\"default\">\n<meta property=\"og:title\" content=\"T\">\n</head>".to_string();
    let out = remove_overridden_meta_tags(html.clone(), r#"<meta name="description" content="mine">"#);
    assert_eq!(out, "<head>\n<meta property=\"og:title\" content=\"T\">\n</head>");
    let unchanged = remove_overridden_meta_tags(html.clone(), "<link rel=\"x\">");
    assert_eq!(unchanged, html);
}
