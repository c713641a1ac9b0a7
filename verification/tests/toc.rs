use oxidoc::toc::{render_toc, TocEntry};

#[test]
fn render_toc_html() {
    let entries = vec![
        TocEntry {
            level: 1,
            text: "Intro".into(),
            anchor: "intro".into(),
        },
        TocEntry {
            level: 2,
            text: "Setup".into(),
            anchor: "setup".into(),
        },
    ];
    let html = render_toc(&entries);
    assert!(html.contains(r#"class="toc-level-1""#));
    assert!(html.contains(r##"href="#intro""##));
    assert!(html.contains(r#"class="toc-level-2""#));
}

#[test]
fn render_toc_empty() {
    assert!(render_toc(&[]).is_empty());
}

#[test]
fn render_toc_exact_markup() {
    let entries = vec![TocEntry {
        level: 3,
        text: "Deep".into(),
        anchor: "deep".into(),
    }];
    assert_eq!(
        render_toc(&entries),
        r##"<nav class="oxidoc-toc" aria-label="Table of contents"><ul><li class="toc-level-3"><a href="#deep">Deep</a></li></ul></nav>"##
    );
}
