use oxidoc::document::{
    check_parse_errors, extract_frontmatter_short_title, extract_page_description,
    extract_page_layout, extract_page_title, extract_plain_text, extract_searchable_text,
    extract_toc, first_h1, DocNode, DocRoot,
};
use oxidoc::error::OxidocError;

fn text(s: &str) -> DocNode {
    DocNode::Text { value: s.into() }
}

fn heading(depth: u8, children: Vec<DocNode>) -> DocNode {
    DocNode::Heading { depth: Some(depth), id: None, children }
}

fn paragraph(children: Vec<DocNode>) -> DocNode {
    DocNode::Paragraph { children }
}

fn root(children: Vec<DocNode>) -> DocRoot {
    DocRoot { frontmatter: None, children }
}

// "# Title\n\nSome text\n\n## Section One\n\n### Subsection"
fn sections_document() -> DocRoot {
    root(vec![
        heading(1, vec![text("Title")]),
        paragraph(vec![text("Some text")]),
        heading(2, vec![text("Section One")]),
        heading(3, vec![text("Subsection")]),
    ])
}

#[test]
fn extract_toc_from_document() {
    let toc = extract_toc(&sections_document());
    assert_eq!(toc.len(), 3);
    assert_eq!(toc[0].level, 1);
    assert_eq!(toc[0].text, "Title");
    assert_eq!(toc[1].level, 2);
    assert_eq!(toc[1].text, "Section One");
    assert_eq!(toc[1].anchor, "section-one");
    assert_eq!(toc[2].level, 3);
}

#[test]
fn empty_document_empty_toc() {
    let doc = root(vec![paragraph(vec![text("Just a paragraph, no headings.")])]);
    assert!(extract_toc(&doc).is_empty());
}

#[test]
fn toc_levels_are_clamped_and_ids_kept() {
    let doc = root(vec![
        DocNode::Heading { depth: Some(9), id: Some("custom".into()), children: vec![text("Deep")] },
        DocNode::Heading { depth: None, id: None, children: vec![text("No Depth")] },
    ]);
    let toc = extract_toc(&doc);
    assert_eq!(toc[0].level, 6);
    assert_eq!(toc[0].anchor, "custom");
    assert_eq!(toc[1].level, 1);
    assert_eq!(toc[1].anchor, "no-depth");
}

#[test]
fn extract_text_from_paragraph() {
    // "Hello **world** and `code`"
    let node = paragraph(vec![
        text("Hello "),
        DocNode::Other { children: Some(vec![text("world")]) },
        text(" and "),
        DocNode::CodeInline { value: "code".into() },
    ]);
    let text = extract_plain_text(&node);
    assert!(text.contains("Hello"));
    assert!(text.contains("world"));
    assert!(text.contains("code"));
    assert_eq!(text, "Hello world and code");
}

#[test]
fn plain_text_skips_code_blocks_and_keeps_inline_code() {
    let node = paragraph(vec![
        text("run "),
        DocNode::CodeInline { value: "cargo".into() },
        DocNode::CodeBlock { lang: None, value: "ignored".into() },
    ]);
    assert_eq!(extract_plain_text(&node), "run cargo");
}

#[test]
fn test_extract_page_title() {
    // "# Main Title\n\nSome content here"
    let doc = root(vec![
        heading(1, vec![text("Main Title")]),
        paragraph(vec![text("Some content here")]),
    ]);
    assert_eq!(first_h1(&doc.children), Some("Main Title".to_string()));
}

#[test]
fn test_extract_page_title_no_h1() {
    // "## Subtitle\n\nNo main title"
    let doc = root(vec![
        heading(2, vec![text("Subtitle")]),
        paragraph(vec![text("No main title")]),
    ]);
    assert_eq!(first_h1(&doc.children), None);
}

#[test]
fn test_extract_searchable_text_basic() {
    // "# Heading\n\nParagraph text"
    let doc = root(vec![heading(1, vec![text("Heading")]), paragraph(vec![text("Paragraph text")])]);
    let text = extract_searchable_text(&doc);
    assert!(text.contains("Heading"));
    assert!(text.contains("Paragraph"));
    assert!(text.contains("text"));
}

#[test]
fn test_extract_searchable_text_with_formatting() {
    // "# Title\n\nThis is **bold** and `code` text"
    let doc = root(vec![
        heading(1, vec![text("Title")]),
        paragraph(vec![
            text("This is "),
            DocNode::Other { children: Some(vec![text("bold")]) },
            text(" and "),
            DocNode::CodeInline { value: "code".into() },
            text(" text"),
        ]),
    ]);
    let text = extract_searchable_text(&doc);
    assert!(text.contains("Title"));
    assert!(text.contains("bold"));
    assert!(text.contains("code"));
}

#[test]
fn test_extract_searchable_text_empty_document() {
    let text = extract_searchable_text(&root(vec![]));
    assert!(text.is_empty() || text.chars().all(|c| c.is_whitespace()));
}

#[test]
fn searchable_text_skips_code_blocks() {
    let doc = root(vec![
        paragraph(vec![text("Intro")]),
        DocNode::CodeBlock { lang: Some("rust".into()), value: "fn main() {}".into() },
        DocNode::Other { children: Some(vec![heading(2, vec![text("Nested")])]) },
    ]);
    assert_eq!(extract_searchable_text(&doc), "Intro Nested ");
}

#[test]
fn frontmatter_title_wins_over_heading() {
    let doc = DocRoot {
        frontmatter: Some(vec![
            ("title".into(), Some("From Frontmatter".into())),
            ("short_title".into(), None),
            ("layout".into(), Some("landing".into())),
        ]),
        children: vec![heading(1, vec![text("From Heading")])],
    };
    assert_eq!(extract_page_title(&doc), Some("From Frontmatter".to_string()));
    assert_eq!(extract_frontmatter_short_title(&doc), None);
    assert_eq!(extract_page_layout(&doc), Some("landing".to_string()));
    assert_eq!(extract_page_title(&sections_document()), Some("Title".to_string()));
}

#[test]
fn description_from_first_non_blank_paragraph() {
    let long = "x".repeat(200);
    let doc = root(vec![
        heading(1, vec![text("T")]),
        paragraph(vec![text("   ")]),
        paragraph(vec![text(&long)]),
    ]);
    assert_eq!(extract_page_description(&doc), Some("x".repeat(160)));
    assert_eq!(extract_page_description(&root(vec![])), None);
}

#[test]
fn parse_errors_are_reported_with_path() {
    let doc = root(vec![
        paragraph(vec![text("ok")]),
        DocNode::Error { message: "unclosed tag".into(), line: 3 },
    ]);
    assert_eq!(
        check_parse_errors(&doc, "docs/intro.rdx"),
        Err(OxidocError::RdxParse { path: "docs/intro.rdx".into(), message: "unclosed tag".into() })
    );
    assert_eq!(check_parse_errors(&sections_document(), "x.rdx"), Ok(()));
}
