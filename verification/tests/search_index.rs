use oxidoc::search_index::create_snippet;

#[test]
fn test_create_snippet_truncates() {
    let text = "This is a very long piece of text that should be truncated";
    let snippet = create_snippet(text, 30);
    assert!(snippet.len() <= 33);
    assert!(snippet.ends_with('…'));
}

#[test]
fn test_create_snippet_short_text() {
    assert_eq!(create_snippet("Short", 30), "Short");
}

#[test]
fn create_snippet_trims_and_cuts_at_character_count() {
    assert_eq!(create_snippet("  hello world  ", 11), "hello world");
    assert_eq!(create_snippet("  hello world  ", 5), "hello…");
    assert_eq!(create_snippet("héllo", 3), "hél…");
    assert_eq!(create_snippet("héllo", 5), "héllo");
    let long = "This is a very long piece of text that should be truncated";
    let cut = create_snippet(long, 30);
    assert_eq!(cut.chars().count(), 31);
    assert_eq!(cut, "This is a very long piece of t…");
    assert_eq!(create_snippet("", 0), "");
}

#[test]
fn document_metadata_per_page() {
    let pages = vec![
        oxidoc::search_index::PageContent {
            title: "Intro".into(),
            slug: "guide/intro".into(),
            text: "  Hello there  ".into(),
            headings: vec![oxidoc::search_index::HeadingPos {
                title: "H".into(),
                anchor: "h".into(),
                depth: 2,
                offset: 3,
            }],
        },
        oxidoc::search_index::PageContent {
            title: "B".into(),
            slug: "b".into(),
            text: "x".repeat(200),
            headings: vec![],
        },
    ];
    let docs = oxidoc::search_index::document_metadata(&pages);
    assert_eq!(docs.len(), 2);
    assert_eq!(docs[0].id, 0);
    assert_eq!(docs[0].path, "/guide/intro");
    assert_eq!(docs[0].snippet, "Hello there");
    assert_eq!(docs[0].text, "  Hello there  ");
    assert_eq!(docs[0].headings[0].anchor, "h");
    assert_eq!(docs[1].id, 1);
    assert_eq!(docs[1].snippet.chars().count(), 161);
}

#[test]
fn chunk_prefix_first_two_characters() {
    assert_eq!(oxidoc::search_index::chunk_prefix("search"), "se");
    assert_eq!(oxidoc::search_index::chunk_prefix("a"), "a");
    assert_eq!(oxidoc::search_index::chunk_prefix("éte"), "ét");
}
