use oxidoc::config::PageEntry;
use oxidoc::page_extract::build_page_nav;

fn pages() -> Vec<PageEntry> {
    ["intro", "setup", "usage"]
        .iter()
        .map(|s| PageEntry {
            title: format!("Title {s}"),
            short_title: s.to_string(),
            slug: s.to_string(),
            file_path: String::new(),
            group: None,
        })
        .collect()
}

fn index() -> Vec<(String, usize)> {
    vec![("intro".into(), 0), ("setup".into(), 1), ("usage".into(), 2)]
}

#[test]
fn page_nav_middle_page_has_both_neighbours() {
    let titles = vec![("usage".to_string(), "Using it".to_string())];
    let nav = build_page_nav("setup", &index(), &pages(), &titles);
    assert_eq!(nav.prev, Some(("intro".to_string(), "Title intro".to_string())));
    assert_eq!(nav.next, Some(("usage".to_string(), "Using it".to_string())));
}

#[test]
fn page_nav_ends_and_unknown_slug() {
    let first = build_page_nav("intro", &index(), &pages(), &[]);
    assert_eq!(first.prev, None);
    assert_eq!(first.next, Some(("setup".to_string(), "Title setup".to_string())));
    let last = build_page_nav("usage", &index(), &pages(), &[]);
    assert_eq!(last.next, None);
    let unknown = build_page_nav("nope", &index(), &pages(), &[]);
    assert_eq!(unknown.prev, None);
    assert_eq!(unknown.next, None);
}
