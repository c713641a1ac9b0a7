use oxidoc::term_stats::{count_terms, document_frequencies};

fn tokens(words: &[&str]) -> Vec<String> {
    words.iter().map(|w| w.to_string()).collect()
}

#[test]
fn count_terms_in_first_occurrence_order() {
    let stats = count_terms(&tokens(&["rust", "doc", "rust", "site", "doc", "rust"]));
    let view: Vec<(String, u32, Vec<u32>)> =
        stats.into_iter().map(|s| (s.term, s.count, s.positions)).collect();
    assert_eq!(
        view,
        vec![
            ("rust".to_string(), 3, vec![0, 2, 5]),
            ("doc".to_string(), 2, vec![1, 4]),
            ("site".to_string(), 1, vec![3]),
        ]
    );
}

#[test]
fn count_terms_of_empty_document() {
    assert!(count_terms(&Vec::new()).is_empty());
}

#[test]
fn document_frequencies_count_each_document_once() {
    let docs = vec![
        tokens(&["search", "index", "search"]),
        tokens(&["index", "page"]),
        tokens(&[]),
        tokens(&["page", "index"]),
    ];
    assert_eq!(
        document_frequencies(&docs),
        vec![("search".to_string(), 1), ("index".to_string(), 3), ("page".to_string(), 2)]
    );
}
