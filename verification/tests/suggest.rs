use oxidoc::suggest::{find_suggestion, levenshtein_distance};

#[test]
fn test_exact_match() {
    assert_eq!(levenshtein_distance("hello", "hello"), 0);
}

#[test]
fn test_one_insertion() {
    assert_eq!(levenshtein_distance("helo", "hello"), 1);
}

#[test]
fn test_one_deletion() {
    assert_eq!(levenshtein_distance("hello", "helo"), 1);
}

#[test]
fn test_one_substitution() {
    assert_eq!(levenshtein_distance("hallo", "hello"), 1);
}

#[test]
fn test_find_suggestion_exact() {
    let candidates = &["project", "theme", "routing"];
    let suggestion = find_suggestion("project", candidates);
    assert_eq!(suggestion, Some("project".to_string()));
}

#[test]
fn test_find_suggestion_close_match() {
    let candidates = &["project", "theme", "routing"];
    let suggestion = find_suggestion("projct", candidates);
    assert_eq!(suggestion, Some("project".to_string()));
}

#[test]
fn test_find_suggestion_no_match() {
    let candidates = &["project", "theme", "routing"];
    let suggestion = find_suggestion("xyz", candidates);
    assert_eq!(suggestion, None);
}

#[test]
fn test_find_suggestion_multiple_candidates() {
    let candidates = &["project", "projection", "theorem"];
    let suggestion = find_suggestion("projct", candidates);
    assert!(suggestion.is_some());
}

#[test]
fn levenshtein_empty_and_symmetric() {
    assert_eq!(levenshtein_distance("", "abc"), 3);
    assert_eq!(levenshtein_distance("abc", ""), 3);
    assert_eq!(levenshtein_distance("kitten", "sitting"), 3);
    assert_eq!(levenshtein_distance("sitting", "kitten"), 3);
}

#[test]
fn levenshtein_counts_characters() {
    assert_eq!(levenshtein_distance("é", "e"), 1);
    assert_eq!(levenshtein_distance("é", ""), 1);
    assert_eq!(levenshtein_distance("naïve", "naive"), 1);
}

#[test]
fn find_suggestion_picks_closest_candidate() {
    let candidates = &["projection", "project", "theorem"];
    assert_eq!(find_suggestion("projct", candidates), Some("project".to_string()));
    let empty: &[&str] = &[];
    assert_eq!(find_suggestion("anything", empty), None);
}
