use oxidoc::git_meta::{git_meta_fallback, git_meta_from_log, resolve_git_meta};
use oxidoc::template_parts::{seconds_from_clock, year_from_clock};

#[test]
fn git_log_line_gives_date_and_author() {
    assert_eq!(
        git_meta_from_log("2026-03-06T10:15:00+01:00\tAnn Lee\n"),
        Some(("Mar 6, 2026".to_string(), "Ann Lee".to_string()))
    );
}

#[test]
fn git_log_without_tab_or_valid_date_gives_nothing() {
    assert_eq!(git_meta_from_log(""), None);
    assert_eq!(git_meta_from_log("   \n"), None);
    assert_eq!(git_meta_from_log("2026-03-06T10:15:00+01:00 Ann"), None);
    assert_eq!(git_meta_from_log("yesterday\tAnn"), None);
}

#[test]
fn clock_readings_to_years() {
    assert_eq!(year_from_clock(Ok(0)).as_deref(), Some("1970"));
    assert_eq!(year_from_clock(Ok(1_772_755_200)).as_deref(), Some("2026"));
    assert_eq!(year_from_clock(Err((1, 0))).as_deref(), Some("1969"));
    assert_eq!(seconds_from_clock(Err((0, 5))), Some(-1));
    assert_eq!(seconds_from_clock(Err((3, 0))), Some(-3));
    assert_eq!(seconds_from_clock(Ok(u64::MAX)), None);
    assert_eq!(year_from_clock(Ok(u64::MAX)), None);
}

#[test]
fn fallback_date_from_modification_time() {
    let m = git_meta_fallback(Some(Ok(1_772_755_200)));
    assert_eq!(m.last_updated.as_deref(), Some("Mar 6, 2026"));
    assert_eq!(m.last_author, None);
    let none = git_meta_fallback(None);
    assert_eq!(none.last_updated, None);
    let before = git_meta_fallback(Some(Err((1, 500))));
    assert_eq!(before.last_updated.as_deref(), Some("Dec 31, 1969"));
}

#[test]
fn resolve_prefers_the_commit() {
    let m = resolve_git_meta(Some("2026-03-06T10:00:00+00:00\tAda\n"), Some(Ok(0)));
    assert_eq!(m.last_updated.as_deref(), Some("Mar 6, 2026"));
    assert_eq!(m.last_author.as_deref(), Some("Ada"));
    let fallback = resolve_git_meta(Some(""), Some(Ok(0)));
    assert_eq!(fallback.last_updated.as_deref(), Some("Jan 1, 1970"));
    assert_eq!(fallback.last_author, None);
}
