use oxidoc::utils::{
    heading_anchor, html_escape, parse_highlight_ranges, process_highlight_comments, push_escaped,
    wrap_lines_with_highlights, xml_escape,
};

#[test]
fn html_escape_special_chars() {
    assert_eq!(html_escape("A & B"), "A &amp; B");
    assert_eq!(html_escape("<tag>"), "&lt;tag&gt;");
    assert_eq!(html_escape(r#"a "b""#), "a &quot;b&quot;");
    assert_eq!(html_escape("Hello World"), "Hello World");
}

#[test]
fn xml_escape_includes_single_quotes() {
    assert_eq!(xml_escape("A & B"), "A &amp; B");
    assert_eq!(xml_escape("<tag>"), "&lt;tag&gt;");
    assert_eq!(
        xml_escape(r#"Quote "text" and 'single'"#),
        r#"Quote &quot;text&quot; and &apos;single&apos;"#
    );
    assert_eq!(xml_escape("Hello World"), "Hello World");
}

#[test]
fn escape_html() {
    let mut out = String::new();
    push_escaped("<script>alert('xss')</script>", &mut out);
    assert_eq!(out, "&lt;script&gt;alert('xss')&lt;/script&gt;");
}

#[test]
fn html_escape_keeps_single_quotes_and_unicode() {
    assert_eq!(html_escape("it's ünïcode"), "it's ünïcode");
    assert_eq!(html_escape(""), "");
}

#[test]
fn heading_anchor_basic() {
    assert_eq!(heading_anchor("Hello World"), "hello-world");
    assert_eq!(heading_anchor("Getting Started!"), "getting-started");
    assert_eq!(heading_anchor("API v2.0"), "api-v2-0");
}

#[test]
fn heading_anchor_empty() {
    assert_eq!(heading_anchor(""), "");
    assert_eq!(heading_anchor("---"), "");
}

#[test]
fn heading_anchor_is_idempotent() {
    let once = heading_anchor("  Über -- Cool  Stuff ");
    assert_eq!(once, "ber-cool-stuff");
    assert_eq!(heading_anchor(&once), once);
}

#[test]
fn heading_anchor_lowercases_beyond_ascii() {
    // The Kelvin sign lowercases to an ASCII `k`.
    assert_eq!(heading_anchor("KELVIN \u{212A}"), "kelvin-k");
    assert_eq!(heading_anchor("日本語"), "");
    let a = heading_anchor("Step 1: Install (RUST)");
    assert_eq!(a, "step-1-install-rust");
    assert!(a.chars().all(|c| c.is_ascii_lowercase() || c.is_ascii_digit() || c == '-'));
}

#[test]
fn parse_highlight_ranges_basic() {
    assert_eq!(parse_highlight_ranges("2"), vec![2]);
    assert_eq!(parse_highlight_ranges("1,3,5"), vec![1, 3, 5]);
    assert_eq!(parse_highlight_ranges("2-5"), vec![2, 3, 4, 5]);
    assert_eq!(parse_highlight_ranges("1,3-5,8"), vec![1, 3, 4, 5, 8]);
    assert_eq!(parse_highlight_ranges(""), Vec::<usize>::new());
    assert_eq!(parse_highlight_ranges("1, 3 - 5, 8"), vec![1, 3, 4, 5, 8]);
}

#[test]
fn parse_highlight_ranges_edge_cases() {
    assert_eq!(parse_highlight_ranges("5-3"), Vec::<usize>::new());
    assert_eq!(parse_highlight_ranges("+4,x,1-2-3, 7"), vec![4, 7]);
    assert_eq!(parse_highlight_ranges("99999999999999999999999"), Vec::<usize>::new());
}

#[test]
fn highlight_comments_next_line() {
    let code = "line1\n// highlight-next-line\nline2\nline3";
    let (cleaned, hl) = process_highlight_comments(code);
    assert_eq!(cleaned, "line1\nline2\nline3");
    assert_eq!(hl, vec![2]);
}

#[test]
fn highlight_comments_block() {
    let code = "line1\n// highlight-start\nline2\nline3\n// highlight-end\nline4";
    let (cleaned, hl) = process_highlight_comments(code);
    assert_eq!(cleaned, "line1\nline2\nline3\nline4");
    assert_eq!(hl, vec![2, 3]);
}

#[test]
fn highlight_comments_hash() {
    let code = "line1\n# highlight-next-line\nline2";
    let (cleaned, hl) = process_highlight_comments(code);
    assert_eq!(cleaned, "line1\nline2");
    assert_eq!(hl, vec![2]);
}

#[test]
fn highlight_comments_html() {
    let code = "line1\n<!-- highlight-next-line -->\nline2";
    let (cleaned, hl) = process_highlight_comments(code);
    assert_eq!(cleaned, "line1\nline2");
    assert_eq!(hl, vec![2]);
}

#[test]
fn highlight_comments_crlf_and_trailing_newline() {
    let (cleaned, hl) = process_highlight_comments("a\r\n  # highlight-next-line  \r\nb\n");
    assert_eq!(cleaned, "a\nb");
    assert_eq!(hl, vec![2]);
}

#[test]
fn wrap_lines_without_highlights_wraps_every_line() {
    assert_eq!(
        wrap_lines_with_highlights("a\nb", &[]),
        r#"<span class="oxidoc-line">a</span><span class="oxidoc-line">b</span>"#
    );
}

#[test]
fn wrap_lines_marks_highlighted() {
    assert_eq!(
        wrap_lines_with_highlights("a\nb", &[2]),
        r#"<span class="oxidoc-line">a</span><span class="oxidoc-line highlighted">b</span>"#
    );
}

#[test]
fn parse_highlight_ranges_holds_each_line_once() {
    assert_eq!(parse_highlight_ranges("1,1"), vec![1]);
    assert_eq!(parse_highlight_ranges("1-3,2"), vec![1, 2, 3]);
    assert_eq!(parse_highlight_ranges("5,2-6"), vec![5, 2, 3, 4, 6]);
}
