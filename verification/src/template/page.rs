//! The page template: a rendered page wrapped in the site's HTML document.
use vstd::prelude::*;

use crate::config::OxidocConfig;
use crate::search_provider::{head_tags_of, scripts_of, SearchProvider};
use crate::template::meta::{
    find_from, find_from_exec, lemma_find_from, meta_keys, occurs_at, push_all, remove_meta_tags,
    remove_overridden_meta_tags,
};
use crate::template::nav::{
    build_header_nav, build_mobile_nav_links, header_nav, logo_html, mobile_nav, render_logo_html,
};
use crate::template_404::{path_or, DEFAULT_CSS_PATH, DEFAULT_JS_PATH};
use crate::template_assets::{
    build_preload_links, build_script_tag, build_stylesheet_link, preload_link, script_tag,
    stylesheet_link, AssetConfig,
};
use crate::template_parts::{
    clock_year,
    analytics_html, current_year, esc, footer_html, render_analytics_script, render_footer_for_year,
};
use crate::text::{chars_end_with, chars_match_at, chars_of, ends_with, string_from_chars, sub_chars};
use crate::utils::{html_escape, push_escaped};

verus! {

broadcast use vstd::string::group_string_axioms;

// ---------------------------------------------------------------------------
// Searching and replacing in text
// ---------------------------------------------------------------------------

/// The last position at or before `i` where `pat` occurs in `s`.
pub open spec fn find_last_from(s: Seq<char>, pat: Seq<char>, i: int) -> Option<nat>
    decreases i + 1,
{
    if i < 0 {
        None
    } else if occurs_at(s, pat, i) {
        Some(i as nat)
    } else {
        find_last_from(s, pat, i - 1)
    }
}

/// The last position where `pat` occurs in `s` (what `str::rfind` gives).
pub open spec fn find_last(s: Seq<char>, pat: Seq<char>) -> Option<nat> {
    find_last_from(s, pat, s.len() - pat.len())
}

proof fn lemma_find_last_from(s: Seq<char>, pat: Seq<char>, i: int)
    ensures
        find_last_from(s, pat, i) matches Some(p) ==> p <= i && occurs_at(s, pat, p as int),
    decreases i + 1,
{
    if i >= 0 && !occurs_at(s, pat, i) {
        lemma_find_last_from(s, pat, i - 1);
    }
}

fn find_last_exec(s: &[char], pat: &[char]) -> (r: Option<usize>)
    ensures
        r matches Some(q) ==> find_last(s@, pat@) == Some(q as nat),
        r is None ==> find_last(s@, pat@) is None,
{
    if pat.len() > s.len() {
        return None;
    }
    let mut j: usize = s.len() - pat.len();
    loop
        invariant
            j + pat@.len() <= s@.len(),
            find_last(s@, pat@) == find_last_from(s@, pat@, j as int),
        decreases j,
    {
        if chars_match_at(s, j, pat) {
            return Some(j);
        }
        if j == 0 {
            assert(find_last_from(s@, pat@, -1) is None);
            return None;
        }
        j = j - 1;
    }
}

/// `s` from position `i` on, with each occurrence of `pat` (left to right, not
/// overlapping) replaced by `rep`.
pub open spec fn replace_from(s: Seq<char>, pat: Seq<char>, rep: Seq<char>, i: nat) -> Seq<char>
    decreases s.len() + 1 - i,
{
    if pat.len() == 0 || i > s.len() {
        s.skip(i as int)
    } else {
        match find_from(s, pat, i) {
            None => s.skip(i as int),
            Some(p) => {
                proof {
                    lemma_find_from(s, pat, i);
                }
                s.subrange(i as int, p as int) + rep + replace_from(s, pat, rep, p + pat.len())
            },
        }
    }
}

/// `s` with every occurrence of `pat` replaced by `rep` (what `str::replace` gives for
/// a non-empty pattern).
pub open spec fn replace_all(s: Seq<char>, pat: Seq<char>, rep: Seq<char>) -> Seq<char> {
    replace_from(s, pat, rep, 0)
}

/// `s` with its first occurrence of `pat` replaced by `rep` (what `str::replacen` gives
/// with a count of one).
pub open spec fn replace_first(s: Seq<char>, pat: Seq<char>, rep: Seq<char>) -> Seq<char> {
    match find_from(s, pat, 0) {
        None => s,
        Some(p) => s.take(p as int) + rep + s.skip((p + pat.len()) as int),
    }
}

/// Replaces every occurrence of the non-empty `pat` in `s` by `rep`.
pub fn replace_all_chars(s: &[char], pat: &[char], rep: &[char]) -> (r: Vec<char>)
    requires
        pat@.len() > 0,
    ensures
        r@ == replace_all(s@, pat@, rep@),
{
    let mut out: Vec<char> = Vec::new();
    let mut j: usize = 0;
    while j <= s.len()
        invariant
            j <= s@.len() + 1,
            pat@.len() > 0,
            j <= s@.len() ==> out@ + replace_from(s@, pat@, rep@, j as nat) == replace_all(s@, pat@, rep@),
            j > s@.len() ==> out@ == replace_all(s@, pat@, rep@),
        decreases s@.len() + 1 - j,
    {
        match find_from_exec(s, pat, j) {
            None => {
                let rest = sub_chars(s, j, s.len());
                push_all(&mut out, &rest);
                assert(s@.subrange(j as int, s@.len() as int) =~= s@.skip(j as int));
                return out;
            },
            Some(p) => {
                proof {
                    lemma_find_from(s@, pat@, j as nat);
                }
                let part = sub_chars(s, j, p);
                push_all(&mut out, &part);
                push_all(&mut out, rep);
                let ghost before = out@;
                j = p + pat.len();
                assert(before + replace_from(s@, pat@, rep@, j as nat) =~= out@ + replace_from(s@, pat@, rep@, j as nat));
            },
        }
    }
    out
}

/// Replaces the first occurrence of `pat` in `s` by `rep`.
pub fn replace_first_chars(s: &[char], pat: &[char], rep: &[char]) -> (r: Vec<char>)
    ensures
        r@ == replace_first(s@, pat@, rep@),
{
    match find_from_exec(s, pat, 0) {
        None => {
            let r = sub_chars(s, 0, s.len());
            assert(s@.subrange(0, s@.len() as int) =~= s@);
            r
        },
        Some(p) => {
            proof {
                lemma_find_from(s@, pat@, 0);
                assert(occurs_at(s@, pat@, p as int));
                assert(p + pat@.len() <= s@.len());
            }
            let n = s.len();
            let q = p + pat.len();
            let mut out = sub_chars(s, 0, p);
            push_all(&mut out, rep);
            let tail = sub_chars(s, q, n);
            push_all(&mut out, &tail);
            assert(s@.subrange(0, p as int) =~= s@.take(p as int));
            assert(s@.subrange(p + pat@.len(), s@.len() as int) =~= s@.skip(p + pat@.len()));
            out
        },
    }
}

// ---------------------------------------------------------------------------
// Head blocks of pages
// ---------------------------------------------------------------------------

/// Where a page's own head block starts.
pub const HEAD_START: &'static str = "<!--oxidoc-head-start-->";

/// Where a page's own head block ends.
pub const HEAD_END: &'static str = "<!--oxidoc-head-end-->";

/// The end marker of a head block never begins inside its start marker.
proof fn lemma_head_markers(h: Seq<char>, st: int, en: int)
    requires
        occurs_at(h, HEAD_START@, st),
        occurs_at(h, HEAD_END@, en),
        st <= en,
    ensures
        st + HEAD_START@.len() <= en,
{
    reveal_strlit("<!--oxidoc-head-start-->");
    reveal_strlit("<!--oxidoc-head-end-->");
    if en < st + HEAD_START@.len() {
        let k = en - st;
        assert(h.subrange(en, en + HEAD_END@.len())[0] == h[en]);
        assert(h.subrange(st, st + HEAD_START@.len())[k] == h[en]);
        if k == 0 {
            assert(h.subrange(en, en + HEAD_END@.len())[16] == h[st + 16]);
            assert(h.subrange(st, st + HEAD_START@.len())[16] == h[st + 16]);
        }
    }
}

/// The page's own head blocks taken out: the HTML without them (markers included),
/// and their contents one after the other. A start marker without an end marker
/// after it stops the search.
pub open spec fn extract_head_blocks(h: Seq<char>) -> (Seq<char>, Seq<char>)
    decreases h.len(),
{
    match find_from(h, HEAD_START@, 0) {
        None => (h, Seq::<char>::empty()),
        Some(st) => match find_from(h, HEAD_END@, st) {
            None => (h, Seq::<char>::empty()),
            Some(en) => {
                proof {
                    reveal_strlit("<!--oxidoc-head-end-->");
                    lemma_find_from(h, HEAD_START@, 0);
                    lemma_find_from(h, HEAD_END@, st);
                }
                let rest = h.take(st as int) + h.skip((en + HEAD_END@.len()) as int);
                let inner = extract_head_blocks(rest);
                (inner.0, h.subrange((st + HEAD_START@.len()) as int, en as int) + inner.1)
            },
        },
    }
}

fn extract_head_blocks_exec(h: Vec<char>, start: &Vec<char>, end: &Vec<char>) -> (r: (Vec<char>, Vec<char>))
    requires
        start@ == HEAD_START@,
        end@ == HEAD_END@,
    ensures
        (r.0@, r.1@) == extract_head_blocks(h@),
    decreases h@.len(),
{
    proof {
        reveal_strlit("<!--oxidoc-head-end-->");
        reveal_strlit("<!--oxidoc-head-start-->");
    }
    proof {
        lemma_find_from(h@, HEAD_START@, 0);
    }
    match find_from_exec(&h, start, 0) {
        None => (h, Vec::new()),
        Some(st) => match find_from_exec(&h, end, st) {
            None => (h, Vec::new()),
            Some(en) => {
                proof {
                    lemma_find_from(h@, HEAD_START@, 0);
                    lemma_find_from(h@, HEAD_END@, st as nat);
                    lemma_head_markers(h@, st as int, en as int);
                }
                let n = h.len();
                let content = sub_chars(&h, st + start.len(), en);
                let mut rest = sub_chars(&h, 0, st);
                let tail = sub_chars(&h, en + end.len(), n);
                push_all(&mut rest, &tail);
                assert(rest@ =~= h@.take(st as int) + h@.skip((en + HEAD_END@.len()) as int));
                let (inner_html, inner_extra) = extract_head_blocks_exec(rest, start, end);
                let mut extra = content;
                push_all(&mut extra, &inner_extra);
                (inner_html, extra)
            },
        },
    }
}

// ---------------------------------------------------------------------------
// The page document
// ---------------------------------------------------------------------------

/// A lowercase hexadecimal digit.
pub open spec fn hex_digit(n: nat) -> char {
    if n < 10 {
        (('0' as u32) + n) as char
    } else {
        (('a' as u32) + n - 10) as char
    }
}

/// A character as it stands in a JSON string literal: `"` and `\` after a backslash,
/// backspace, tab, line feed, form feed and carriage return as `\b`, `\t`, `\n`,
/// `\f` and `\r`, the other control characters below U+0020 as `\u00XX` (lowercase
/// hexadecimal), every other character as it is.
pub open spec fn json_escape_char(c: char) -> Seq<char> {
    if c == '"' {
        seq!['\\', '"']
    } else if c == '\\' {
        seq!['\\', '\\']
    } else if c == '\u{8}' {
        seq!['\\', 'b']
    } else if c == '\t' {
        seq!['\\', 't']
    } else if c == '\n' {
        seq!['\\', 'n']
    } else if c == '\u{c}' {
        seq!['\\', 'f']
    } else if c == '\r' {
        seq!['\\', 'r']
    } else if (c as u32) < 0x20 {
        seq!['\\', 'u', '0', '0', hex_digit((c as u32 / 16) as nat), hex_digit((c as u32 % 16) as nat)]
    } else {
        seq![c]
    }
}

/// The characters of `s`, each as it stands in a JSON string literal.
pub open spec fn json_escape(s: Seq<char>) -> Seq<char>
    decreases s.len(),
{
    if s.len() == 0 {
        Seq::<char>::empty()
    } else {
        json_escape(s.drop_last()) + json_escape_char(s.last())
    }
}

/// What `serde_json::to_string` gives for a string: its JSON string literal, the
/// escaped characters between double quotes.
#[verifier::opaque]
pub open spec fn json_string_of(s: Seq<char>) -> Seq<char> {
    seq!['"'] + json_escape(s) + seq!['"']
}

/// Calls `serde_json::to_string` on a string, which writes it as a JSON string literal
/// (its escape table in `ser.rs` escapes `"`, `\` and the bytes below 0x20, with the
/// short forms for backspace, tab, line feed, form feed and carriage return, and
/// `\u00XX` in lowercase hexadecimal for the others). For a `str` the call does not
/// fail; the `null` kept for an error is never returned.
#[verifier::external_body]
pub(crate) fn json_string(s: &str) -> (r: String)
    ensures
        r@ == json_string_of(s@),
{
    match serde_json::to_string(s) {
        Ok(j) => j,
        Err(_) => String::from("null"),
    }
}

/// Pieces of the page that come from the site's asset files: icons, the search
/// dialog and the page scripts.
#[derive(Debug, Clone)]
pub struct PageChrome {
    /// The menu button of the header, with its icons.
    pub menu_toggle_html: String,
    /// The header actions: social links, theme toggle and search trigger.
    pub header_actions_html: String,
    /// The search dialog, with `class="oxidoc-search-dialog"` on its root.
    pub search_dialog_html: String,
    /// The page scripts (theme toggle, search, scrollspy, ...): `<script>` elements,
    /// each followed by a line break.
    pub scripts_html: String,
    /// The module script that draws Mermaid diagrams, added to pages that have one.
    pub mermaid_script: String,
}

/// The characters of an optional string.
pub open spec fn opt_chars(o: Option<&str>) -> Option<Seq<char>> {
    match o {
        Some(s) => Some(s@),
        None => None,
    }
}

/// The title of the page: the project name, after the page title when there is one.
pub open spec fn page_title_of(c: OxidocConfig, title: Seq<char>) -> Seq<char> {
    if title.len() == 0 {
        c.project.name@
    } else {
        title + " - "@ + c.project.name@
    }
}

/// The site's base URL, `/` by default.
pub open spec fn base_url_of(c: OxidocConfig) -> Seq<char> {
    match c.project.base_url {
        Some(b) => b@,
        None => "/"@,
    }
}

/// The description of the page: its own, else the project's, else
/// "<project> documentation".
pub open spec fn description_of(c: OxidocConfig, description: Option<Seq<char>>) -> Seq<char> {
    match description {
        Some(d) => d,
        None => match c.project.description {
            Some(d) => d@,
            None => c.project.name@ + " documentation"@,
        },
    }
}

/// Whether `s` ends with `/`.
pub open spec fn ends_with_slash(s: Seq<char>) -> bool {
    s.len() > 0 && s.last() == '/'
}

/// The URL of the page with the slug `slug` under `base`, joined by one `/`.
pub open spec fn page_url(base: Seq<char>, slug: Seq<char>) -> Seq<char> {
    if slug.len() == 0 {
        if ends_with_slash(base) {
            base
        } else {
            base + "/"@
        }
    } else if ends_with_slash(base) {
        base + slug
    } else {
        base + "/"@ + slug
    }
}

/// The Open Graph type: a website for the homepage, an article otherwise.
pub open spec fn og_type_of(is_homepage: bool) -> Seq<char> {
    if is_homepage {
        "website"@
    } else {
        "article"@
    }
}

/// The schema.org type: `WebSite` for the homepage, `WebPage` otherwise.
pub open spec fn json_ld_type_of(is_homepage: bool) -> Seq<char> {
    if is_homepage {
        "WebSite"@
    } else {
        "WebPage"@
    }
}

/// The JSON-LD data of the page: its type, title, description and URL, and the site's
/// name, the strings written as JSON string literals.
pub open spec fn json_ld_of(
    c: OxidocConfig,
    title: Seq<char>,
    slug: Seq<char>,
    description: Option<Seq<char>>,
    is_homepage: bool,
) -> Seq<char> {
    "{\"@context\":\"https://schema.org\",\"@type\":\""@ + json_ld_type_of(is_homepage)
        + "\",\"name\":"@ + json_string_of(page_title_of(c, title)) + ",\"description\":"@
        + json_string_of(description_of(c, description)) + ",\"url\":"@ + json_string_of(
        page_url(base_url_of(c), slug),
    ) + ",\"site\":{\"name\":"@ + json_string_of(c.project.name@) + "}}"@
}

/// The icon link of the site, typed by the icon's extension; nothing without an icon.
pub open spec fn favicon_html(c: OxidocConfig) -> Seq<char> {
    match c.project.favicon {
        Some(f) => if ends_with(f@, ".svg"@) {
            "    <link rel=\"icon\" type=\"image/svg+xml\" href=\""@ + esc(f@) + "\">"@
        } else if ends_with(f@, ".png"@) {
            "    <link rel=\"icon\" type=\"image/png\" href=\""@ + esc(f@) + "\">"@
        } else {
            "    <link rel=\"icon\" href=\""@ + esc(f@) + "\">"@
        },
        None => Seq::<char>::empty(),
    }
}

/// The list of a table of contents: from its first `<ul>` to the end of its last
/// `</ul>`, or the whole of it when either is missing.
pub open spec fn toc_list(toc: Seq<char>) -> Seq<char> {
    match find_from(toc, "<ul>"@, 0) {
        Some(st) => match find_last(toc, "</ul>"@) {
            Some(en) => toc.subrange(st as int, (en + 5) as int),
            None => toc,
        },
        None => toc,
    }
}

/// Whether the list of a table of contents can be cut out: its first `<ul>` does not
/// come after the end of its last `</ul>`.
pub open spec fn toc_list_ok(toc: Seq<char>) -> bool {
    match find_from(toc, "<ul>"@, 0) {
        Some(st) => match find_last(toc, "</ul>"@) {
            Some(en) => st <= en + 5,
            None => true,
        },
        None => true,
    }
}

pub const MOBILE_TOC_OPEN: &'static str = "<div class=\"oxidoc-toc-mobile\"><button class=\"oxidoc-toc-mobile-toggle\" aria-expanded=\"false\"><span>On this page</span><svg xmlns=\"http://www.w3.org/2000/svg\" width=\"16\" height=\"16\" viewBox=\"0 0 24 24\"><path fill=\"currentColor\" d=\"M7.41 8.59L12 13.17l4.59-4.58L18 10l-6 6l-6-6z\"/></svg></button><nav class=\"oxidoc-toc-mobile-dropdown\" aria-label=\"Table of contents\">";

pub const TOC_ASIDE_OPEN: &'static str = "<aside class=\"oxidoc-toc-sidebar\" role=\"complementary\" aria-label=\"Table of contents\">";

/// The dropdown table of contents for small screens; nothing without a table.
pub open spec fn mobile_toc(toc: Seq<char>) -> Seq<char> {
    if toc.len() == 0 {
        Seq::<char>::empty()
    } else {
        MOBILE_TOC_OPEN@ + toc_list(toc) + "</nav></div>"@
    }
}

/// The side column with the table of contents (empty without one).
pub open spec fn toc_aside(toc: Seq<char>) -> Seq<char> {
    if toc.len() == 0 {
        TOC_ASIDE_OPEN@ + "</aside>"@
    } else {
        TOC_ASIDE_OPEN@ + "<div class=\"oxidoc-toc-inner\">"@ + toc + "</div></aside>"@
    }
}

/// The document from its start to the opening of the body: title, description, Open
/// Graph and Twitter tags, JSON-LD data, canonical URL, icon, assets, analytics and
/// search head tags.
pub open spec fn page_head(
    c: OxidocConfig,
    title: Seq<char>,
    slug: Seq<char>,
    description: Option<Seq<char>>,
    a: AssetConfig,
    locale: Seq<char>,
    sp: SearchProvider,
    is_homepage: bool,
) -> Seq<char> {
    page_head_meta(c, title, slug, description, locale, is_homepage) + page_head_links(c, title, slug, description, a, sp, is_homepage)
}

/// The skip link and the header: menu button, logo, navigation, locale switcher and
/// actions.
pub open spec fn page_header(c: OxidocConfig, locale: Seq<char>, switcher: Seq<char>, ch: PageChrome) -> Seq<char> {
    locale
        + "\">\n<a href=\"#oxidoc-main\" class=\"oxidoc-skip-nav\">Skip to content</a>\n    <header class=\"oxidoc-header\" role=\"banner\">\n        "@
        + ch.menu_toggle_html@
        + "\n        "@
        + logo_html(c)
        + "\n        "@
        + header_nav(c.routing.header_links@)
        + "\n        "@
        + switcher
        + "\n        "@
        + ch.header_actions_html@
        + "\n    </header>\n    <div class=\"oxidoc-sidebar-overlay\"></div>\n    <div class=\"oxidoc-layout\">\n        <aside class=\"oxidoc-sidebar\" role=\"navigation\" aria-label=\"Documentation navigation\">\n            <div class=\"oxidoc-sidebar-inner\">\n                "@
        + mobile_nav(c.routing.header_links@)
        + "\n                <button class=\"oxidoc-mobile-back-btn\">&#8592; Back to main menu</button>\n                <div class=\"oxidoc-sidebar-doc-nav\">\n                    "@
}

/// The layout: sidebar, main content with its header and meta, table of contents,
/// then the footer and the scripts.
pub open spec fn page_main(
    c: OxidocConfig,
    content: Seq<char>,
    toc: Seq<char>,
    sidebar: Seq<char>,
    breadcrumb: Seq<char>,
    page_meta: Seq<char>,
    a: AssetConfig,
    sp: SearchProvider,
    year: Seq<char>,
) -> Seq<char> {
    page_layout(content, toc, sidebar, breadcrumb, page_meta) + page_end(c, toc, a, sp, year)
}

/// The head up to its `<meta>` tags: language, title, description, Open Graph and
/// Twitter tags.
pub open spec fn page_head_meta(
    c: OxidocConfig,
    title: Seq<char>,
    slug: Seq<char>,
    description: Option<Seq<char>>,
    locale: Seq<char>,
    is_homepage: bool,
) -> Seq<char> {
    "<!DOCTYPE html>\n<html lang=\""@
        + locale
        + "\" data-locale=\""@
        + locale
        + "\">\n<head>\n    <meta charset=\"utf-8\">\n    <meta name=\"viewport\" content=\"width=device-width, initial-scale=1\">\n    <title>"@
        + esc(page_title_of(c, title))
        + "</title>\n    <meta name=\"description\" content=\""@
        + esc(description_of(c, description))
        + "\">\n    <meta name=\"generator\" content=\"oxidoc\">\n    <meta property=\"og:title\" content=\""@
        + esc(page_title_of(c, title))
        + "\">\n    <meta property=\"og:type\" content=\""@
        + og_type_of(is_homepage)
        + "\">\n    <meta property=\"og:url\" content=\""@
        + page_url(base_url_of(c), slug)
        + "\">\n    <meta property=\"og:site_name\" content=\""@
        + esc(c.project.name@)
        + "\">\n    <meta property=\"og:description\" content=\""@
        + esc(description_of(c, description))
        + "\">\n    <meta name=\"twitter:card\" content=\"summary\">\n    <meta name=\"twitter:title\" content=\""@
        + esc(page_title_of(c, title))
        + "\">\n    <script type=\"application/ld+json\">"@
}

/// The rest of the head: JSON-LD data, canonical URL, icon, assets, analytics and
/// search head tags, then the opening of the body.
pub open spec fn page_head_links(
    c: OxidocConfig,
    title: Seq<char>,
    slug: Seq<char>,
    description: Option<Seq<char>>,
    a: AssetConfig,
    sp: SearchProvider,
    is_homepage: bool,
) -> Seq<char> {
    json_ld_of(c, title, slug, description, is_homepage)
        + "</script>\n    <link rel=\"canonical\" href=\""@
        + base_url_of(c)
        + ""@
        + slug
        + "\">\n"@
        + favicon_html(c)
        + "\n"@
        + preload_link(path_or(a.css_path, DEFAULT_CSS_PATH@), "style"@, a.css_sri)
        + "\n"@
        + preload_link(path_or(a.js_path, DEFAULT_JS_PATH@), "script"@, a.js_sri)
        + "\n"@
        + stylesheet_link(path_or(a.css_path, DEFAULT_CSS_PATH@), a.css_sri)
        + "\n    "@
        + analytics_html(c.analytics)
        + "\n    "@
        + head_tags_of(sp)
        + "\n</head>\n<body data-locale=\""@
}

/// The layout from the sidebar to the end of the main content.
pub open spec fn page_layout(
    content: Seq<char>,
    toc: Seq<char>,
    sidebar: Seq<char>,
    breadcrumb: Seq<char>,
    page_meta: Seq<char>,
) -> Seq<char> {
    sidebar
        + "\n                </div>\n            </div>\n        </aside>\n        <main id=\"oxidoc-main\" class=\"oxidoc-content\" role=\"main\">\n            "@
        + mobile_toc(toc)
        + "\n            <div class=\"oxidoc-page-header\">\n              "@
        + breadcrumb
        + "\n              <span class=\"oxidoc-llm-slot\" hidden></span>\n            </div>\n            <article>\n                "@
        + content
        + "\n            </article>\n            "@
        + page_meta
        + "\n        </main>\n        "@
}

/// The table of contents, the footer and the scripts, to the end of the document.
pub open spec fn page_end(c: OxidocConfig, toc: Seq<char>, a: AssetConfig, sp: SearchProvider, year: Seq<char>) -> Seq<char> {
    toc_aside(toc)
        + "\n    </div>\n    "@
        + footer_html(c, year)
        + "\n"@
        + script_tag(path_or(a.js_path, DEFAULT_JS_PATH@), a.js_sri)
        + "\n    "@
        + scripts_of(sp)
        + "\n\n</body>\n</html>"@
}

/// The page's own head blocks moved into the head (where the default `<meta>` tags
/// they set are removed), then the search dialog, the page scripts and, for a page
/// with a Mermaid diagram, the Mermaid script put before `</body>`.
pub open spec fn finish_page(raw: Seq<char>, c: OxidocConfig, ch: PageChrome) -> Seq<char> {
    let (h, extra) = extract_head_blocks(raw);
    let h2 = if extra.len() > 0 {
        replace_all(remove_meta_tags(h, meta_keys(extra)), "</head>"@, extra + "\n</head>"@)
    } else {
        h
    };
    replace_all(h2, "</body>"@, body_end_of(h2, c, ch))
}

/// The page for the given year in the footer copyright.
pub open spec fn page_html(
    c: OxidocConfig,
    title: Seq<char>,
    content: Seq<char>,
    toc: Seq<char>,
    sidebar: Seq<char>,
    breadcrumb: Seq<char>,
    slug: Seq<char>,
    description: Option<Seq<char>>,
    page_meta: Seq<char>,
    a: AssetConfig,
    locale: Seq<char>,
    switcher: Seq<char>,
    sp: SearchProvider,
    is_homepage: bool,
    ch: PageChrome,
    year: Seq<char>,
) -> Seq<char> {
    finish_page(
        page_head(c, title, slug, description, a, locale, sp, is_homepage) + page_header(
            c,
            locale,
            switcher,
            ch,
        ) + page_main(c, content, toc, sidebar, breadcrumb, page_meta, a, sp, year),
        c,
        ch,
    )
}

fn ends_with_slash_exec(s: &str) -> (r: bool)
    ensures
        r == ends_with_slash(s@),
{
    let chars = chars_of(s);
    chars.len() > 0 && chars[chars.len() - 1] == '/'
}

fn page_url_exec(base: &str, slug: &str) -> (r: String)
    ensures
        r@ == page_url(base@, slug@),
{
    let slash = ends_with_slash_exec(base);
    let mut url = String::from_str(base);
    if slug.unicode_len() == 0 {
        if !slash {
            url.append("/");
        }
    } else {
        if !slash {
            url.append("/");
        }
        url.append(slug);
    }
    url
}

fn favicon_html_exec(config: &OxidocConfig) -> (r: String)
    ensures
        r@ == favicon_html(*config),
{
    match &config.project.favicon {
        Some(f) => {
            let chars = chars_of(f.as_str());
            let mut html = if chars_end_with(chars.as_slice(), chars_of(".svg").as_slice()) {
                String::from_str("    <link rel=\"icon\" type=\"image/svg+xml\" href=\"")
            } else if chars_end_with(chars.as_slice(), chars_of(".png").as_slice()) {
                String::from_str("    <link rel=\"icon\" type=\"image/png\" href=\"")
            } else {
                String::from_str("    <link rel=\"icon\" href=\"")
            };
            push_escaped(f.as_str(), &mut html);
            html.append("\">");
            html
        },
        None => String::new(),
    }
}

fn toc_list_exec(toc: &str) -> (r: Vec<char>)
    requires
        toc_list_ok(toc@),
    ensures
        r@ == toc_list(toc@),
{
    let chars = chars_of(toc);
    let open = chars_of("<ul>");
    let close = chars_of("</ul>");
    proof {
        reveal_strlit("</ul>");
        lemma_find_from(toc@, "<ul>"@, 0);
    }
    match find_from_exec(&chars, &open, 0) {
        Some(st) => match find_last_exec(&chars, &close) {
            Some(en) => {
                proof {
                    assert("</ul>"@.len() == 5);
                    lemma_find_last_from(toc@, "</ul>"@, toc@.len() - 5);
                    assert(occurs_at(toc@, "</ul>"@, en as int));
                    assert(en + 5 <= chars@.len());
                }
                let n = chars.len();
                sub_chars(&chars, st, en + 5)
            },
            None => chars,
        },
        None => chars,
    }
}

/// Whether the list of the table of contents `toc` can be cut out, as `render_page`
/// requires: its first `<ul>` does not come after the end of its last `</ul>`.
pub fn toc_list_fits(toc: &str) -> (r: bool)
    ensures
        r == toc_list_ok(toc@),
{
    let chars = chars_of(toc);
    let open = chars_of("<ul>");
    let close = chars_of("</ul>");
    proof {
        reveal_strlit("</ul>");
    }
    match find_from_exec(&chars, &open, 0) {
        Some(st) => match find_last_exec(&chars, &close) {
            Some(en) => {
                proof {
                    lemma_find_last_from(toc@, "</ul>"@, toc@.len() - 5);
                }
                st <= en || st - en <= 5
            },
            None => true,
        },
        None => true,
    }
}

fn mobile_toc_exec(toc: &str) -> (r: String)
    requires
        toc_list_ok(toc@),
    ensures
        r@ == mobile_toc(toc@),
{
    if toc.unicode_len() == 0 {
        return String::new();
    }
    let list = toc_list_exec(toc);
    let mut html = String::from_str(MOBILE_TOC_OPEN);
    let s = string_from_chars(&list);
    html.append(s.as_str());
    html.append("</nav></div>");
    html
}

fn toc_aside_exec(toc: &str) -> (r: String)
    ensures
        r@ == toc_aside(toc@),
{
    let mut html = String::from_str(TOC_ASIDE_OPEN);
    if toc.unicode_len() == 0 {
        html.append("</aside>");
    } else {
        html.append("<div class=\"oxidoc-toc-inner\">");
        html.append(toc);
        html.append("</div></aside>");
    }
    html
}

fn page_title_exec(config: &OxidocConfig, title: &str) -> (r: String)
    ensures
        r@ == page_title_of(*config, title@),
{
    if title.unicode_len() == 0 {
        config.project.name.clone()
    } else {
        let mut t = String::from_str(title);
        t.append(" - ");
        t.append(config.project.name.as_str());
        t
    }
}

fn description_exec(config: &OxidocConfig, description: Option<&str>) -> (r: String)
    ensures
        r@ == description_of(*config, opt_chars(description)),
{
    match description {
        Some(d) => String::from_str(d),
        None => match &config.project.description {
            Some(d) => d.clone(),
            None => {
                let mut d = config.project.name.clone();
                d.append(" documentation");
                d
            },
        },
    }
}

fn json_ld_exec(config: &OxidocConfig, title: &str, url: &str, description: &str, is_homepage: bool) -> (r: String)
    ensures
        r@ == "{\"@context\":\"https://schema.org\",\"@type\":\""@ + json_ld_type_of(is_homepage)
            + "\",\"name\":"@ + json_string_of(title@) + ",\"description\":"@ + json_string_of(
            description@,
        ) + ",\"url\":"@ + json_string_of(url@) + ",\"site\":{\"name\":"@ + json_string_of(
            config.project.name@,
        ) + "}}"@,
{
    let mut j = String::from_str("{\"@context\":\"https://schema.org\",\"@type\":\"");
    j.append(if is_homepage { "WebSite" } else { "WebPage" });
    j.append("\",\"name\":");
    j.append(json_string(title).as_str());
    j.append(",\"description\":");
    j.append(json_string(description).as_str());
    j.append(",\"url\":");
    j.append(json_string(url).as_str());
    j.append(",\"site\":{\"name\":");
    j.append(json_string(config.project.name.as_str()).as_str());
    j.append("}}");
    j
}

#[verifier::spinoff_prover]
#[verifier::rlimit(80)]
fn push_page_head_meta(
    html: &mut String,
    config: &OxidocConfig,
    title: &str,
    active_slug: &str,
    description: Option<&str>,
    locale: &str,
    is_homepage: bool,
)
    ensures
        final(html)@ == old(html)@ + page_head_meta(*config, title@, active_slug@, opt_chars(description), locale@, is_homepage),
{
    let page_title = page_title_exec(config, title);
    let base_url: &str = match &config.project.base_url {
        Some(b) => b.as_str(),
        None => "/",
    };
    let (_logo, safe_name) = render_logo_html(config);
    let page_description = description_exec(config, description);
    let url = page_url_exec(base_url, active_slug);
    let og_type: &str = if is_homepage { "website" } else { "article" };
    let desc_esc = html_escape(page_description.as_str());
    let title_esc = html_escape(page_title.as_str());
    html.append("<!DOCTYPE html>\n<html lang=\"");
    html.append(locale);
    html.append("\" data-locale=\"");
    html.append(locale);
    html.append("\">\n<head>\n    <meta charset=\"utf-8\">\n    <meta name=\"viewport\" content=\"width=device-width, initial-scale=1\">\n    <title>");
    html.append(title_esc.as_str());
    html.append("</title>\n    <meta name=\"description\" content=\"");
    html.append(desc_esc.as_str());
    html.append("\">\n    <meta name=\"generator\" content=\"oxidoc\">\n    <meta property=\"og:title\" content=\"");
    html.append(title_esc.as_str());
    html.append("\">\n    <meta property=\"og:type\" content=\"");
    html.append(og_type);
    html.append("\">\n    <meta property=\"og:url\" content=\"");
    html.append(url.as_str());
    html.append("\">\n    <meta property=\"og:site_name\" content=\"");
    html.append(safe_name.as_str());
    html.append("\">\n    <meta property=\"og:description\" content=\"");
    html.append(desc_esc.as_str());
    html.append("\">\n    <meta name=\"twitter:card\" content=\"summary\">\n    <meta name=\"twitter:title\" content=\"");
    html.append(title_esc.as_str());
    html.append("\">\n    <script type=\"application/ld+json\">");
}

#[verifier::spinoff_prover]
#[verifier::rlimit(80)]
fn push_page_head_links(
    html: &mut String,
    config: &OxidocConfig,
    title: &str,
    active_slug: &str,
    description: Option<&str>,
    assets: &AssetConfig,
    search_provider: &SearchProvider,
    is_homepage: bool,
)
    ensures
        final(html)@ == old(html)@ + page_head_links(*config, title@, active_slug@, opt_chars(description), *assets, *search_provider, is_homepage),
{
    let page_title = page_title_exec(config, title);
    let base_url: &str = match &config.project.base_url {
        Some(b) => b.as_str(),
        None => "/",
    };
    let page_description = description_exec(config, description);
    let url = page_url_exec(base_url, active_slug);
    let json_ld = json_ld_exec(config, page_title.as_str(), url.as_str(), page_description.as_str(), is_homepage);
    let css_href: &str = match assets.css_path {
        Some(p) => p,
        None => DEFAULT_CSS_PATH,
    };
    let js_src: &str = match assets.js_path {
        Some(p) => p,
        None => DEFAULT_JS_PATH,
    };
    let analytics = render_analytics_script(config);
    let stylesheet = build_stylesheet_link(css_href, assets.css_sri);
    let (css_preload, js_preload) = build_preload_links(css_href, assets.css_sri, js_src, assets.js_sri);
    let head_tags = search_provider.render_head_tags();
    let favicon = favicon_html_exec(config);
    html.append(json_ld.as_str());
    html.append("</script>\n    <link rel=\"canonical\" href=\"");
    html.append(base_url);
    html.append("");
    html.append(active_slug);
    html.append("\">\n");
    html.append(favicon.as_str());
    html.append("\n");
    html.append(css_preload.as_str());
    html.append("\n");
    html.append(js_preload.as_str());
    html.append("\n");
    html.append(stylesheet.as_str());
    html.append("\n    ");
    html.append(analytics.as_str());
    html.append("\n    ");
    html.append(head_tags.as_str());
    html.append("\n</head>\n<body data-locale=\"");
}

#[verifier::spinoff_prover]
#[verifier::rlimit(80)]
fn push_page_header(html: &mut String, config: &OxidocConfig, locale: &str, locale_switcher_html: &str, chrome: &PageChrome)
    ensures
        final(html)@ == old(html)@ + page_header(*config, locale@, locale_switcher_html@, *chrome),
{
    let (logo, _safe_name) = render_logo_html(config);
    let header_nav_html = build_header_nav(config.routing.header_links.as_slice());
    let mobile_nav_html = build_mobile_nav_links(config.routing.header_links.as_slice());
    html.append(locale);
    html.append("\">\n<a href=\"#oxidoc-main\" class=\"oxidoc-skip-nav\">Skip to content</a>\n    <header class=\"oxidoc-header\" role=\"banner\">\n        ");
    html.append(chrome.menu_toggle_html.as_str());
    html.append("\n        ");
    html.append(logo.as_str());
    html.append("\n        ");
    html.append(header_nav_html.as_str());
    html.append("\n        ");
    html.append(locale_switcher_html);
    html.append("\n        ");
    html.append(chrome.header_actions_html.as_str());
    html.append("\n    </header>\n    <div class=\"oxidoc-sidebar-overlay\"></div>\n    <div class=\"oxidoc-layout\">\n        <aside class=\"oxidoc-sidebar\" role=\"navigation\" aria-label=\"Documentation navigation\">\n            <div class=\"oxidoc-sidebar-inner\">\n                ");
    html.append(mobile_nav_html.as_str());
    html.append("\n                <button class=\"oxidoc-mobile-back-btn\">&#8592; Back to main menu</button>\n                <div class=\"oxidoc-sidebar-doc-nav\">\n                    ");
}

#[verifier::spinoff_prover]
#[verifier::rlimit(80)]
fn push_page_layout(
    html: &mut String,
    content_html: &str,
    toc_html: &str,
    sidebar_html: &str,
    breadcrumb_html: &str,
    page_meta_html: &str,
)
    requires
        toc_list_ok(toc_html@),
    ensures
        final(html)@ == old(html)@ + page_layout(content_html@, toc_html@, sidebar_html@, breadcrumb_html@, page_meta_html@),
{
    let mobile_toc_html = mobile_toc_exec(toc_html);
    html.append(sidebar_html);
    html.append("\n                </div>\n            </div>\n        </aside>\n        <main id=\"oxidoc-main\" class=\"oxidoc-content\" role=\"main\">\n            ");
    html.append(mobile_toc_html.as_str());
    html.append("\n            <div class=\"oxidoc-page-header\">\n              ");
    html.append(breadcrumb_html);
    html.append("\n              <span class=\"oxidoc-llm-slot\" hidden></span>\n            </div>\n            <article>\n                ");
    html.append(content_html);
    html.append("\n            </article>\n            ");
    html.append(page_meta_html);
    html.append("\n        </main>\n        ");
}

#[verifier::spinoff_prover]
#[verifier::rlimit(80)]
fn push_page_end(
    html: &mut String,
    config: &OxidocConfig,
    toc_html: &str,
    assets: &AssetConfig,
    search_provider: &SearchProvider,
    year: &str,
)
    ensures
        final(html)@ == old(html)@ + page_end(*config, toc_html@, *assets, *search_provider, year@),
{
    let footer = render_footer_for_year(config, year);
    let js_src: &str = match assets.js_path {
        Some(p) => p,
        None => DEFAULT_JS_PATH,
    };
    let script = build_script_tag(js_src, assets.js_sri);
    let scripts = search_provider.render_scripts();
    let aside = toc_aside_exec(toc_html);
    html.append(aside.as_str());
    html.append("\n    </div>\n    ");
    html.append(footer.as_str());
    html.append("\n");
    html.append(script.as_str());
    html.append("\n    ");
    html.append(scripts.as_str());
    html.append("\n\n</body>\n</html>");
}

/// What goes before `</body>`: the search dialog (marked for semantic search when
/// that is on), the page scripts and, for a page `h` with a Mermaid diagram, the
/// Mermaid script.
pub open spec fn body_end_of(h: Seq<char>, c: OxidocConfig, ch: PageChrome) -> Seq<char> {
    let mermaid = if find_from(h, "<pre class=\"mermaid\">"@, 0) is Some {
        ch.mermaid_script@
    } else {
        Seq::<char>::empty()
    };
    let search = if c.search.semantic {
        replace_first(
            ch.search_dialog_html@,
            "class=\"oxidoc-search-dialog\""@,
            "class=\"oxidoc-search-dialog\" data-semantic=\"true\""@,
        )
    } else {
        ch.search_dialog_html@
    };
    search + "\n"@ + ch.scripts_html@ + mermaid + "</body>"@
}

fn body_end(h2: &Vec<char>, config: &OxidocConfig, chrome: &PageChrome) -> (r: Vec<char>)
    ensures
        r@ == body_end_of(h2@, *config, *chrome),
{
    let has_mermaid = match find_from_exec(h2, &chars_of("<pre class=\"mermaid\">"), 0) {
        Some(_) => true,
        None => false,
    };
    let dialog = chars_of(chrome.search_dialog_html.as_str());
    let mut tail: Vec<char> = if config.search.semantic {
        replace_first_chars(
            &dialog,
            &chars_of("class=\"oxidoc-search-dialog\""),
            &chars_of("class=\"oxidoc-search-dialog\" data-semantic=\"true\""),
        )
    } else {
        dialog
    };
    let ghost search = tail@;
    push_all(&mut tail, &chars_of("\n"));
    push_all(&mut tail, &chars_of(chrome.scripts_html.as_str()));
    let ghost before_mermaid = tail@;
    if has_mermaid {
        push_all(&mut tail, &chars_of(chrome.mermaid_script.as_str()));
    }
    let ghost after_mermaid = tail@;
    push_all(&mut tail, &chars_of("</body>"));
    assert(tail@ =~= search + "\n"@ + chrome.scripts_html@ + (if has_mermaid {
        chrome.mermaid_script@
    } else {
        Seq::<char>::empty()
    }) + "</body>"@);
    tail
}

fn finish_page_exec(raw: String, config: &OxidocConfig, chrome: &PageChrome) -> (r: String)
    ensures
        r@ == finish_page(raw@, *config, *chrome),
{
    let start = chars_of(HEAD_START);
    let end = chars_of(HEAD_END);
    let (h, extra) = extract_head_blocks_exec(chars_of(raw.as_str()), &start, &end);
    proof {
        reveal_strlit("</head>");
        reveal_strlit("</body>");
    }
    let h2: Vec<char> = if extra.len() > 0 {
        let extra_s = string_from_chars(&extra);
        let cleaned = remove_overridden_meta_tags(string_from_chars(&h), extra_s.as_str());
        let mut rep: Vec<char> = Vec::new();
        push_all(&mut rep, &extra);
        push_all(&mut rep, &chars_of("\n</head>"));
        assert(rep@ =~= extra@ + "\n</head>"@);
        replace_all_chars(&chars_of(cleaned.as_str()), &chars_of("</head>"), &rep)
    } else {
        h
    };
    let tail = body_end(&h2, config, chrome);
    let r = replace_all_chars(&h2, &chars_of("</body>"), &tail);
    string_from_chars(&r)
}

/// Wrap rendered page content in a full HTML document, with `year` in the footer's
/// copyright notice.
///
/// The header holds the menu button and the actions of `chrome`, the logo, the
/// configured navigation links and `locale_switcher_html`; the head holds the page's
/// title and description, its Open Graph and Twitter tags, its JSON-LD data and its
/// canonical URL. Head blocks that the content carries (between
/// `<!--oxidoc-head-start-->` and `<!--oxidoc-head-end-->`) are moved into the head,
/// and the search dialog and page scripts are put before `</body>`.
pub fn render_page_for_year(
    config: &OxidocConfig,
    title: &str,
    content_html: &str,
    toc_html: &str,
    sidebar_html: &str,
    breadcrumb_html: &str,
    active_slug: &str,
    description: Option<&str>,
    page_meta_html: &str,
    assets: &AssetConfig,
    locale: &str,
    locale_switcher_html: &str,
    search_provider: &SearchProvider,
    is_homepage: bool,
    chrome: &PageChrome,
    year: &str,
) -> (r: String)
    requires
        toc_list_ok(toc_html@),
    ensures
        r@ == page_html(
            *config,
            title@,
            content_html@,
            toc_html@,
            sidebar_html@,
            breadcrumb_html@,
            active_slug@,
            opt_chars(description),
            page_meta_html@,
            *assets,
            locale@,
            locale_switcher_html@,
            *search_provider,
            is_homepage,
            *chrome,
            year@,
        ),
{
    let mut html = String::new();
    push_page_head_meta(&mut html, config, title, active_slug, description, locale, is_homepage);
    push_page_head_links(&mut html, config, title, active_slug, description, assets, search_provider, is_homepage);
    push_page_header(&mut html, config, locale, locale_switcher_html, chrome);
    push_page_layout(&mut html, content_html, toc_html, sidebar_html, breadcrumb_html, page_meta_html);
    push_page_end(&mut html, config, toc_html, assets, search_provider, year);
    assert(html@ =~= page_head(*config, title@, active_slug@, opt_chars(description), *assets, locale@, *search_provider, is_homepage)
        + page_header(*config, locale@, locale_switcher_html@, *chrome)
        + page_main(*config, content_html@, toc_html@, sidebar_html@, breadcrumb_html@, page_meta_html@, *assets, *search_provider, year@));
    finish_page_exec(html, config, chrome)
}

/// Wrap rendered page content in a full HTML document, with the current year in the
/// footer's copyright notice (left out where the clock cannot give one). Everything
/// else is as `render_page_for_year` states.
pub fn render_page(
    config: &OxidocConfig,
    title: &str,
    content_html: &str,
    toc_html: &str,
    sidebar_html: &str,
    breadcrumb_html: &str,
    active_slug: &str,
    description: Option<&str>,
    page_meta_html: &str,
    assets: &AssetConfig,
    locale: &str,
    locale_switcher_html: &str,
    search_provider: &SearchProvider,
    is_homepage: bool,
    chrome: &PageChrome,
) -> (r: String)
    requires
        toc_list_ok(toc_html@),
    ensures
        exists|year: Seq<char>|
            clock_year(year) && r@ == page_html(
                *config,
                title@,
                content_html@,
                toc_html@,
                sidebar_html@,
                breadcrumb_html@,
                active_slug@,
                opt_chars(description),
                page_meta_html@,
                *assets,
                locale@,
                locale_switcher_html@,
                *search_provider,
                is_homepage,
                *chrome,
                year,
            ),
{
    proof {
        reveal_strlit("");
    }
    match current_year() {
        Some(year) => {
            proof {
                assert(clock_year(year@));
            }
            render_page_for_year(
            config,
            title,
            content_html,
            toc_html,
            sidebar_html,
            breadcrumb_html,
            active_slug,
            description,
            page_meta_html,
            assets,
            locale,
            locale_switcher_html,
            search_provider,
            is_homepage,
            chrome,
            year.as_str(),
        )
        },
        None => {
            proof {
                assert(clock_year(""@));
            }
            render_page_for_year(
            config,
            title,
            content_html,
            toc_html,
            sidebar_html,
            breadcrumb_html,
            active_slug,
            description,
            page_meta_html,
            assets,
            locale,
            locale_switcher_html,
            search_provider,
            is_homepage,
            chrome,
            "",
        )
        },
    }
}

// ---------------------------------------------------------------------------
// The landing page
// ---------------------------------------------------------------------------

/// The landing page's head up to its `<meta>` tags: language, title, description,
/// Open Graph and Twitter tags.
pub open spec fn landing_head_meta(
    c: OxidocConfig,
    title: Seq<char>,
    slug: Seq<char>,
    description: Option<Seq<char>>,
    locale: Seq<char>,
) -> Seq<char> {
    "<!DOCTYPE html>\n<html lang=\""@
        + locale
        + "\" data-locale=\""@
        + locale
        + "\">\n<head>\n    <meta charset=\"utf-8\">\n    <meta name=\"viewport\" content=\"width=device-width, initial-scale=1\">\n    <title>"@
        + esc(page_title_of(c, title))
        + "</title>\n    <meta name=\"description\" content=\""@
        + esc(description_of(c, description))
        + "\">\n    <meta name=\"generator\" content=\"oxidoc\">\n    <meta property=\"og:title\" content=\""@
        + esc(page_title_of(c, title))
        + "\">\n    <meta property=\"og:type\" content=\"article\">\n    <meta property=\"og:url\" content=\""@
        + page_url(base_url_of(c), slug)
        + "\">\n    <meta property=\"og:site_name\" content=\""@
        + esc(c.project.name@)
        + "\">\n    <meta property=\"og:description\" content=\""@
        + esc(description_of(c, description))
        + "\">\n    <meta name=\"twitter:card\" content=\"summary\">\n    <meta name=\"twitter:title\" content=\""@
        + esc(page_title_of(c, title))
        + "\">\n    <script type=\"application/ld+json\">"@
}

/// The rest of the landing page's head: JSON-LD data, canonical URL, icon, assets,
/// analytics and search head tags, then the opening of the body.
pub open spec fn landing_head_links(
    c: OxidocConfig,
    title: Seq<char>,
    slug: Seq<char>,
    description: Option<Seq<char>>,
    a: AssetConfig,
    sp: SearchProvider,
) -> Seq<char> {
    json_ld_of(c, title, slug, description, false)
        + "</script>\n    <link rel=\"canonical\" href=\""@
        + base_url_of(c)
        + ""@
        + slug
        + "\">\n"@
        + favicon_html(c)
        + "\n"@
        + preload_link(path_or(a.css_path, DEFAULT_CSS_PATH@), "style"@, a.css_sri)
        + "\n"@
        + preload_link(path_or(a.js_path, DEFAULT_JS_PATH@), "script"@, a.js_sri)
        + "\n"@
        + stylesheet_link(path_or(a.css_path, DEFAULT_CSS_PATH@), a.css_sri)
        + "\n    "@
        + analytics_html(c.analytics)
        + "\n    "@
        + head_tags_of(sp)
        + "\n</head>\n<body data-locale=\""@
}

/// The landing page's body: a header without navigation links, the mobile navigation,
/// the full-width content, the footer and the scripts.
pub open spec fn landing_body(
    c: OxidocConfig,
    content: Seq<char>,
    a: AssetConfig,
    locale: Seq<char>,
    switcher: Seq<char>,
    sp: SearchProvider,
    ch: PageChrome,
    year: Seq<char>,
) -> Seq<char> {
    locale
        + "\">\n<a href=\"#oxidoc-main\" class=\"oxidoc-skip-nav\">Skip to content</a>\n    <header class=\"oxidoc-header oxidoc-header-landing\" role=\"banner\">\n        "@
        + ch.menu_toggle_html@
        + "\n        "@
        + logo_html(c)
        + "\n        "@
        + switcher
        + "\n        "@
        + ch.header_actions_html@
        + "\n    </header>\n    <div class=\"oxidoc-sidebar-overlay\"></div>\n    <aside class=\"oxidoc-sidebar oxidoc-sidebar-landing\" role=\"navigation\" aria-label=\"Main navigation\">\n        <div class=\"oxidoc-sidebar-inner\">\n            "@
        + mobile_nav(c.routing.header_links@)
        + "\n        </div>\n    </aside>\n    <main id=\"oxidoc-main\" class=\"oxidoc-landing\" role=\"main\">\n        <article>\n            "@
        + content
        + "\n        </article>\n    </main>\n    "@
        + footer_html(c, year)
        + "\n"@
        + script_tag(path_or(a.js_path, DEFAULT_JS_PATH@), a.js_sri)
        + "\n    "@
        + scripts_of(sp)
        + "\n\n</body>\n</html>"@
}

/// The landing page's own head blocks moved into the head, then the search dialog,
/// the page scripts and, with a Mermaid diagram, the Mermaid script put before
/// `</body>`.
pub open spec fn finish_landing(raw: Seq<char>, c: OxidocConfig, ch: PageChrome) -> Seq<char> {
    let (h, extra) = extract_head_blocks(raw);
    let h2 = if extra.len() > 0 {
        replace_all(h, "</head>"@, extra + "\n</head>"@)
    } else {
        h
    };
    replace_all(h2, "</body>"@, body_end_of(h2, c, ch))
}

/// The landing page for the given year in the footer copyright.
pub open spec fn landing_html(
    c: OxidocConfig,
    title: Seq<char>,
    content: Seq<char>,
    slug: Seq<char>,
    description: Option<Seq<char>>,
    a: AssetConfig,
    locale: Seq<char>,
    switcher: Seq<char>,
    sp: SearchProvider,
    ch: PageChrome,
    year: Seq<char>,
) -> Seq<char> {
    finish_landing(
        landing_head_meta(c, title, slug, description, locale) + landing_head_links(
            c,
            title,
            slug,
            description,
            a,
            sp,
        ) + landing_body(c, content, a, locale, switcher, sp, ch, year),
        c,
        ch,
    )
}

#[verifier::spinoff_prover]
#[verifier::rlimit(80)]
fn push_landing_head_meta(
    html: &mut String,
    config: &OxidocConfig,
    title: &str,
    active_slug: &str,
    description: Option<&str>,
    locale: &str,
)
    ensures
        final(html)@ == old(html)@ + landing_head_meta(*config, title@, active_slug@, opt_chars(description), locale@),
{
    let page_title = page_title_exec(config, title);
    let base_url: &str = match &config.project.base_url {
        Some(b) => b.as_str(),
        None => "/",
    };
    let (_logo, safe_name) = render_logo_html(config);
    let page_description = description_exec(config, description);
    let url = page_url_exec(base_url, active_slug);
    let desc_esc = html_escape(page_description.as_str());
    let title_esc = html_escape(page_title.as_str());
    html.append("<!DOCTYPE html>\n<html lang=\"");
    html.append(locale);
    html.append("\" data-locale=\"");
    html.append(locale);
    html.append("\">\n<head>\n    <meta charset=\"utf-8\">\n    <meta name=\"viewport\" content=\"width=device-width, initial-scale=1\">\n    <title>");
    html.append(title_esc.as_str());
    html.append("</title>\n    <meta name=\"description\" content=\"");
    html.append(desc_esc.as_str());
    html.append("\">\n    <meta name=\"generator\" content=\"oxidoc\">\n    <meta property=\"og:title\" content=\"");
    html.append(title_esc.as_str());
    html.append("\">\n    <meta property=\"og:type\" content=\"article\">\n    <meta property=\"og:url\" content=\"");
    html.append(url.as_str());
    html.append("\">\n    <meta property=\"og:site_name\" content=\"");
    html.append(safe_name.as_str());
    html.append("\">\n    <meta property=\"og:description\" content=\"");
    html.append(desc_esc.as_str());
    html.append("\">\n    <meta name=\"twitter:card\" content=\"summary\">\n    <meta name=\"twitter:title\" content=\"");
    html.append(title_esc.as_str());
    html.append("\">\n    <script type=\"application/ld+json\">");
}

#[verifier::spinoff_prover]
#[verifier::rlimit(80)]
fn push_landing_head_links(
    html: &mut String,
    config: &OxidocConfig,
    title: &str,
    active_slug: &str,
    description: Option<&str>,
    assets: &AssetConfig,
    search_provider: &SearchProvider,
)
    ensures
        final(html)@ == old(html)@ + landing_head_links(*config, title@, active_slug@, opt_chars(description), *assets, *search_provider),
{
    let page_title = page_title_exec(config, title);
    let base_url: &str = match &config.project.base_url {
        Some(b) => b.as_str(),
        None => "/",
    };
    let page_description = description_exec(config, description);
    let url = page_url_exec(base_url, active_slug);
    let json_ld = json_ld_exec(config, page_title.as_str(), url.as_str(), page_description.as_str(), false);
    let css_href: &str = match assets.css_path {
        Some(p) => p,
        None => DEFAULT_CSS_PATH,
    };
    let js_src: &str = match assets.js_path {
        Some(p) => p,
        None => DEFAULT_JS_PATH,
    };
    let analytics = render_analytics_script(config);
    let stylesheet = build_stylesheet_link(css_href, assets.css_sri);
    let (css_preload, js_preload) = build_preload_links(css_href, assets.css_sri, js_src, assets.js_sri);
    let head_tags = search_provider.render_head_tags();
    let favicon = favicon_html_exec(config);
    html.append(json_ld.as_str());
    html.append("</script>\n    <link rel=\"canonical\" href=\"");
    html.append(base_url);
    html.append("");
    html.append(active_slug);
    html.append("\">\n");
    html.append(favicon.as_str());
    html.append("\n");
    html.append(css_preload.as_str());
    html.append("\n");
    html.append(js_preload.as_str());
    html.append("\n");
    html.append(stylesheet.as_str());
    html.append("\n    ");
    html.append(analytics.as_str());
    html.append("\n    ");
    html.append(head_tags.as_str());
    html.append("\n</head>\n<body data-locale=\"");
}

#[verifier::spinoff_prover]
#[verifier::rlimit(80)]
fn push_landing_body(
    html: &mut String,
    config: &OxidocConfig,
    content_html: &str,
    assets: &AssetConfig,
    locale: &str,
    locale_switcher_html: &str,
    search_provider: &SearchProvider,
    chrome: &PageChrome,
    year: &str,
)
    ensures
        final(html)@ == old(html)@ + landing_body(*config, content_html@, *assets, locale@, locale_switcher_html@, *search_provider, *chrome, year@),
{
    let (logo, _safe_name) = render_logo_html(config);
    let mobile_nav_html = build_mobile_nav_links(config.routing.header_links.as_slice());
    let footer = render_footer_for_year(config, year);
    let js_src: &str = match assets.js_path {
        Some(p) => p,
        None => DEFAULT_JS_PATH,
    };
    let script = build_script_tag(js_src, assets.js_sri);
    let scripts = search_provider.render_scripts();
    html.append(locale);
    html.append("\">\n<a href=\"#oxidoc-main\" class=\"oxidoc-skip-nav\">Skip to content</a>\n    <header class=\"oxidoc-header oxidoc-header-landing\" role=\"banner\">\n        ");
    html.append(chrome.menu_toggle_html.as_str());
    html.append("\n        ");
    html.append(logo.as_str());
    html.append("\n        ");
    html.append(locale_switcher_html);
    html.append("\n        ");
    html.append(chrome.header_actions_html.as_str());
    html.append("\n    </header>\n    <div class=\"oxidoc-sidebar-overlay\"></div>\n    <aside class=\"oxidoc-sidebar oxidoc-sidebar-landing\" role=\"navigation\" aria-label=\"Main navigation\">\n        <div class=\"oxidoc-sidebar-inner\">\n            ");
    html.append(mobile_nav_html.as_str());
    html.append("\n        </div>\n    </aside>\n    <main id=\"oxidoc-main\" class=\"oxidoc-landing\" role=\"main\">\n        <article>\n            ");
    html.append(content_html);
    html.append("\n        </article>\n    </main>\n    ");
    html.append(footer.as_str());
    html.append("\n");
    html.append(script.as_str());
    html.append("\n    ");
    html.append(scripts.as_str());
    html.append("\n\n</body>\n</html>");
}

fn finish_landing_exec(raw: String, config: &OxidocConfig, chrome: &PageChrome) -> (r: String)
    ensures
        r@ == finish_landing(raw@, *config, *chrome),
{
    let start = chars_of(HEAD_START);
    let end = chars_of(HEAD_END);
    let (h, extra) = extract_head_blocks_exec(chars_of(raw.as_str()), &start, &end);
    proof {
        reveal_strlit("</head>");
        reveal_strlit("</body>");
    }
    let h2: Vec<char> = if extra.len() > 0 {
        let mut rep: Vec<char> = Vec::new();
        push_all(&mut rep, &extra);
        push_all(&mut rep, &chars_of("\n</head>"));
        assert(rep@ =~= extra@ + "\n</head>"@);
        replace_all_chars(&h, &chars_of("</head>"), &rep)
    } else {
        h
    };
    let tail = body_end(&h2, config, chrome);
    let r = replace_all_chars(&h2, &chars_of("</body>"), &tail);
    string_from_chars(&r)
}

/// Render a full-width landing page (no sidebar, no table of contents, no
/// breadcrumbs), with `year` in the footer's copyright notice.
pub fn render_landing_page_for_year(
    config: &OxidocConfig,
    title: &str,
    content_html: &str,
    active_slug: &str,
    description: Option<&str>,
    assets: &AssetConfig,
    locale: &str,
    locale_switcher_html: &str,
    search_provider: &SearchProvider,
    chrome: &PageChrome,
    year: &str,
) -> (r: String)
    ensures
        r@ == landing_html(
            *config,
            title@,
            content_html@,
            active_slug@,
            opt_chars(description),
            *assets,
            locale@,
            locale_switcher_html@,
            *search_provider,
            *chrome,
            year@,
        ),
{
    let mut html = String::new();
    push_landing_head_meta(&mut html, config, title, active_slug, description, locale);
    push_landing_head_links(&mut html, config, title, active_slug, description, assets, search_provider);
    push_landing_body(&mut html, config, content_html, assets, locale, locale_switcher_html, search_provider, chrome, year);
    finish_landing_exec(html, config, chrome)
}

/// Render a full-width landing page (no sidebar, no table of contents, no
/// breadcrumbs), with the current year in the footer's copyright notice (left out
/// where the clock cannot give one). Everything else is as
/// `render_landing_page_for_year` states.
pub fn render_landing_page(
    config: &OxidocConfig,
    title: &str,
    content_html: &str,
    active_slug: &str,
    description: Option<&str>,
    assets: &AssetConfig,
    locale: &str,
    locale_switcher_html: &str,
    search_provider: &SearchProvider,
    chrome: &PageChrome,
) -> (r: String)
    ensures
        exists|year: Seq<char>|
            clock_year(year) && r@ == landing_html(
                *config,
                title@,
                content_html@,
                active_slug@,
                opt_chars(description),
                *assets,
                locale@,
                locale_switcher_html@,
                *search_provider,
                *chrome,
                year,
            ),
{
    proof {
        reveal_strlit("");
    }
    match current_year() {
        Some(year) => {
            proof {
                assert(clock_year(year@));
            }
            render_landing_page_for_year(
            config,
            title,
            content_html,
            active_slug,
            description,
            assets,
            locale,
            locale_switcher_html,
            search_provider,
            chrome,
            year.as_str(),
        )
        },
        None => {
            proof {
                assert(clock_year(""@));
            }
            render_landing_page_for_year(
            config,
            title,
            content_html,
            active_slug,
            description,
            assets,
            locale,
            locale_switcher_html,
            search_provider,
            chrome,
            "",
        )
        },
    }
}

} // verus!
