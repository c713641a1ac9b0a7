//! The parts of a page around its content: analytics scripts, the footer, the
//! page-bottom meta bar and the sidebar.
use vstd::prelude::*;

use crate::config::{AnalyticsConfig, LinkConfig, NavGroup, OxidocConfig, PageEntry};
use crate::text::{
    chars_end_with, chars_of, concat_map, ends_with, lemma_concat_map_step, push_char,
    string_from_chars, sub_chars, str_eq,
};
use crate::utils::{escape_seq, push_escaped};

verus! {

broadcast use vstd::string::group_string_axioms;

/// The HTML-escaped form of `s`.
pub open spec fn esc(s: Seq<char>) -> Seq<char> {
    escape_seq(s, false)
}

// ---------------------------------------------------------------------------
// Analytics
// ---------------------------------------------------------------------------

pub const GA_SCRIPT_SRC: &'static str = "<script async src=\"https://www.googletagmanager.com/gtag/js?id=";

pub const GA_SCRIPT_BODY: &'static str = "\"></script>\n<script>\nwindow.dataLayer = window.dataLayer || [];\nfunction gtag(){dataLayer.push(arguments);}\ngtag('js', new Date());\ngtag('config', '";

pub const GA_SCRIPT_END: &'static str = "');\n</script>";

/// The analytics markup: the custom script as written followed by a newline, then the
/// Google Analytics loader for the (escaped) measurement id.
pub open spec fn analytics_html(a: AnalyticsConfig) -> Seq<char> {
    (match a.script {
        Some(s) => s@.push('\n'),
        None => Seq::<char>::empty(),
    }) + (match a.google_analytics {
        Some(id) => GA_SCRIPT_SRC@ + esc(id@) + GA_SCRIPT_BODY@ + esc(id@) + GA_SCRIPT_END@,
        None => Seq::<char>::empty(),
    })
}

/// Render analytics scripts if configured.
pub fn render_analytics_script(config: &OxidocConfig) -> (r: String)
    ensures
        r@ == analytics_html(config.analytics),
{
    let mut html = String::new();
    if let Some(script) = &config.analytics.script {
        html.append(script.as_str());
        push_char(&mut html, '\n');
    }
    if let Some(ga_id) = &config.analytics.google_analytics {
        html.append(GA_SCRIPT_SRC);
        push_escaped(ga_id.as_str(), &mut html);
        html.append(GA_SCRIPT_BODY);
        push_escaped(ga_id.as_str(), &mut html);
        html.append(GA_SCRIPT_END);
    }
    html
}

// ---------------------------------------------------------------------------
// Footer
// ---------------------------------------------------------------------------

pub const FOOTER_OPEN: &'static str = "<footer class=\"oxidoc-footer\" role=\"contentinfo\">";

pub const FOOTER_LINKS_OPEN: &'static str = "<nav class=\"oxidoc-footer-links\" aria-label=\"Footer navigation\"><ul>";

pub const FOOTER_COPYRIGHT_OPEN: &'static str = "<p class=\"oxidoc-footer-copyright\">";

pub const COPYRIGHT_PREFIX: &'static str = "Copyright \u{a9} ";

pub const BUILT_WITH: &'static str = "Built with <a href=\"https://oxidoc.dev\">Oxidoc</a>.";

pub const LIST_LINK_OPEN: &'static str = "<li><a href=\"";

pub const LINK_TEXT: &'static str = "\">";

pub const LIST_LINK_CLOSE: &'static str = "</a></li>";

/// A list item linking to `link.href` with the text `link.label`, both escaped.
pub open spec fn footer_link(link: LinkConfig) -> Seq<char> {
    LIST_LINK_OPEN@ + esc(link.href@) + LINK_TEXT@ + esc(link.label@) + LIST_LINK_CLOSE@
}

/// The copyright owner, linked when an owner URL is configured.
pub open spec fn owner_html(owner: Seq<char>, url: Option<String>) -> Seq<char> {
    match url {
        Some(u) => "<a href=\""@ + esc(u@) + LINK_TEXT@ + esc(owner) + "</a>"@,
        None => esc(owner),
    }
}

/// The year in the copyright notice, followed by a space; nothing when the year is
/// not known (empty).
pub open spec fn year_part(year: Seq<char>) -> Seq<char> {
    if year.len() == 0 {
        Seq::<char>::empty()
    } else {
        year + " "@
    }
}

/// The copyright line: the copyright notice for `year`, then the attribution, joined
/// by a space.
pub open spec fn copyright_line(c: OxidocConfig, year: Seq<char>) -> Seq<char> {
    match c.footer.copyright_owner {
        Some(owner) => COPYRIGHT_PREFIX@ + year_part(year) + owner_html(owner@, c.footer.copyright_owner_url)
            + "."@ + (if c.attribution.oxidoc {
            " "@ + BUILT_WITH@
        } else {
            Seq::<char>::empty()
        }),
        None => if c.attribution.oxidoc {
            BUILT_WITH@
        } else {
            Seq::<char>::empty()
        },
    }
}

/// The site footer for the given year: empty when there is no copyright owner, no
/// footer link and no attribution.
pub open spec fn footer_html(c: OxidocConfig, year: Seq<char>) -> Seq<char> {
    let has_copyright = c.footer.copyright_owner is Some;
    let has_links = c.footer.links@.len() > 0;
    if !has_copyright && !has_links && !c.attribution.oxidoc {
        Seq::<char>::empty()
    } else {
        FOOTER_OPEN@ + (if has_links {
            FOOTER_LINKS_OPEN@ + concat_map(c.footer.links@, |l: LinkConfig| footer_link(l))
                + "</ul></nav>"@
        } else {
            Seq::<char>::empty()
        }) + (if has_copyright || c.attribution.oxidoc {
            FOOTER_COPYRIGHT_OPEN@ + copyright_line(c, year) + "</p>"@
        } else {
            Seq::<char>::empty()
        }) + "</footer>"@
    }
}

/// The UTC year, as `chrono` formats it with `%Y`, of the instant `secs` seconds
/// after the Unix epoch; `None` where `chrono` cannot represent that instant.
pub uninterp spec fn utc_year_of(secs: int) -> Option<Seq<char>>;

/// Where the system clock stands against the Unix epoch: `Ok` with the whole seconds
/// since it, or `Err` with the whole seconds and the nanoseconds beyond them before it.
///
/// Calls `std::time::SystemTime::now()` and `duration_since(UNIX_EPOCH)`; for a clock
/// before the epoch, the error's `duration()`. The result depends on the clock, so
/// nothing is stated of it.
#[verifier::external_body]
fn unix_clock_now() -> (r: Result<u64, (u64, u32)>) {
    match std::time::SystemTime::now().duration_since(std::time::UNIX_EPOCH) {
        Ok(d) => Ok(d.as_secs()),
        Err(e) => Err((e.duration().as_secs(), e.duration().subsec_nanos())),
    }
}

/// The UTC year of the instant `secs` seconds after the Unix epoch.
///
/// Calls `chrono::DateTime::from_timestamp(secs, 0)`, which gives `None` where the
/// instant lies outside the dates `chrono` represents, and formats the date with
/// `%Y`. The result is named `utc_year_of`: it depends on `secs` alone.
#[verifier::external_body]
fn utc_year(secs: i64) -> (r: Option<String>)
    ensures
        match r {
            Some(y) => utc_year_of(secs as int) == Some(y@),
            None => utc_year_of(secs as int) is None,
        },
{
    chrono::DateTime::from_timestamp(secs, 0).map(|t| t.format("%Y").to_string())
}

/// Whether `year` is what the footer may hold: nothing, or the UTC year of some
/// instant.
pub open spec fn clock_year(year: Seq<char>) -> bool {
    year.len() == 0 || exists|secs: int| utc_year_of(secs) == Some(year)
}

/// The whole seconds since the Unix epoch of a clock reading, as
/// `duration_since(UNIX_EPOCH)` gives it: `Ok` with the seconds after the epoch, or
/// `Err` with the seconds and nanoseconds before it, rounded down to whole seconds;
/// `None` where they do not fit an `i64`.
pub open spec fn clock_seconds(reading: Result<u64, (u64, u32)>) -> Option<int> {
    match reading {
        Ok(s) => if s <= i64::MAX {
            Some(s as int)
        } else {
            None
        },
        Err((s, n)) => if s < i64::MAX {
            Some(if n > 0 {
                -s - 1
            } else {
                -s
            })
        } else {
            None
        },
    }
}

/// The whole seconds since the Unix epoch of a clock reading, rounded down.
pub fn seconds_from_clock(reading: Result<u64, (u64, u32)>) -> (r: Option<i64>)
    ensures
        match clock_seconds(reading) {
            Some(s) => r == Some(s as i64),
            None => r is None,
        },
{
    match reading {
        Ok(secs) => {
            if secs <= 9223372036854775807u64 {
                Some(secs as i64)
            } else {
                None
            }
        },
        Err((secs, nanos)) => {
            if secs < 9223372036854775807u64 {
                let back = secs as i64;
                if nanos > 0 {
                    Some(-back - 1)
                } else {
                    Some(-back)
                }
            } else {
                None
            }
        },
    }
}

/// The UTC year of a clock reading: `utc_year_of` its whole seconds, rounded down;
/// `None` where they do not fit an `i64` or `chrono` cannot represent the instant.
pub fn year_from_clock(reading: Result<u64, (u64, u32)>) -> (r: Option<String>)
    ensures
        match clock_seconds(reading) {
            Some(s) => match r {
                Some(y) => utc_year_of(s) == Some(y@),
                None => utc_year_of(s) is None,
            },
            None => r is None,
        },
{
    match seconds_from_clock(reading) {
        Some(secs) => utc_year(secs),
        None => None,
    }
}

/// The current UTC year: `year_from_clock` of a reading of the system clock.
pub(crate) fn current_year() -> (r: Option<String>)
    ensures
        r matches Some(y) ==> exists|secs: int| utc_year_of(secs) == Some(y@),
{
    let reading = unix_clock_now();
    let r = year_from_clock(reading);
    proof {
        if r is Some {
            let s = clock_seconds(reading)->0;
            assert(utc_year_of(s) == Some(r->0@));
        }
    }
    r
}

fn push_footer_links(html: &mut String, links: &Vec<LinkConfig>)
    ensures
        final(html)@ == old(html)@ + concat_map(links@, |l: LinkConfig| footer_link(l)),
{
    let ghost f = |l: LinkConfig| footer_link(l);
    let ghost start = html@;
    let mut i: usize = 0;
    while i < links.len()
        invariant
            i <= links@.len(),
            f == (|l: LinkConfig| footer_link(l)),
            html@ == start + concat_map(links@.take(i as int), f),
        decreases links@.len() - i,
    {
        let link = &links[i];
        html.append(LIST_LINK_OPEN);
        push_escaped(link.href.as_str(), html);
        html.append(LINK_TEXT);
        push_escaped(link.label.as_str(), html);
        html.append(LIST_LINK_CLOSE);
        proof {
            lemma_concat_map_step(links@, f, i as int);
        }
        i = i + 1;
    }
    assert(links@.take(i as int) =~= links@);
}

fn push_copyright_line(html: &mut String, config: &OxidocConfig, year: &str)
    ensures
        final(html)@ == old(html)@ + copyright_line(*config, year@),
{
    if let Some(owner) = &config.footer.copyright_owner {
        html.append(COPYRIGHT_PREFIX);
        if year.unicode_len() > 0 {
            html.append(year);
            html.append(" ");
        }
        if let Some(url) = &config.footer.copyright_owner_url {
            html.append("<a href=\"");
            push_escaped(url.as_str(), html);
            html.append(LINK_TEXT);
            push_escaped(owner.as_str(), html);
            html.append("</a>");
        } else {
            push_escaped(owner.as_str(), html);
        }
        html.append(".");
        if config.attribution.oxidoc {
            html.append(" ");
            html.append(BUILT_WITH);
        }
    } else if config.attribution.oxidoc {
        html.append(BUILT_WITH);
    }
}

/// Render the site footer from config for the given year, with optional attribution.
/// An empty year is left out of the copyright notice.
pub fn render_footer_for_year(config: &OxidocConfig, year: &str) -> (r: String)
    ensures
        r@ == footer_html(*config, year@),
{
    let has_copyright = config.footer.copyright_owner.is_some();
    let has_links = config.footer.links.len() > 0;
    let has_attribution = config.attribution.oxidoc;
    if !has_copyright && !has_links && !has_attribution {
        return String::new();
    }
    let mut html = String::from_str(FOOTER_OPEN);
    if has_links {
        html.append(FOOTER_LINKS_OPEN);
        push_footer_links(&mut html, &config.footer.links);
        html.append("</ul></nav>");
    }
    if has_copyright || has_attribution {
        html.append(FOOTER_COPYRIGHT_OPEN);
        push_copyright_line(&mut html, config, year);
        html.append("</p>");
    }
    html.append("</footer>");
    html
}

/// Render the site footer from config, with the current year in the copyright notice
/// (left out where the clock cannot give one).
pub fn render_footer(config: &OxidocConfig) -> (r: String)
    ensures
        exists|year: Seq<char>| clock_year(year) && r@ == footer_html(*config, year),
{
    proof {
        reveal_strlit("");
    }
    match current_year() {
        Some(year) => {
            proof {
                assert(clock_year(year@));
            }
            render_footer_for_year(config, year.as_str())
        },
        None => {
            proof {
                assert(clock_year(""@));
            }
            render_footer_for_year(config, "")
        },
    }
}

// ---------------------------------------------------------------------------
// Page meta bar
// ---------------------------------------------------------------------------

/// Info about adjacent pages for prev/next navigation.
#[derive(Debug, Default)]
pub struct PageNav {
    /// (slug, title)
    pub prev: Option<(String, String)>,
    pub next: Option<(String, String)>,
}

/// Git metadata for a page.
#[derive(Debug, Default)]
pub struct PageGitMeta {
    /// formatted date like "Mar 6, 2026"
    pub last_updated: Option<String>,
    pub last_author: Option<String>,
}

/// `s` without its trailing occurrences of `c`.
pub open spec fn trim_end_char(s: Seq<char>, c: char) -> Seq<char>
    decreases s.len(),
{
    if s.len() > 0 && s.last() == c {
        trim_end_char(s.drop_last(), c)
    } else {
        s
    }
}

/// Whether `slug` is the homepage's slug.
pub open spec fn is_homepage(homepage_slug: Option<&str>, slug: Seq<char>) -> bool {
    match homepage_slug {
        Some(h) => h@ == slug,
        None => false,
    }
}

pub const META_OPEN: &'static str = "<div class=\"oxidoc-page-meta\">";

pub const META_ROW_OPEN: &'static str = "<div class=\"oxidoc-page-meta-row\">";

pub const EDIT_LINK_OPEN: &'static str = "<a href=\"";

pub const EDIT_LINK_ATTRS: &'static str = "\" class=\"oxidoc-edit-link\" target=\"_blank\" rel=\"noopener\">";

pub const EMPTY_SPAN: &'static str = "<span></span>";

pub const UPDATED_OPEN: &'static str = "<span class=\"oxidoc-last-updated\">Last updated on <strong>";

pub const PAGE_NAV_OPEN: &'static str = "<nav class=\"oxidoc-page-nav\" aria-label=\"Page navigation\">";

pub const PREV_LINK_ATTRS: &'static str = "\" class=\"oxidoc-page-nav-prev\"><span class=\"oxidoc-page-nav-label\">Previous</span><span class=\"oxidoc-page-nav-title\">&laquo; ";

pub const NEXT_LINK_ATTRS: &'static str = "\" class=\"oxidoc-page-nav-next\"><span class=\"oxidoc-page-nav-label\">Next</span><span class=\"oxidoc-page-nav-title\">";

pub const NEXT_TITLE_END: &'static str = " &raquo;</span></a>";

/// Where "Edit this page" points: the edit base without trailing slashes, then
/// `/<slug>.rdx?plain=1`.
pub open spec fn edit_href(base: Seq<char>, slug: Seq<char>) -> Seq<char> {
    trim_end_char(base, '/') + "/"@ + slug + ".rdx?plain=1"@
}

/// The row with the edit link (or an empty span) and the last-updated note.
pub open spec fn meta_row(c: OxidocConfig, slug: Seq<char>, git: PageGitMeta) -> Seq<char> {
    META_ROW_OPEN@ + (match c.project.edit_url {
        Some(base) => EDIT_LINK_OPEN@ + esc(edit_href(base@, slug)) + EDIT_LINK_ATTRS@ + esc(
            c.project.edit_label@,
        ) + "</a>"@,
        None => EMPTY_SPAN@,
    }) + (match git.last_updated {
        Some(date) => UPDATED_OPEN@ + esc(date@) + "</strong>"@ + (match git.last_author {
            Some(author) => " by "@ + esc(author@),
            None => Seq::<char>::empty(),
        }) + "</span>"@,
        None => Seq::<char>::empty(),
    }) + "</div>"@
}

/// The link target of an adjacent page: `/` for the homepage, else `/<slug>` escaped.
pub open spec fn nav_href(slug: Seq<char>, homepage_slug: Option<&str>) -> Seq<char> {
    if is_homepage(homepage_slug, slug) {
        "/"@
    } else {
        "/"@ + esc(slug)
    }
}

pub open spec fn prev_link(p: Option<(String, String)>, homepage_slug: Option<&str>) -> Seq<char> {
    match p {
        Some((slug, title)) => EDIT_LINK_OPEN@ + nav_href(slug@, homepage_slug) + PREV_LINK_ATTRS@
            + esc(title@) + "</span></a>"@,
        None => EMPTY_SPAN@,
    }
}

pub open spec fn next_link(n: Option<(String, String)>, homepage_slug: Option<&str>) -> Seq<char> {
    match n {
        Some((slug, title)) => EDIT_LINK_OPEN@ + nav_href(slug@, homepage_slug) + NEXT_LINK_ATTRS@
            + esc(title@) + NEXT_TITLE_END@,
        None => EMPTY_SPAN@,
    }
}

/// The page-bottom meta bar: empty when there is no edit link, no last-updated date
/// and no adjacent page.
pub open spec fn page_meta_html(
    c: OxidocConfig,
    slug: Seq<char>,
    nav: PageNav,
    git: PageGitMeta,
    homepage_slug: Option<&str>,
) -> Seq<char> {
    let has_edit = c.project.edit_url is Some;
    let has_git = git.last_updated is Some;
    let has_nav = nav.prev is Some || nav.next is Some;
    if !has_edit && !has_git && !has_nav {
        Seq::<char>::empty()
    } else {
        META_OPEN@ + (if has_edit || has_git {
            meta_row(c, slug, git)
        } else {
            Seq::<char>::empty()
        }) + (if has_nav {
            PAGE_NAV_OPEN@ + prev_link(nav.prev, homepage_slug) + next_link(nav.next, homepage_slug)
                + "</nav>"@
        } else {
            Seq::<char>::empty()
        }) + "</div>"@
    }
}

fn is_homepage_exec(homepage_slug: Option<&str>, slug: &str) -> (r: bool)
    ensures
        r == is_homepage(homepage_slug, slug@),
{
    match homepage_slug {
        Some(h) => str_eq(h, slug),
        None => false,
    }
}

/// The characters of `s` without its trailing `/`s.
fn trim_trailing_slashes(s: &str) -> (r: Vec<char>)
    ensures
        r@ == trim_end_char(s@, '/'),
{
    let chars = chars_of(s);
    let mut n: usize = chars.len();
    assert(chars@.take(n as int) =~= chars@);
    while n > 0 && chars[n - 1] == '/'
        invariant
            n <= chars@.len(),
            trim_end_char(chars@.take(n as int), '/') == trim_end_char(s@, '/'),
            chars@ == s@,
        decreases n,
    {
        assert(chars@.take(n as int).drop_last() =~= chars@.take(n - 1));
        n = n - 1;
    }
    assert(chars@.take(n as int) =~= chars@.subrange(0, n as int));
    sub_chars(&chars, 0, n)
}

#[verifier::spinoff_prover]
#[verifier::rlimit(40)]
fn push_meta_row(html: &mut String, config: &OxidocConfig, slug: &str, git_meta: &PageGitMeta)
    ensures
        final(html)@ == old(html)@ + meta_row(*config, slug@, *git_meta),
{
    html.append(META_ROW_OPEN);
    if let Some(base) = &config.project.edit_url {
        let mut href = string_from_chars(&trim_trailing_slashes(base.as_str()));
        href.append("/");
        href.append(slug);
        href.append(".rdx?plain=1");
        html.append(EDIT_LINK_OPEN);
        push_escaped(href.as_str(), html);
        html.append(EDIT_LINK_ATTRS);
        push_escaped(config.project.edit_label.as_str(), html);
        html.append("</a>");
    } else {
        html.append(EMPTY_SPAN);
    }
    if let Some(date) = &git_meta.last_updated {
        html.append(UPDATED_OPEN);
        push_escaped(date.as_str(), html);
        html.append("</strong>");
        if let Some(author) = &git_meta.last_author {
            html.append(" by ");
            push_escaped(author.as_str(), html);
        }
        html.append("</span>");
    }
    html.append("</div>");
}

fn push_nav_href(html: &mut String, slug: &str, homepage_slug: Option<&str>)
    ensures
        final(html)@ == old(html)@ + nav_href(slug@, homepage_slug),
{
    if is_homepage_exec(homepage_slug, slug) {
        html.append("/");
    } else {
        html.append("/");
        push_escaped(slug, html);
    }
}

fn push_page_nav(html: &mut String, nav: &PageNav, homepage_slug: Option<&str>)
    ensures
        final(html)@ == old(html)@ + PAGE_NAV_OPEN@ + prev_link(nav.prev, homepage_slug)
            + next_link(nav.next, homepage_slug) + "</nav>"@,
{
    html.append(PAGE_NAV_OPEN);
    if let Some((slug, title)) = &nav.prev {
        html.append(EDIT_LINK_OPEN);
        push_nav_href(html, slug.as_str(), homepage_slug);
        html.append(PREV_LINK_ATTRS);
        push_escaped(title.as_str(), html);
        html.append("</span></a>");
    } else {
        html.append(EMPTY_SPAN);
    }
    if let Some((slug, title)) = &nav.next {
        html.append(EDIT_LINK_OPEN);
        push_nav_href(html, slug.as_str(), homepage_slug);
        html.append(NEXT_LINK_ATTRS);
        push_escaped(title.as_str(), html);
        html.append(NEXT_TITLE_END);
    } else {
        html.append(EMPTY_SPAN);
    }
    html.append("</nav>");
}

/// Render the page-bottom meta bar: "Edit this page" link, last-updated, and prev/next nav.
pub fn render_page_meta(
    config: &OxidocConfig,
    slug: &str,
    nav: &PageNav,
    git_meta: &PageGitMeta,
    homepage_slug: Option<&str>,
) -> (r: String)
    ensures
        r@ == page_meta_html(*config, slug@, *nav, *git_meta, homepage_slug),
{
    let has_edit = config.project.edit_url.is_some();
    let has_git = git_meta.last_updated.is_some();
    let has_nav = nav.prev.is_some() || nav.next.is_some();
    if !has_edit && !has_git && !has_nav {
        return String::new();
    }
    let mut html = String::from_str(META_OPEN);
    if has_edit || has_git {
        push_meta_row(&mut html, config, slug, git_meta);
    }
    if has_nav {
        push_page_nav(&mut html, nav, homepage_slug);
    }
    html.append("</div>");
    html
}

// ---------------------------------------------------------------------------
// Sidebar
// ---------------------------------------------------------------------------

pub const GROUP_OPEN_TITLED: &'static str = "<div class=\"oxidoc-nav-group\"><h3 class=\"oxidoc-nav-title\">";

pub const GROUP_TITLE_END: &'static str = "</h3><ul>";

pub const GROUP_OPEN_PLAIN: &'static str = "<div class=\"oxidoc-nav-group\"><ul>";

pub const ACTIVE_ATTRS: &'static str = " class=\"active\" aria-current=\"page\"";

pub const GROUP_CLOSE: &'static str = "</ul></div>";

pub const INDEX_SUFFIX: &'static str = "/index";

/// The link target of a page: `/` for the homepage; `/<parent>` for a slug
/// `<parent>/index`; else `/<slug>` (escaped).
pub open spec fn page_href(slug: Seq<char>, homepage_slug: Option<&str>) -> Seq<char> {
    if is_homepage(homepage_slug, slug) {
        "/"@
    } else if ends_with(slug, INDEX_SUFFIX@) {
        "/"@ + esc(slug.subrange(0, slug.len() - INDEX_SUFFIX@.len()))
    } else {
        "/"@ + esc(slug)
    }
}

/// A sidebar entry: a link to the page with its short title, marked as the current
/// page when its slug is `active`.
pub open spec fn sidebar_item(p: PageEntry, active: Seq<char>, homepage_slug: Option<&str>) -> Seq<char> {
    LIST_LINK_OPEN@ + page_href(p.slug@, homepage_slug) + "\""@ + (if p.slug@ == active {
        ACTIVE_ATTRS@
    } else {
        Seq::<char>::empty()
    }) + ">"@ + esc(p.short_title@) + LIST_LINK_CLOSE@
}

/// A navigation group: nothing when it has no pages; else its title (when not empty)
/// and the list of its pages.
pub open spec fn sidebar_group(g: NavGroup, active: Seq<char>, homepage_slug: Option<&str>) -> Seq<char> {
    if g.pages@.len() == 0 {
        Seq::<char>::empty()
    } else {
        (if g.title@.len() == 0 {
            GROUP_OPEN_PLAIN@
        } else {
            GROUP_OPEN_TITLED@ + esc(g.title@) + GROUP_TITLE_END@
        }) + concat_map(g.pages@, |p: PageEntry| sidebar_item(p, active, homepage_slug))
            + GROUP_CLOSE@
    }
}

/// The sidebar: the navigation groups in order.
pub open spec fn sidebar_html(groups: Seq<NavGroup>, active: Seq<char>, homepage_slug: Option<&str>) -> Seq<char> {
    concat_map(groups, |g: NavGroup| sidebar_group(g, active, homepage_slug))
}

fn push_page_href(html: &mut String, slug: &str, homepage_slug: Option<&str>)
    ensures
        final(html)@ == old(html)@ + page_href(slug@, homepage_slug),
{
    html.append("/");
    if is_homepage_exec(homepage_slug, slug) {
        return;
    }
    let chars = chars_of(slug);
    let suffix = chars_of(INDEX_SUFFIX);
    if chars_end_with(&chars, &suffix) {
        let parent = string_from_chars(&sub_chars(&chars, 0, chars.len() - suffix.len()));
        push_escaped(parent.as_str(), html);
    } else {
        push_escaped(slug, html);
    }
}

fn push_sidebar_item(html: &mut String, page: &PageEntry, active_slug: &str, homepage_slug: Option<&str>)
    ensures
        final(html)@ == old(html)@ + sidebar_item(*page, active_slug@, homepage_slug),
{
    html.append(LIST_LINK_OPEN);
    push_page_href(html, page.slug.as_str(), homepage_slug);
    html.append("\"");
    if str_eq(page.slug.as_str(), active_slug) {
        html.append(ACTIVE_ATTRS);
    }
    html.append(">");
    push_escaped(page.short_title.as_str(), html);
    html.append(LIST_LINK_CLOSE);
}

fn push_sidebar_group(html: &mut String, group: &NavGroup, active_slug: &str, homepage_slug: Option<&str>)
    ensures
        final(html)@ == old(html)@ + sidebar_group(*group, active_slug@, homepage_slug),
{
    if group.pages.len() == 0 {
        return;
    }
    if group.title.as_str().unicode_len() == 0 {
        html.append(GROUP_OPEN_PLAIN);
    } else {
        html.append(GROUP_OPEN_TITLED);
        push_escaped(group.title.as_str(), html);
        html.append(GROUP_TITLE_END);
    }
    let ghost f = |p: PageEntry| sidebar_item(p, active_slug@, homepage_slug);
    let ghost start = html@;
    let mut i: usize = 0;
    while i < group.pages.len()
        invariant
            i <= group.pages@.len(),
            f == (|p: PageEntry| sidebar_item(p, active_slug@, homepage_slug)),
            html@ == start + concat_map(group.pages@.take(i as int), f),
        decreases group.pages@.len() - i,
    {
        push_sidebar_item(html, &group.pages[i], active_slug, homepage_slug);
        proof {
            lemma_concat_map_step(group.pages@, f, i as int);
        }
        i = i + 1;
    }
    assert(group.pages@.take(i as int) =~= group.pages@);
    html.append(GROUP_CLOSE);
}

/// Generate sidebar HTML from resolved navigation groups.
pub fn render_sidebar(groups: &[NavGroup], active_slug: &str) -> (r: String)
    ensures
        r@ == sidebar_html(groups@, active_slug@, None),
{
    render_sidebar_with_homepage(groups, active_slug, None)
}

/// Generate sidebar HTML, linking the homepage's entry to `/`.
pub fn render_sidebar_with_homepage(
    groups: &[NavGroup],
    active_slug: &str,
    homepage_slug: Option<&str>,
) -> (r: String)
    ensures
        r@ == sidebar_html(groups@, active_slug@, homepage_slug),
{
    let mut html = String::new();
    let ghost f = |g: NavGroup| sidebar_group(g, active_slug@, homepage_slug);
    let mut i: usize = 0;
    while i < groups.len()
        invariant
            i <= groups@.len(),
            f == (|g: NavGroup| sidebar_group(g, active_slug@, homepage_slug)),
            html@ == concat_map(groups@.take(i as int), f),
        decreases groups@.len() - i,
    {
        push_sidebar_group(&mut html, &groups[i], active_slug, homepage_slug);
        proof {
            lemma_concat_map_step(groups@, f, i as int);
        }
        i = i + 1;
    }
    assert(groups@.take(i as int) =~= groups@);
    html
}

} // verus!
