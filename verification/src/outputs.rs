//! The contents of the site-wide files: sitemap, robots.txt, the root redirect and the
//! configured redirect pages.
use vstd::prelude::*;

use crate::config::{NavGroup, OxidocConfig, PageEntry, RedirectEntry};
use crate::layout::{contains_text, holds_at, laid_out, lemma_concat_map_append, lemma_laid_out};
use crate::template_parts::{esc, trim_end_char};
use crate::text::{
    chars_end_with, chars_of, concat_map, ends_with, lemma_concat_map_step, push_char,
    string_from_chars, sub_chars,
};
use crate::utils::push_escaped;
use crate::openapi::nav::trim_start_char;

verus! {

broadcast use vstd::string::group_string_axioms;

// ---------------------------------------------------------------------------
// Sitemap
// ---------------------------------------------------------------------------

pub const SITEMAP_HEAD: &'static str = "<?xml version=\"1.0\" encoding=\"UTF-8\"?>\n<urlset xmlns=\"http://www.sitemaps.org/schemas/sitemap/0.9\">\n";

pub const SITEMAP_TAIL: &'static str = "\n</urlset>\n";

/// The URL of a page: the base URL without trailing slashes, `/`, the slug.
pub open spec fn page_url(base_url: Seq<char>, slug: Seq<char>) -> Seq<char> {
    trim_end_char(base_url, '/') + "/"@ + slug
}

/// The sitemap entry of one page.
pub open spec fn sitemap_entry(base_url: Seq<char>, p: PageEntry) -> Seq<char> {
    "  <url><loc>"@ + esc(page_url(base_url, p.slug@)) + "</loc></url>\n"@
}

/// The sitemap entries of one group's pages.
pub open spec fn sitemap_group(base_url: Seq<char>, g: NavGroup) -> Seq<char> {
    concat_map(g.pages@, |p: PageEntry| sitemap_entry(base_url, p))
}

/// The sitemap: one `<url>` per page, in navigation order.
pub open spec fn sitemap(groups: Seq<NavGroup>, base_url: Seq<char>) -> Seq<char> {
    SITEMAP_HEAD@ + concat_map(groups, |g: NavGroup| sitemap_group(base_url, g)) + SITEMAP_TAIL@
}

fn push_sitemap_group(xml: &mut String, base: &[char], base_url: &str, group: &NavGroup)
    requires
        base@ == trim_end_char(base_url@, '/'),
    ensures
        final(xml)@ == old(xml)@ + sitemap_group(base_url@, *group),
{
    let ghost f = |p: PageEntry| sitemap_entry(base_url@, p);
    let ghost start = xml@;
    let mut i: usize = 0;
    while i < group.pages.len()
        invariant
            i <= group.pages@.len(),
            base@ == trim_end_char(base_url@, '/'),
            f == (|p: PageEntry| sitemap_entry(base_url@, p)),
            xml@ == start + concat_map(group.pages@.take(i as int), f),
        decreases group.pages@.len() - i,
    {
        let mut url = string_from_chars(base);
        url.append("/");
        url.append(group.pages[i].slug.as_str());
        xml.append("  <url><loc>");
        push_escaped(url.as_str(), xml);
        xml.append("</loc></url>\n");
        proof {
            lemma_concat_map_step(group.pages@, f, i as int);
        }
        i = i + 1;
    }
    assert(group.pages@.take(i as int) =~= group.pages@);
}

/// The characters of `s` without its trailing `/`s.
fn without_trailing_slashes(s: &str) -> (r: Vec<char>)
    ensures
        r@ == trim_end_char(s@, '/'),
{
    let chars = chars_of(s);
    let mut n: usize = chars.len();
    assert(chars@.take(n as int) =~= chars@);
    while n > 0 && chars[n - 1] == '/'
        invariant
            n <= chars@.len(),
            chars@ == s@,
            trim_end_char(chars@.take(n as int), '/') == trim_end_char(s@, '/'),
        decreases n,
    {
        assert(chars@.take(n as int).drop_last() =~= chars@.take(n - 1));
        n = n - 1;
    }
    assert(chars@.take(n as int) =~= chars@.subrange(0, n as int));
    sub_chars(&chars, 0, n)
}

/// The content of `sitemap.xml` for the pages of the navigation.
pub fn sitemap_xml(nav_groups: &[NavGroup], base_url: &str) -> (r: String)
    ensures
        r@ == sitemap(nav_groups@, base_url@),
{
    let base = without_trailing_slashes(base_url);
    let mut xml = String::from_str(SITEMAP_HEAD);
    let ghost f = |g: NavGroup| sitemap_group(base_url@, g);
    let ghost start = xml@;
    let mut k: usize = 0;
    while k < nav_groups.len()
        invariant
            k <= nav_groups@.len(),
            base@ == trim_end_char(base_url@, '/'),
            f == (|g: NavGroup| sitemap_group(base_url@, g)),
            xml@ == start + concat_map(nav_groups@.take(k as int), f),
        decreases nav_groups@.len() - k,
    {
        push_sitemap_group(&mut xml, &base, base_url, &nav_groups[k]);
        proof {
            lemma_concat_map_step(nav_groups@, f, k as int);
        }
        k = k + 1;
    }
    assert(nav_groups@.take(k as int) =~= nav_groups@);
    xml.append(SITEMAP_TAIL);
    xml
}

// ---------------------------------------------------------------------------
// robots.txt
// ---------------------------------------------------------------------------

/// The pages of the navigation, group after group, each group's pages in order.
pub open spec fn nav_pages(groups: Seq<NavGroup>) -> Seq<PageEntry>
    decreases groups.len(),
{
    if groups.len() == 0 {
        Seq::<PageEntry>::empty()
    } else {
        nav_pages(groups.drop_last()) + groups.last().pages@
    }
}

/// The `<url>` entry of a page: its location is the base URL without trailing
/// slashes, `/` and the page's slug, escaped.
pub open spec fn url_entry(base_url: Seq<char>, p: PageEntry) -> Seq<char> {
    "  <url><loc>"@ + esc(trim_end_char(base_url, '/') + "/"@ + p.slug@) + "</loc></url>\n"@
}

proof fn lemma_sitemap_flat(groups: Seq<NavGroup>, base_url: Seq<char>)
    ensures
        concat_map(groups, |g: NavGroup| sitemap_group(base_url, g)) == concat_map(
            nav_pages(groups),
            |p: PageEntry| url_entry(base_url, p),
        ),
    decreases groups.len(),
{
    let e = |p: PageEntry| url_entry(base_url, p);
    if groups.len() == 0 {
        assert(concat_map(nav_pages(groups), e) =~= Seq::<char>::empty());
    } else {
        lemma_sitemap_flat(groups.drop_last(), base_url);
        lemma_concat_map_append(nav_pages(groups.drop_last()), groups.last().pages@, e);
        assert((|p: PageEntry| sitemap_entry(base_url, p)) =~= e);
    }
}

/// Law: the sitemap is exactly its header, then one `<url>` entry per page of the
/// navigation, group after group and page after page (so as many entries as there
/// are pages), then its closing tag.
pub proof fn law_sitemap_one_entry_per_page(groups: Seq<NavGroup>, base_url: Seq<char>)
    ensures
        laid_out(
            sitemap(groups, base_url),
            SITEMAP_HEAD@,
            nav_pages(groups),
            |p: PageEntry| url_entry(base_url, p),
            SITEMAP_TAIL@,
        ),
{
    lemma_sitemap_flat(groups, base_url);
    lemma_laid_out(SITEMAP_HEAD@, nav_pages(groups), |p: PageEntry| url_entry(base_url, p), SITEMAP_TAIL@);
}

proof fn lemma_nav_pages_prefix(groups: Seq<NavGroup>, j: int)
    requires
        0 <= j <= groups.len(),
    ensures
        nav_pages(groups.take(j)).len() <= nav_pages(groups).len(),
        nav_pages(groups).subrange(0, nav_pages(groups.take(j)).len() as int) == nav_pages(groups.take(j)),
    decreases groups.len(),
{
    if j == groups.len() {
        assert(groups.take(j) =~= groups);
        assert(nav_pages(groups).subrange(0, nav_pages(groups).len() as int) =~= nav_pages(groups));
    } else {
        let d = groups.drop_last();
        assert(d.take(j) =~= groups.take(j));
        lemma_nav_pages_prefix(d, j);
        let n = nav_pages(d);
        let p = nav_pages(groups.take(j));
        assert((n + groups.last().pages@).subrange(0, p.len() as int) =~= n.subrange(0, p.len() as int));
    }
}

/// Law: every page of every navigation group has its `<url>` entry in the sitemap.
pub proof fn law_sitemap_has_every_page(groups: Seq<NavGroup>, base_url: Seq<char>, g: int, p: int)
    requires
        0 <= g < groups.len(),
        0 <= p < groups[g].pages@.len(),
    ensures
        contains_text(sitemap(groups, base_url), url_entry(base_url, groups[g].pages@[p])),
{
    let pages = nav_pages(groups);
    let before = nav_pages(groups.take(g));
    lemma_nav_pages_prefix(groups, g + 1);
    let upto = nav_pages(groups.take(g + 1));
    assert(groups.take(g + 1).drop_last() =~= groups.take(g));
    assert(upto == before + groups[g].pages@);
    let k = before.len() + p;
    assert(upto[k] == groups[g].pages@[p]);
    assert(pages.subrange(0, upto.len() as int)[k] == upto[k]);
    assert(pages[k] == groups[g].pages@[p]);
    law_sitemap_one_entry_per_page(groups, base_url);
    let f = |q: PageEntry| url_entry(base_url, q);
    assert(holds_at(sitemap(groups, base_url), (SITEMAP_HEAD@.len() + crate::layout::pieces_len(pages.take(k), f)) as int, f(pages[k])));
}

/// The URL of the sitemap under the base URL.
pub open spec fn sitemap_url(base_url: Seq<char>) -> Seq<char> {
    if ends_with(base_url, "/"@) {
        base_url + "sitemap.xml"@
    } else {
        base_url + "/sitemap.xml"@
    }
}

/// The content of `robots.txt`: allow all crawling and point to the sitemap.
pub open spec fn robots(base_url: Seq<char>) -> Seq<char> {
    "User-agent: *\nAllow: /\nSitemap: "@ + sitemap_url(base_url) + "\n"@
}

/// The content of `robots.txt` for the base URL.
pub fn robots_txt(base_url: &str) -> (r: String)
    ensures
        r@ == robots(base_url@),
{
    let mut content = String::from_str("User-agent: *\nAllow: /\nSitemap: ");
    content.append(base_url);
    let chars = chars_of(base_url);
    let slash = chars_of("/");
    if chars_end_with(&chars, &slash) {
        content.append("sitemap.xml");
    } else {
        content.append("/sitemap.xml");
    }
    content.append("\n");
    content
}

/// The base URL of the site, `/` when none is configured.
pub open spec fn site_base_url(c: OxidocConfig) -> Seq<char> {
    match c.project.base_url {
        Some(b) => b@,
        None => "/"@,
    }
}

/// The generated SEO files: the sitemap and robots.txt for the configured base URL.
pub fn generate_seo_files(nav_groups: &[NavGroup], config: &OxidocConfig) -> (r: (String, String))
    ensures
        r.0@ == sitemap(nav_groups@, site_base_url(*config)),
        r.1@ == robots(site_base_url(*config)),
{
    let base_url: &str = match &config.project.base_url {
        Some(b) => b.as_str(),
        None => "/",
    };
    (sitemap_xml(nav_groups, base_url), robots_txt(base_url))
}

// ---------------------------------------------------------------------------
// Redirects
// ---------------------------------------------------------------------------

/// The slug of the first page of the navigation, if any.
pub open spec fn first_slug(groups: Seq<NavGroup>) -> Option<Seq<char>>
    decreases groups.len(),
{
    if groups.len() == 0 {
        None
    } else if groups[0].pages@.len() > 0 {
        Some(groups[0].pages@[0].slug@)
    } else {
        first_slug(groups.drop_first())
    }
}

pub const REDIRECT_HEAD: &'static str = "<!DOCTYPE html>\n<html>\n<head><meta http-equiv=\"refresh\" content=\"0; url=";

pub const REDIRECT_LINK: &'static str = "\"></head>\n<body><a href=\"";

pub const REDIRECT_TAIL: &'static str = "\">Redirecting...</a></body>\n</html>";

/// A page that redirects at once to `target`.
pub open spec fn redirect_page(target: Seq<char>) -> Seq<char> {
    REDIRECT_HEAD@ + target + REDIRECT_LINK@ + target + REDIRECT_TAIL@
}

fn redirect_page_exec(target: &str) -> (r: String)
    ensures
        r@ == redirect_page(target@),
{
    let mut html = String::from_str(REDIRECT_HEAD);
    html.append(target);
    html.append(REDIRECT_LINK);
    html.append(target);
    html.append(REDIRECT_TAIL);
    html
}

/// The root `index.html` that redirects to the first page; none without pages.
pub fn index_redirect_html(nav_groups: &[NavGroup]) -> (r: Option<String>)
    ensures
        match first_slug(nav_groups@) {
            Some(slug) => r matches Some(h) && h@ == redirect_page("/"@ + slug),
            None => r is None,
        },
{
    let mut k: usize = 0;
    assert(nav_groups@.skip(0) =~= nav_groups@);
    while k < nav_groups.len()
        invariant
            k <= nav_groups@.len(),
            first_slug(nav_groups@) == first_slug(nav_groups@.skip(k as int)),
        decreases nav_groups@.len() - k,
    {
        assert(nav_groups@.skip(k as int)[0] == nav_groups@[k as int]);
        if nav_groups[k].pages.len() > 0 {
            let mut target = String::from_str("/");
            target.append(nav_groups[k].pages[0].slug.as_str());
            return Some(redirect_page_exec(target.as_str()));
        }
        assert(nav_groups@.skip(k as int).drop_first() =~= nav_groups@.skip(k + 1));
        k = k + 1;
    }
    None
}

/// The file name of a redirect page: the source path without leading `/`, with `/`
/// as `-`, and `.html`; `index.html` when nothing is left.
pub open spec fn redirect_file_name(from: Seq<char>) -> Seq<char> {
    let p = concat_map(trim_start_char(from, '/'), |c: char| if c == '/' { seq!['-'] } else { seq![c] });
    if p.len() == 0 {
        "index.html"@
    } else {
        p + ".html"@
    }
}

/// The file name and the content of the page for a configured redirect.
pub fn redirect_file(redirect: &RedirectEntry) -> (r: (String, String))
    ensures
        r.0@ == redirect_file_name(redirect.from@),
        r.1@ == redirect_page(esc(redirect.to@)),
{
    let chars = chars_of(redirect.from.as_str());
    let mut start: usize = 0;
    assert(chars@.skip(0) =~= chars@);
    while start < chars.len() && chars[start] == '/'
        invariant
            start <= chars@.len(),
            chars@ == redirect.from@,
            trim_start_char(chars@.skip(start as int), '/') == trim_start_char(redirect.from@, '/'),
        decreases chars@.len() - start,
    {
        assert(chars@.skip(start as int).drop_first() =~= chars@.skip(start + 1));
        start = start + 1;
    }
    let ghost rest = chars@.skip(start as int);
    let ghost f = |c: char| if c == '/' { seq!['-'] } else { seq![c] };
    let mut name = String::new();
    let mut i: usize = start;
    while i < chars.len()
        invariant
            start <= i <= chars@.len(),
            rest == chars@.skip(start as int),
            f == (|c: char| if c == '/' { seq!['-'] } else { seq![c] }),
            name@ == concat_map(rest.take(i - start), f),
        decreases chars@.len() - i,
    {
        let c = chars[i];
        if c == '/' {
            push_char(&mut name, '-');
        } else {
            push_char(&mut name, c);
        }
        proof {
            lemma_concat_map_step(rest, f, i - start);
            assert(rest[i - start] == c);
        }
        i = i + 1;
    }
    assert(rest.take(i - start) =~= rest);
    let file_name = if name.as_str().unicode_len() == 0 {
        String::from_str("index.html")
    } else {
        name.append(".html");
        name
    };
    let mut target = String::new();
    push_escaped(redirect.to.as_str(), &mut target);
    (file_name, redirect_page_exec(target.as_str()))
}

} // verus!
