//! The header: navigation links, the mobile menu links and the logo.
use vstd::prelude::*;

use crate::config::{HeaderLink, OxidocConfig};
use crate::template_parts::esc;
use crate::text::{concat_map, lemma_concat_map_step};
use crate::utils::{html_escape, push_escaped};

verus! {

broadcast use vstd::string::group_string_axioms;

pub const HEADER_NAV_OPEN: &'static str = "<nav class=\"oxidoc-header-nav\">";

pub const HEADER_LINK_CLASS: &'static str = "\" class=\"oxidoc-header-nav-link\">";

/// A header navigation link.
pub open spec fn header_link(l: HeaderLink) -> Seq<char> {
    "<a href=\""@ + esc(l.href@) + HEADER_LINK_CLASS@ + esc(l.label@) + "</a>"@
}

/// The header navigation: nothing without links.
pub open spec fn header_nav(links: Seq<HeaderLink>) -> Seq<char> {
    if links.len() == 0 {
        Seq::<char>::empty()
    } else {
        HEADER_NAV_OPEN@ + concat_map(links, |l: HeaderLink| header_link(l)) + "</nav>"@
    }
}

/// Build the header navigation links HTML.
pub fn build_header_nav(links: &[HeaderLink]) -> (r: String)
    ensures
        r@ == header_nav(links@),
{
    if links.len() == 0 {
        return String::new();
    }
    let mut html = String::from_str(HEADER_NAV_OPEN);
    let ghost f = |l: HeaderLink| header_link(l);
    let ghost start = html@;
    let mut i: usize = 0;
    while i < links.len()
        invariant
            i <= links@.len(),
            f == (|l: HeaderLink| header_link(l)),
            html@ == start + concat_map(links@.take(i as int), f),
        decreases links@.len() - i,
    {
        html.append("<a href=\"");
        push_escaped(links[i].href.as_str(), &mut html);
        html.append(HEADER_LINK_CLASS);
        push_escaped(links[i].label.as_str(), &mut html);
        html.append("</a>");
        proof {
            lemma_concat_map_step(links@, f, i as int);
        }
        i = i + 1;
    }
    assert(links@.take(i as int) =~= links@);
    html.append("</nav>");
    html
}

pub const MOBILE_NAV_OPEN: &'static str = "<nav class=\"oxidoc-mobile-nav-links\" aria-label=\"Main navigation\"><ul>";

/// A link of the mobile menu.
pub open spec fn mobile_link(l: HeaderLink) -> Seq<char> {
    "<li><a href=\""@ + esc(l.href@) + "\">"@ + esc(l.label@) + "</a></li>"@
}

/// The mobile menu links: nothing without links.
pub open spec fn mobile_nav(links: Seq<HeaderLink>) -> Seq<char> {
    if links.len() == 0 {
        Seq::<char>::empty()
    } else {
        MOBILE_NAV_OPEN@ + concat_map(links, |l: HeaderLink| mobile_link(l)) + "</ul></nav>"@
    }
}

/// Build the mobile menu links (header links rendered as a list for mobile sidebar).
pub fn build_mobile_nav_links(links: &[HeaderLink]) -> (r: String)
    ensures
        r@ == mobile_nav(links@),
{
    if links.len() == 0 {
        return String::new();
    }
    let mut html = String::from_str(MOBILE_NAV_OPEN);
    let ghost f = |l: HeaderLink| mobile_link(l);
    let ghost start = html@;
    let mut i: usize = 0;
    while i < links.len()
        invariant
            i <= links@.len(),
            f == (|l: HeaderLink| mobile_link(l)),
            html@ == start + concat_map(links@.take(i as int), f),
        decreases links@.len() - i,
    {
        html.append("<li><a href=\"");
        push_escaped(links[i].href.as_str(), &mut html);
        html.append("\">");
        push_escaped(links[i].label.as_str(), &mut html);
        html.append("</a></li>");
        proof {
            lemma_concat_map_step(links@, f, i as int);
        }
        i = i + 1;
    }
    assert(links@.take(i as int) =~= links@);
    html.append("</ul></nav>");
    html
}

pub const LOGO_OPEN: &'static str = "<a href=\"/\" class=\"oxidoc-logo\">";

pub const LOGO_IMG_ALT: &'static str = "\" alt=\"";

pub const LOGO_IMG_CLASS: &'static str = "\" class=\"oxidoc-logo-img\"> <span>";

/// The logo link: the logo image and the project name, or the project name alone.
pub open spec fn logo_html(c: OxidocConfig) -> Seq<char> {
    let name = esc(c.project.name@);
    match c.project.logo {
        Some(logo) => LOGO_OPEN@ + "<img src=\""@ + esc(logo@) + LOGO_IMG_ALT@ + name + LOGO_IMG_CLASS@
            + name + "</span></a>"@,
        None => LOGO_OPEN@ + name + "</a>"@,
    }
}

/// Generate the logo HTML for the header, and the escaped project name.
pub fn render_logo_html(config: &OxidocConfig) -> (r: (String, String))
    ensures
        r.0@ == logo_html(*config),
        r.1@ == esc(config.project.name@),
{
    let safe_name = html_escape(config.project.name.as_str());
    let mut logo = String::from_str(LOGO_OPEN);
    match &config.project.logo {
        Some(l) => {
            logo.append("<img src=\"");
            push_escaped(l.as_str(), &mut logo);
            logo.append(LOGO_IMG_ALT);
            logo.append(safe_name.as_str());
            logo.append(LOGO_IMG_CLASS);
            logo.append(safe_name.as_str());
            logo.append("</span></a>");
        },
        None => {
            logo.append(safe_name.as_str());
            logo.append("</a>");
        },
    }
    (logo, safe_name)
}

} // verus!
