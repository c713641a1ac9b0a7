//! The pages of the API section: its index and one page per endpoint.
use vstd::prelude::*;

use super::html::{api_index_html, code_block, endpoint_page, playground_props_of, render_api_index, render_endpoint_html};
use super::nav::{endpoint_slug_with_prefix, endpoint_title, endpoint_title_exec, slug_with_prefix, ApiBuildContext};
use super::types::ApiEndpoint;
use crate::config::NavGroup;
use crate::template::meta::find_from;
use crate::template::page::{opt_chars, page_html, render_page_for_year, toc_list_ok, PageChrome};
use crate::template_parts::{
    clock_year,current_year, render_sidebar, sidebar_html};

verus! {

broadcast use vstd::string::group_string_axioms;

/// The code snippets of an endpoint page: its cURL and JavaScript snippets,
/// highlighted (or escaped) as HTML.
#[derive(Debug, Clone)]
pub struct EndpointCode {
    pub curl_html: String,
    pub js_html: String,
}

/// A page without a table of contents needs no cut of one.
proof fn lemma_no_toc()
    ensures
        toc_list_ok(""@),
{
    reveal_strlit("");
    reveal_strlit("<ul>");
    assert(find_from(""@, "<ul>"@, 0) is None);
}

/// The index page of the API section, for the given year in the footer.
pub open spec fn api_index_page(
    endpoints: Seq<ApiEndpoint>,
    spec_title: Seq<char>,
    groups: Seq<NavGroup>,
    prefix: Seq<char>,
    ctx: ApiBuildContext,
    locale: Seq<char>,
    switcher: Seq<char>,
    ch: PageChrome,
    year: Seq<char>,
) -> Seq<char> {
    page_html(
        *ctx.config,
        spec_title,
        api_index_html(endpoints, spec_title),
        ""@,
        sidebar_html(groups, prefix + "/index"@, None),
        ""@,
        prefix,
        None,
        ""@,
        *ctx.assets,
        locale,
        switcher,
        *ctx.search_provider,
        false,
        ch,
        year,
    )
}

/// The page of an endpoint, for the given year in the footer.
pub open spec fn api_endpoint_page(
    ep: ApiEndpoint,
    base_url: Option<Seq<char>>,
    groups: Seq<NavGroup>,
    prefix: Seq<char>,
    ctx: ApiBuildContext,
    locale: Seq<char>,
    switcher: Seq<char>,
    ch: PageChrome,
    code: EndpointCode,
    breadcrumb: Seq<char>,
    year: Seq<char>,
) -> Seq<char> {
    let slug = slug_with_prefix(ep, prefix);
    page_html(
        *ctx.config,
        endpoint_title(ep),
        endpoint_page(
            ep,
            code_block("bash"@, code.curl_html@),
            code_block("javascript"@, code.js_html@),
            playground_props_of(ep, base_url),
        ),
        ""@,
        sidebar_html(groups, slug, None),
        breadcrumb,
        slug,
        None,
        ""@,
        *ctx.assets,
        locale,
        switcher,
        *ctx.search_provider,
        false,
        ch,
        year,
    )
}

fn endpoint_full_page(
    ep: &ApiEndpoint,
    base_url: Option<&str>,
    api_nav_groups: &[NavGroup],
    prefix: &str,
    ctx: &ApiBuildContext,
    locale: &str,
    locale_switcher_html: &str,
    chrome: &PageChrome,
    code: &EndpointCode,
    breadcrumb: &str,
    year: &str,
) -> (r: String)
    ensures
        r@ == api_endpoint_page(
            *ep,
            opt_chars(base_url),
            api_nav_groups@,
            prefix@,
            *ctx,
            locale@,
            locale_switcher_html@,
            *chrome,
            *code,
            breadcrumb@,
            year@,
        ),
{
    proof {
        lemma_no_toc();
    }
    let slug = endpoint_slug_with_prefix(ep, prefix);
    let content_html = render_endpoint_html(ep, base_url, code.curl_html.as_str(), code.js_html.as_str());
    let title = endpoint_title_exec(ep);
    let sidebar = render_sidebar(api_nav_groups, slug.as_str());
    render_page_for_year(
        ctx.config,
        title.as_str(),
        content_html.as_str(),
        "",
        sidebar.as_str(),
        breadcrumb,
        slug.as_str(),
        None,
        "",
        ctx.assets,
        locale,
        locale_switcher_html,
        ctx.search_provider,
        false,
        chrome,
        year,
    )
}

/// Build the pages of the API section, for the given year in the footers: first its
/// index, at the directory `prefix`, then one page per endpoint, in the order of
/// `endpoints`, at the directory of its slug. Each page is (directory, HTML); it is
/// written as `index.html` in its directory. The section has its own sidebar,
/// `api_nav_groups`. `code` and `breadcrumbs` give each endpoint's code snippets and
/// breadcrumb trail, in the order of `endpoints`.
pub fn build_api_pages_for_year(
    endpoints: &[ApiEndpoint],
    spec_title: &str,
    base_url: Option<&str>,
    api_nav_groups: &[NavGroup],
    prefix: &str,
    ctx: &ApiBuildContext,
    locale: &str,
    locale_switcher_html: &str,
    chrome: &PageChrome,
    code: &[EndpointCode],
    breadcrumbs: &[String],
    year: &str,
) -> (r: Vec<(String, String)>)
    requires
        code@.len() == endpoints@.len(),
        breadcrumbs@.len() == endpoints@.len(),
    ensures
        r@.len() == endpoints@.len() + 1,
        r@[0].0@ == prefix@,
        r@[0].1@ == api_index_page(endpoints@, spec_title@, api_nav_groups@, prefix@, *ctx, locale@, locale_switcher_html@, *chrome, year@),
        forall|i: int|
            0 <= i < endpoints@.len() ==> {
                &&& (#[trigger] r@[i + 1]).0@ == slug_with_prefix(endpoints@[i], prefix@)
                &&& r@[i + 1].1@ == api_endpoint_page(
                    endpoints@[i],
                    opt_chars(base_url),
                    api_nav_groups@,
                    prefix@,
                    *ctx,
                    locale@,
                    locale_switcher_html@,
                    *chrome,
                    code@[i],
                    breadcrumbs@[i]@,
                    year@,
                )
            },
{
    proof {
        lemma_no_toc();
    }
    let config = ctx.config;
    let mut pages: Vec<(String, String)> = Vec::new();
    let index_html = render_api_index(endpoints, spec_title);
    let mut index_slug = String::from_str(prefix);
    index_slug.append("/index");
    let index_sidebar = render_sidebar(api_nav_groups, index_slug.as_str());
    let index_full = render_page_for_year(
        config,
        spec_title,
        index_html.as_str(),
        "",
        index_sidebar.as_str(),
        "",
        prefix,
        None,
        "",
        ctx.assets,
        locale,
        locale_switcher_html,
        ctx.search_provider,
        false,
        chrome,
        year,
    );
    pages.push((String::from_str(prefix), index_full));
    let mut i: usize = 0;
    while i < endpoints.len()
        invariant
            i <= endpoints@.len(),
            code@.len() == endpoints@.len(),
            breadcrumbs@.len() == endpoints@.len(),
            pages@.len() == i + 1,
            pages@[0].0@ == prefix@,
            pages@[0].1@ == api_index_page(endpoints@, spec_title@, api_nav_groups@, prefix@, *ctx, locale@, locale_switcher_html@, *chrome, year@),
            forall|k: int|
                0 <= k < i ==> {
                    &&& (#[trigger] pages@[k + 1]).0@ == slug_with_prefix(endpoints@[k], prefix@)
                    &&& pages@[k + 1].1@ == api_endpoint_page(
                        endpoints@[k],
                        opt_chars(base_url),
                        api_nav_groups@,
                        prefix@,
                        *ctx,
                        locale@,
                        locale_switcher_html@,
                        *chrome,
                        code@[k],
                        breadcrumbs@[k]@,
                        year@,
                    )
                },
        decreases endpoints@.len() - i,
    {
        let slug = endpoint_slug_with_prefix(&endpoints[i], prefix);
        let full_html = endpoint_full_page(
            &endpoints[i],
            base_url,
            api_nav_groups,
            prefix,
            ctx,
            locale,
            locale_switcher_html,
            chrome,
            &code[i],
            breadcrumbs[i].as_str(),
            year,
        );
        pages.push((slug, full_html));
        i = i + 1;
    }
    pages
}

/// Build the pages of the API section, with the current year in the footers (left out
/// where the clock cannot give one); everything else is as `build_api_pages_for_year`
/// states.
pub fn build_api_pages(
    endpoints: &[ApiEndpoint],
    spec_title: &str,
    base_url: Option<&str>,
    api_nav_groups: &[NavGroup],
    prefix: &str,
    ctx: &ApiBuildContext,
    locale: &str,
    locale_switcher_html: &str,
    chrome: &PageChrome,
    code: &[EndpointCode],
    breadcrumbs: &[String],
) -> (r: Vec<(String, String)>)
    requires
        code@.len() == endpoints@.len(),
        breadcrumbs@.len() == endpoints@.len(),
    ensures
        exists|year: Seq<char>|
            {
                &&& clock_year(year)
                &&& r@.len() == endpoints@.len() + 1
                &&& r@[0].0@ == prefix@
                &&& r@[0].1@ == api_index_page(endpoints@, spec_title@, api_nav_groups@, prefix@, *ctx, locale@, locale_switcher_html@, *chrome, year)
                &&& forall|i: int|
                    0 <= i < endpoints@.len() ==> {
                        &&& (#[trigger] r@[i + 1]).0@ == slug_with_prefix(endpoints@[i], prefix@)
                        &&& r@[i + 1].1@ == api_endpoint_page(
                            endpoints@[i],
                            opt_chars(base_url),
                            api_nav_groups@,
                            prefix@,
                            *ctx,
                            locale@,
                            locale_switcher_html@,
                            *chrome,
                            code@[i],
                            breadcrumbs@[i]@,
                            year,
                        )
                    }
            },
{
    proof {
        reveal_strlit("");
    }
    match current_year() {
        Some(year) => {
            proof {
                assert(clock_year(year@));
            }
            build_api_pages_for_year(
            endpoints,
            spec_title,
            base_url,
            api_nav_groups,
            prefix,
            ctx,
            locale,
            locale_switcher_html,
            chrome,
            code,
            breadcrumbs,
            year.as_str(),
        )
        },
        None => {
            proof {
                assert(clock_year(""@));
            }
            build_api_pages_for_year(
            endpoints,
            spec_title,
            base_url,
            api_nav_groups,
            prefix,
            ctx,
            locale,
            locale_switcher_html,
            chrome,
            code,
            breadcrumbs,
            "",
        )
        },
    }
}

} // verus!
