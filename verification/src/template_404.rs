//! The 404 error page.
use vstd::prelude::*;

use crate::config::OxidocConfig;
use crate::search_provider::{head_tags_of, scripts_of, SearchProvider};
use crate::template::nav::{logo_html, render_logo_html};
use crate::template_assets::{
    build_preload_links, build_script_tag, build_stylesheet_link, preload_link, script_tag,
    stylesheet_link, AssetConfig,
};
use crate::template_parts::{
    clock_year,
    analytics_html, current_year, footer_html, render_analytics_script, render_footer_for_year,
};
use crate::template_parts::esc;

verus! {

broadcast use vstd::string::group_string_axioms;

/// The article of the 404 page.
pub const ERROR_404_HTML: &'static str = "<div class=\"oxidoc-error-page\"><h1>404</h1><p>Page Not Found</p><p>The page you are looking for could not be found.</p><a href=\"/\" class=\"oxidoc-error-home\">Return to home</a></div>";

pub const DEFAULT_CSS_PATH: &'static str = "/oxidoc.css";

pub const DEFAULT_JS_PATH: &'static str = "/oxidoc-loader.js";

pub const PAGE_404_LANG: &'static str = "<!DOCTYPE html>\n<html lang=\"";

pub const PAGE_404_LOCALE: &'static str = "\" data-locale=\"";

pub const PAGE_404_HEAD: &'static str = "\">\n<head>\n    <meta charset=\"utf-8\">\n    <meta name=\"viewport\" content=\"width=device-width, initial-scale=1\">\n    <title>Page Not Found - ";

pub const PAGE_404_META: &'static str = "</title>\n    <meta name=\"description\" content=\"The page you are looking for could not be found.\">\n    <meta name=\"generator\" content=\"oxidoc\">\n    <script src=\"https://cdn.jsdelivr.net/npm/iconify-icon@3.0.0/dist/iconify-icon.min.js\"></script>\n";

pub const NEWLINE_INDENT: &'static str = "\n    ";

pub const PAGE_404_BODY: &'static str = "\n</head>\n<body data-locale=\"";

pub const PAGE_404_HEADER: &'static str = "\">\n    <a href=\"#oxidoc-main\" class=\"oxidoc-skip-nav\">Skip to content</a>\n    <header class=\"oxidoc-header\" role=\"banner\">\n        ";

pub const HEADER_ITEM_SEP: &'static str = "\n        ";

pub const PAGE_404_MAIN: &'static str = "\n    </header>\n    <div class=\"oxidoc-layout oxidoc-layout--no-sidebar\">\n        <main id=\"oxidoc-main\" class=\"oxidoc-content\" role=\"main\">\n            <article>\n                ";

pub const PAGE_404_END_MAIN: &'static str = "\n            </article>\n        </main>\n    </div>\n    ";

pub const PAGE_404_END: &'static str = "\n</body>\n</html>";

/// An optional path, or the default.
pub open spec fn path_or(p: Option<&str>, default: Seq<char>) -> Seq<char> {
    match p {
        Some(s) => s@,
        None => default,
    }
}

/// The head of the 404 page, up to its closing `</head>`.
pub open spec fn page_404_head(c: OxidocConfig, a: AssetConfig, locale: Seq<char>, sp: SearchProvider) -> Seq<char> {
    let css = path_or(a.css_path, DEFAULT_CSS_PATH@);
    let js = path_or(a.js_path, DEFAULT_JS_PATH@);
    PAGE_404_LANG@ + locale + PAGE_404_LOCALE@ + locale + PAGE_404_HEAD@ + esc(c.project.name@)
        + PAGE_404_META@ + preload_link(css, "style"@, a.css_sri) + "\n"@ + preload_link(
        js,
        "script"@,
        a.js_sri,
    ) + "\n"@ + stylesheet_link(css, a.css_sri) + NEWLINE_INDENT@ + analytics_html(c.analytics)
        + NEWLINE_INDENT@ + head_tags_of(sp) + PAGE_404_BODY@
}

/// The 404 page for the given year in the footer: the site's head, header (logo,
/// locale switcher and header actions as given), the error article and the footer.
pub open spec fn page_404(
    c: OxidocConfig,
    a: AssetConfig,
    locale: Seq<char>,
    sp: SearchProvider,
    locale_switcher: Seq<char>,
    header_actions: Seq<char>,
    year: Seq<char>,
) -> Seq<char> {
    page_404_head(c, a, locale, sp) + locale + PAGE_404_HEADER@ + logo_html(c) + HEADER_ITEM_SEP@
        + locale_switcher + HEADER_ITEM_SEP@ + header_actions + PAGE_404_MAIN@ + ERROR_404_HTML@
        + PAGE_404_END_MAIN@ + footer_html(c, year) + "\n"@ + script_tag(
        path_or(a.js_path, DEFAULT_JS_PATH@),
        a.js_sri,
    ) + NEWLINE_INDENT@ + scripts_of(sp) + PAGE_404_END@
}

fn push_page_404_head(html: &mut String, config: &OxidocConfig, assets: &AssetConfig, locale: &str, search_provider: &SearchProvider)
    ensures
        final(html)@ == old(html)@ + page_404_head(*config, *assets, locale@, *search_provider),
{
    let css_href: &str = match assets.css_path {
        Some(p) => p,
        None => DEFAULT_CSS_PATH,
    };
    let js_src: &str = match assets.js_path {
        Some(p) => p,
        None => DEFAULT_JS_PATH,
    };
    let (css_preload, js_preload) = build_preload_links(css_href, assets.css_sri, js_src, assets.js_sri);
    let stylesheet = build_stylesheet_link(css_href, assets.css_sri);
    let analytics = render_analytics_script(config);
    let head_tags = search_provider.render_head_tags();
    let (_logo, safe_name) = render_logo_html(config);
    html.append(PAGE_404_LANG);
    html.append(locale);
    html.append(PAGE_404_LOCALE);
    html.append(locale);
    html.append(PAGE_404_HEAD);
    html.append(safe_name.as_str());
    html.append(PAGE_404_META);
    html.append(css_preload.as_str());
    html.append("\n");
    html.append(js_preload.as_str());
    html.append("\n");
    html.append(stylesheet.as_str());
    html.append(NEWLINE_INDENT);
    html.append(analytics.as_str());
    html.append(NEWLINE_INDENT);
    html.append(head_tags.as_str());
    html.append(PAGE_404_BODY);
}

/// Generate the 404 error page for the given year in the footer copyright.
pub fn render_404_page_for_year(
    config: &OxidocConfig,
    assets: &AssetConfig,
    locale: &str,
    search_provider: &SearchProvider,
    locale_switcher_html: &str,
    header_actions_html: &str,
    year: &str,
) -> (r: String)
    ensures
        r@ == page_404(*config, *assets, locale@, *search_provider, locale_switcher_html@, header_actions_html@, year@),
{
    let mut html = String::new();
    push_page_404_head(&mut html, config, assets, locale, search_provider);
    let (logo, _safe_name) = render_logo_html(config);
    let footer = render_footer_for_year(config, year);
    let js_src: &str = match assets.js_path {
        Some(p) => p,
        None => DEFAULT_JS_PATH,
    };
    let script = build_script_tag(js_src, assets.js_sri);
    let scripts = search_provider.render_scripts();
    html.append(locale);
    html.append(PAGE_404_HEADER);
    html.append(logo.as_str());
    html.append(HEADER_ITEM_SEP);
    html.append(locale_switcher_html);
    html.append(HEADER_ITEM_SEP);
    html.append(header_actions_html);
    html.append(PAGE_404_MAIN);
    html.append(ERROR_404_HTML);
    html.append(PAGE_404_END_MAIN);
    html.append(footer.as_str());
    html.append("\n");
    html.append(script.as_str());
    html.append(NEWLINE_INDENT);
    html.append(scripts.as_str());
    html.append(PAGE_404_END);
    html
}

/// Generate a 404 error page using the site template, with the current year in the
/// footer copyright (left out where the clock cannot give one).
pub fn render_404_page(
    config: &OxidocConfig,
    assets: &AssetConfig,
    locale: &str,
    search_provider: &SearchProvider,
    locale_switcher_html: &str,
    header_actions_html: &str,
) -> (r: String)
    ensures
        exists|year: Seq<char>|
            clock_year(year) && r@ == page_404(*config, *assets, locale@, *search_provider, locale_switcher_html@, header_actions_html@, year),
{
    proof {
        reveal_strlit("");
    }
    match current_year() {
        Some(year) => {
            proof {
                assert(clock_year(year@));
            }
            render_404_page_for_year(
            config,
            assets,
            locale,
            search_provider,
            locale_switcher_html,
            header_actions_html,
            year.as_str(),
        )
        },
        None => {
            proof {
                assert(clock_year(""@));
            }
            render_404_page_for_year(
            config,
            assets,
            locale,
            search_provider,
            locale_switcher_html,
            header_actions_html,
            "",
        )
        },
    }
}

} // verus!
