//! The tags that load a page's stylesheet and script, with optional Subresource
//! Integrity hashes.
use vstd::prelude::*;

verus! {

broadcast use vstd::string::group_string_axioms;

/// Optional asset paths and SRI hashes for CSS/JS resources.
#[derive(Debug, Clone)]
pub struct AssetConfig<'a> {
    pub css_path: Option<&'a str>,
    pub js_path: Option<&'a str>,
    pub css_sri: Option<&'a str>,
    pub js_sri: Option<&'a str>,
}

impl<'a> Default for AssetConfig<'a> {
    fn default() -> (r: Self)
        ensures
            r.css_path is None,
            r.js_path is None,
            r.css_sri is None,
            r.js_sri is None,
    {
        AssetConfig { css_path: None, js_path: None, css_sri: None, js_sri: None }
    }
}

pub const INTEGRITY: &'static str = "\" integrity=\"";

pub const CROSSORIGIN: &'static str = "\" crossorigin=\"anonymous\">";

/// The attributes that end a tag: the integrity hash when there is one, then `>`.
pub open spec fn integrity_end(sri: Option<&str>) -> Seq<char> {
    match sri {
        Some(h) => INTEGRITY@ + h@ + CROSSORIGIN@,
        None => "\">"@,
    }
}

fn push_integrity_end(out: &mut String, sri: Option<&str>)
    ensures
        final(out)@ == old(out)@ + integrity_end(sri),
{
    match sri {
        Some(h) => {
            out.append(INTEGRITY);
            out.append(h);
            out.append(CROSSORIGIN);
        },
        None => {
            out.append("\">");
        },
    }
}

pub const STYLESHEET_OPEN: &'static str = "    <link rel=\"stylesheet\" href=\"";

/// `<link rel="stylesheet">` for `href`, with the integrity hash when given.
pub open spec fn stylesheet_link(href: Seq<char>, sri: Option<&str>) -> Seq<char> {
    STYLESHEET_OPEN@ + href + integrity_end(sri)
}

/// Build a `<link rel="stylesheet">` tag with optional SRI integrity hash.
pub fn build_stylesheet_link(href: &str, sri: Option<&str>) -> (r: String)
    ensures
        r@ == stylesheet_link(href@, sri),
{
    let mut tag = String::from_str(STYLESHEET_OPEN);
    tag.append(href);
    push_integrity_end(&mut tag, sri);
    tag
}

pub const SCRIPT_OPEN: &'static str = "    <script src=\"";

pub const SCRIPT_MODULE: &'static str = "\" type=\"module\" async";

pub const SCRIPT_CLOSE: &'static str = "</script>";

/// `<script type="module" async>` for `src`, with the integrity hash when given.
pub open spec fn script_tag(src: Seq<char>, sri: Option<&str>) -> Seq<char> {
    SCRIPT_OPEN@ + src + SCRIPT_MODULE@ + (match sri {
        Some(h) => " integrity=\""@ + h@ + CROSSORIGIN@,
        None => ">"@,
    }) + SCRIPT_CLOSE@
}

/// Build a `<script>` tag with optional SRI integrity hash.
pub fn build_script_tag(src: &str, sri: Option<&str>) -> (r: String)
    ensures
        r@ == script_tag(src@, sri),
{
    let mut tag = String::from_str(SCRIPT_OPEN);
    tag.append(src);
    tag.append(SCRIPT_MODULE);
    match sri {
        Some(h) => {
            tag.append(" integrity=\"");
            tag.append(h);
            tag.append(CROSSORIGIN);
        },
        None => {
            tag.append(">");
        },
    }
    tag.append(SCRIPT_CLOSE);
    tag
}

pub const PRELOAD_OPEN: &'static str = "    <link rel=\"preload\" href=\"";

/// `<link rel="preload">` for `href` as the given kind (`style` or `script`), with the
/// integrity hash when given.
pub open spec fn preload_link(href: Seq<char>, kind: Seq<char>, sri: Option<&str>) -> Seq<char> {
    PRELOAD_OPEN@ + href + "\" as=\""@ + kind + integrity_end(sri)
}

fn build_preload_link(href: &str, kind: &str, sri: Option<&str>) -> (r: String)
    ensures
        r@ == preload_link(href@, kind@, sri),
{
    let mut tag = String::from_str(PRELOAD_OPEN);
    tag.append(href);
    tag.append("\" as=\"");
    tag.append(kind);
    push_integrity_end(&mut tag, sri);
    tag
}

/// Build `<link rel="preload">` tags for CSS and JS assets with optional SRI.
pub fn build_preload_links(css_href: &str, css_sri: Option<&str>, js_src: &str, js_sri: Option<&str>) -> (r: (String, String))
    ensures
        r.0@ == preload_link(css_href@, "style"@, css_sri),
        r.1@ == preload_link(js_src@, "script"@, js_sri),
{
    (build_preload_link(css_href, "style", css_sri), build_preload_link(js_src, "script", js_sri))
}

} // verus!
