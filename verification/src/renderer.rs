//! Rendering a parsed page to HTML.
use vstd::prelude::*;

use crate::attributes::{
    attr_get, attr_index_exec, attr_json, attr_text, attrs_json, attrs_json_exec, or_else,
    prop_bool, prop_bool_exec, prop_str, prop_str_exec, push_attr_json, push_attr_text, AttrValue,
};
use crate::document::{heading_level, heading_level_exec};
use crate::template::page::{json_string, json_string_of, opt_chars};
use crate::template_parts::esc;
use crate::text::{
    chars_of, decimal, dedup, join, push_decimal, split_on, str_eq, string_from_chars,
};
use crate::utils::{
    anchor_of, escape_seq, heading_anchor, highlight_scan, html_escape, lines_of, lowercase_of,
    parse_highlight_ranges, process_highlight_comments, push_escaped, ranges_lines,
    str_to_lowercase, wrap_lines, wrap_lines_with_highlights,
};

verus! {

broadcast use vstd::string::group_string_axioms;

/// A node of a parsed page, with what rendering reads of it. Code blocks carry their
/// highlighted HTML when the highlighter knows their language.
#[derive(Debug)]
pub enum RenderNode {
    Heading { depth: Option<u8>, id: Option<String>, children: Vec<RenderNode> },
    Paragraph { children: Vec<RenderNode> },
    Text { value: String },
    Strong { children: Vec<RenderNode> },
    Emphasis { children: Vec<RenderNode> },
    Strikethrough { children: Vec<RenderNode> },
    CodeInline { value: String },
    CodeBlock { lang: Option<String>, value: String, highlighted: Option<String> },
    List { ordered: Option<bool>, children: Vec<RenderNode> },
    ListItem { checked: Option<bool>, children: Vec<RenderNode> },
    Blockquote { children: Vec<RenderNode> },
    Link { url: String, title: Option<String>, children: Vec<RenderNode> },
    Image { url: String, alt: Option<String>, title: Option<String> },
    Table { children: Vec<RenderNode> },
    TableRow { children: Vec<RenderNode> },
    TableCell { children: Vec<RenderNode> },
    ThematicBreak,
    Html { children: Vec<RenderNode> },
    MathInline { value: String },
    MathDisplay { value: String },
    FootnoteDefinition { label: String, children: Vec<RenderNode> },
    FootnoteReference { label: String },
    Component(ComponentNode),
    Variable { path: String },
    Error { message: String, line: usize },
}

/// A component of a page: its name, its attributes in the order written, its children
/// and its raw content. `highlighted` is, for a `CodeBlock` whose language the
/// highlighter knows, its code (as `code_block_source` gives it) highlighted as HTML.
#[derive(Debug)]
pub struct ComponentNode {
    pub name: String,
    pub attributes: Vec<(String, AttrValue)>,
    pub children: Vec<RenderNode>,
    pub raw_content: String,
    pub highlighted: Option<String>,
}

/// The plain text of nodes: the values of text and inline code, in document order.
pub open spec fn plain_of(ns: Seq<RenderNode>) -> Seq<char>
    decreases ns,
{
    if ns.len() == 0 {
        Seq::<char>::empty()
    } else {
        let n = ns.last();
        proof {
            assert(decreases_to!(ns => ns[ns.len() - 1]));
        }
        plain_of(ns.drop_last()) + match n {
            RenderNode::Text { value } => value@,
            RenderNode::CodeInline { value } => value@,
            RenderNode::Heading { children, .. } => plain_of(children@),
            RenderNode::Paragraph { children } => plain_of(children@),
            RenderNode::Strong { children } => plain_of(children@),
            RenderNode::Emphasis { children } => plain_of(children@),
            RenderNode::Strikethrough { children } => plain_of(children@),
            RenderNode::List { children, .. } => plain_of(children@),
            RenderNode::ListItem { children, .. } => plain_of(children@),
            RenderNode::Blockquote { children } => plain_of(children@),
            RenderNode::Link { children, .. } => plain_of(children@),
            RenderNode::Table { children } => plain_of(children@),
            RenderNode::TableRow { children } => plain_of(children@),
            RenderNode::TableCell { children } => plain_of(children@),
            RenderNode::Html { children } => plain_of(children@),
            RenderNode::FootnoteDefinition { children, .. } => plain_of(children@),
            RenderNode::Component(c) => plain_of(c.children@),
            _ => Seq::<char>::empty(),
        }
    }
}

pub const COPY_BUTTON: &'static str = "</code><button class=\"oxidoc-copy-code\" onclick=\"navigator.clipboard.writeText(this.parentElement.querySelector('code').textContent).then(()=>{this.textContent='Copied!';this.classList.add('copied');setTimeout(()=>{this.textContent='Copy';this.classList.remove('copied')},2000)})\">Copy</button></pre>";

/// An optional ` title` attribute, escaped.
pub open spec fn title_attr(title: Option<String>) -> Seq<char> {
    match title {
        Some(t) => " title=\""@ + esc(t@) + "\""@,
        None => Seq::<char>::empty(),
    }
}

/// A heading's `id`: the given one, else the anchor of its text.
pub open spec fn heading_id(id: Option<String>, children: Seq<RenderNode>) -> Seq<char> {
    match id {
        Some(i) => i@,
        None => anchor_of(lowercase_of(plain_of(children))),
    }
}

/// A code block: the language as a class, the highlighted code where the language
/// has a highlighting, else the escaped code, and a copy button.
pub open spec fn code_block_html(lang: Option<String>, value: Seq<char>, highlighted: Option<String>) -> Seq<char> {
    let l = match lang {
        Some(l) => l@,
        None => Seq::<char>::empty(),
    };
    "<pre><code"@ + (if l.len() == 0 {
        Seq::<char>::empty()
    } else {
        " class=\"language-"@ + esc(l) + "\""@
    }) + ">"@ + (if l.len() > 0 && highlighted is Some {
        highlighted->0@
    } else {
        esc(value)
    }) + COPY_BUTTON@
}

/// The HTML of nodes, one after the other. `custom` maps the names of custom web
/// components to their scripts; `debug` asks for the debug outline of islands, whose
/// ids come from `ids`, the clock readings taken in document order.
pub open spec fn rendered(ns: Seq<RenderNode>, custom: Seq<(String, String)>, debug: bool, ids: Seq<u128>) -> Seq<char>
    decreases ns,
{
    if ns.len() == 0 {
        Seq::<char>::empty()
    } else {
        proof {
            assert(decreases_to!(ns => ns[ns.len() - 1]));
        }
        let k = uses_nodes(ns.drop_last(), custom, debug);
        rendered(ns.drop_last(), custom, debug, ids.take(k as int)) + node_html(
            ns.last(),
            custom,
            debug,
            ids.skip(k as int),
        )
    }
}

/// The HTML of one node.
pub open spec fn node_html(n: RenderNode, custom: Seq<(String, String)>, debug: bool, ids: Seq<u128>) -> Seq<char>
    decreases n,
{
    match n {
        RenderNode::Heading { depth, id, children } => {
            let level = decimal(heading_level(depth) as nat);
            "<h"@ + level + " id=\""@ + heading_id(id, children@) + "\">"@ + rendered(children@, custom, debug, ids)
                + "</h"@ + level + ">"@
        },
        RenderNode::Paragraph { children } => "<p>"@ + rendered(children@, custom, debug, ids) + "</p>"@,
        RenderNode::Text { value } => esc(value@),
        RenderNode::Strong { children } => "<strong>"@ + rendered(children@, custom, debug, ids) + "</strong>"@,
        RenderNode::Emphasis { children } => "<em>"@ + rendered(children@, custom, debug, ids) + "</em>"@,
        RenderNode::Strikethrough { children } => "<del>"@ + rendered(children@, custom, debug, ids) + "</del>"@,
        RenderNode::CodeInline { value } => "<code>"@ + esc(value@) + "</code>"@,
        RenderNode::CodeBlock { lang, value, highlighted } => code_block_html(lang, value@, highlighted),
        RenderNode::List { ordered, children } => if ordered == Some(true) {
            "<ol>"@ + rendered(children@, custom, debug, ids) + "</ol>"@
        } else {
            "<ul>"@ + rendered(children@, custom, debug, ids) + "</ul>"@
        },
        RenderNode::ListItem { checked, children } => (match checked {
            Some(c) => "<li class=\"task-list-item\"><input type=\"checkbox\" disabled "@ + (if c {
                "checked"@
            } else {
                Seq::<char>::empty()
            }) + "> "@,
            None => "<li>"@,
        }) + rendered(children@, custom, debug, ids) + "</li>"@,
        RenderNode::Blockquote { children } => "<blockquote>"@ + rendered(children@, custom, debug, ids) + "</blockquote>"@,
        RenderNode::Link { url, title, children } => "<a href=\""@ + esc(url@) + "\""@ + title_attr(title)
            + ">"@ + rendered(children@, custom, debug, ids) + "</a>"@,
        RenderNode::Image { url, alt, title } => "<img src=\""@ + esc(url@) + "\" alt=\""@ + esc(
            match alt {
                Some(a) => a@,
                None => Seq::<char>::empty(),
            },
        ) + "\""@ + title_attr(title) + " loading=\"lazy\">"@,
        RenderNode::Table { children } => "<table>"@ + rendered(children@, custom, debug, ids) + "</table>"@,
        RenderNode::TableRow { children } => "<tr>"@ + rendered(children@, custom, debug, ids) + "</tr>"@,
        RenderNode::TableCell { children } => "<td>"@ + rendered(children@, custom, debug, ids) + "</td>"@,
        RenderNode::ThematicBreak => "<hr>"@,
        RenderNode::Html { children } => rendered(children@, custom, debug, ids),
        RenderNode::MathInline { value } => "<span class=\"math math-inline\">"@ + esc(value@) + "</span>"@,
        RenderNode::MathDisplay { value } => "<div class=\"math math-display\">"@ + esc(value@) + "</div>"@,
        RenderNode::FootnoteDefinition { label, children } => "<div class=\"footnote\" id=\"fn-"@ + label@
            + "\">"@ + rendered(children@, custom, debug, ids) + "</div>"@,
        RenderNode::FootnoteReference { label } => "<sup><a href=\"#fn-"@ + label@
            + "\" class=\"footnote-ref\">"@ + label@ + "</a></sup>"@,
        RenderNode::Component(c) => component_html(c, custom, debug, ids),
        RenderNode::Variable { path } => "<span data-var=\""@ + path@ + "\">{}</span>"@,
        RenderNode::Error { message, line } => "<div class=\"oxidoc-error\" data-line=\""@ + decimal(
            line as nat,
        ) + "\">"@ + message@ + "</div>"@,
    }
}

pub const DEBUG_OPEN: &'static str = "<div id=\"";

pub const DEBUG_COMPONENT: &'static str = "\" class=\"oxidoc-debug-island\" data-component=\"";

pub const DEBUG_RENDER: &'static str = "\" data-render=\"hydration\" style=\"outline:2px dashed #ef4444;outline-offset:2px;position:relative\">";

pub const DEBUG_LABEL: &'static str = "<span class=\"oxidoc-debug-label\" style=\"position:absolute;top:-10px;right:4px;font-size:10px;background:#ef4444;color:#fff;padding:0 4px;border-radius:2px;z-index:99\">";

pub const DEBUG_LABEL_END: &'static str = " (awaiting hydration)</span>";

pub const DEBUG_SCRIPT: &'static str = "<script>(function(){var d=document.getElementById(\"";

pub const DEBUG_SCRIPT_HYDRATED: &'static str = "\");if(!d)return;var i=d.querySelector(\"oxidoc-island\");if(!i)return;function ok(){d.style.outline=\"2px solid #10b981\";var l=d.querySelector(\".oxidoc-debug-label\");if(l){l.style.background=\"#10b981\";l.textContent=\"";

pub const DEBUG_SCRIPT_FAILED: &'static str = " (hydrated)\"}}if(i.getAttribute(\"data-hydrated\")===\"true\"){ok();return}var o=new MutationObserver(function(m){if(i.getAttribute(\"data-hydrated\")===\"true\"){ok();o.disconnect()}});o.observe(i,{attributes:true,attributeFilter:[\"data-hydrated\"]});setTimeout(function(){o.disconnect();if(i.getAttribute(\"data-hydrated\")!==\"true\"){d.style.outline=\"2px dashed #ef4444\";var l=d.querySelector(\".oxidoc-debug-label\");if(l){l.style.background=\"#ef4444\";l.textContent=\"";

pub const DEBUG_SCRIPT_END: &'static str = " (failed)\"}}},5000)})()</script>";

// ---------------------------------------------------------------------------
// Components
// ---------------------------------------------------------------------------

/// The script of the custom web component named `name`: that of its first entry.
pub open spec fn custom_src(custom: Seq<(String, String)>, name: Seq<char>) -> Option<Seq<char>>
    decreases custom.len(),
{
    if custom.len() == 0 {
        None
    } else if custom[0].0@ == name {
        Some(custom[0].1@)
    } else {
        custom_src(custom.drop_first(), name)
    }
}

/// One clock reading for each debug outline: one per island when debugging.
pub open spec fn dbg(debug: bool) -> nat {
    if debug {
        1
    } else {
        0
    }
}

/// Whether `n` is a `Tab` component.
pub open spec fn is_tab(n: RenderNode) -> bool {
    n matches RenderNode::Component(c) && c.name@ == "Tab"@
}

/// How many clock readings rendering the nodes takes (one per debug outline).
pub open spec fn uses_nodes(ns: Seq<RenderNode>, custom: Seq<(String, String)>, debug: bool) -> nat
    decreases ns,
{
    if ns.len() == 0 {
        0
    } else {
        proof {
            assert(decreases_to!(ns => ns[ns.len() - 1]));
        }
        uses_nodes(ns.drop_last(), custom, debug) + uses_node(ns.last(), custom, debug)
    }
}

/// How many clock readings rendering the node takes.
pub open spec fn uses_node(n: RenderNode, custom: Seq<(String, String)>, debug: bool) -> nat
    decreases n,
{
    match n {
        RenderNode::Heading { children, .. } => uses_nodes(children@, custom, debug),
        RenderNode::Paragraph { children } => uses_nodes(children@, custom, debug),
        RenderNode::Strong { children } => uses_nodes(children@, custom, debug),
        RenderNode::Emphasis { children } => uses_nodes(children@, custom, debug),
        RenderNode::Strikethrough { children } => uses_nodes(children@, custom, debug),
        RenderNode::List { children, .. } => uses_nodes(children@, custom, debug),
        RenderNode::ListItem { children, .. } => uses_nodes(children@, custom, debug),
        RenderNode::Blockquote { children } => uses_nodes(children@, custom, debug),
        RenderNode::Link { children, .. } => uses_nodes(children@, custom, debug),
        RenderNode::Table { children } => uses_nodes(children@, custom, debug),
        RenderNode::TableRow { children } => uses_nodes(children@, custom, debug),
        RenderNode::TableCell { children } => uses_nodes(children@, custom, debug),
        RenderNode::Html { children } => uses_nodes(children@, custom, debug),
        RenderNode::FootnoteDefinition { children, .. } => uses_nodes(children@, custom, debug),
        RenderNode::Component(c) => uses_component(c, custom, debug),
        _ => 0,
    }
}

/// How many clock readings rendering the component takes: its props, its outline and
/// its fallback content, in that order.
pub open spec fn uses_component(c: ComponentNode, custom: Seq<(String, String)>, debug: bool) -> nat
    decreases c,
{
    let name = c.name@;
    if custom_src(custom, name) is Some {
        0
    } else if name == "Callout"@ || name == "CardGrid"@ || name == "Card"@ {
        uses_nodes(c.children@, custom, debug)
    } else if name == "Tabs"@ {
        tab_uses(c.children@, custom, debug) + dbg(debug) + tab_uses(c.children@, custom, debug)
    } else if name == "Tab"@ {
        dbg(debug) + uses_nodes(c.children@, custom, debug)
    } else if name == "Accordion"@ {
        uses_nodes(c.children@, custom, debug) + dbg(debug) + uses_nodes(c.children@, custom, debug)
    } else if name == "CodeBlock"@ {
        dbg(debug)
    } else {
        dbg(debug) + uses_nodes(c.children@, custom, debug)
    }
}

/// How many clock readings rendering the contents of the `Tab` children takes.
pub open spec fn tab_uses(ns: Seq<RenderNode>, custom: Seq<(String, String)>, debug: bool) -> nat
    decreases ns,
{
    if ns.len() == 0 {
        0
    } else {
        proof {
            assert(decreases_to!(ns => ns[ns.len() - 1]));
        }
        tab_uses(ns.drop_last(), custom, debug) + tab_use(ns.last(), custom, debug)
    }
}

/// How many clock readings rendering the content of `n` takes, when it is a `Tab`.
pub open spec fn tab_use(n: RenderNode, custom: Seq<(String, String)>, debug: bool) -> nat
    decreases n,
{
    match n {
        RenderNode::Component(c) => if c.name@ == "Tab"@ {
            uses_nodes(c.children@, custom, debug)
        } else {
            0
        },
        _ => 0,
    }
}

/// The id of a debug outline, from a clock reading in nanoseconds.
pub open spec fn debug_id(nanos: u128) -> Seq<char> {
    "oxidoc-dbg-"@ + decimal(nanos as nat)
}

/// `body`, with the debug outline around it when debugging: the outline with its id,
/// the component's name, a label, and a script that marks it hydrated or failed.
pub open spec fn debug_outline(name: Seq<char>, body: Seq<char>, debug: bool, id: Seq<char>) -> Seq<char> {
    if debug {
        DEBUG_OPEN@ + id + DEBUG_COMPONENT@ + name + DEBUG_RENDER@ + DEBUG_LABEL@ + name + DEBUG_LABEL_END@
            + body + DEBUG_SCRIPT@ + id + DEBUG_SCRIPT_HYDRATED@ + name + DEBUG_SCRIPT_FAILED@ + name
            + DEBUG_SCRIPT_END@ + "</div>"@
    } else {
        body
    }
}

/// An island for hydration: its type (the lowercased name), its props (escaped) and
/// its content, with the debug outline when debugging.
pub open spec fn island_html(name: Seq<char>, props: Seq<char>, content: Seq<char>, debug: bool, id: Seq<char>) -> Seq<char> {
    debug_outline(
        name,
        "<oxidoc-island data-island-type=\""@ + esc(lowercase_of(name)) + "\" data-props=\""@ + esc(props)
            + "\">"@ + content + "</oxidoc-island>"@,
        debug,
        id,
    )
}

/// The attributes of a web component, in the order written, each value as text and
/// escaped.
pub open spec fn web_attrs(attrs: Seq<(String, AttrValue)>) -> Seq<char>
    decreases attrs.len(),
{
    if attrs.len() == 0 {
        Seq::<char>::empty()
    } else {
        web_attrs(attrs.drop_last()) + " "@ + attrs.last().0@ + "=\""@ + esc(attr_text(attrs.last().1))
            + "\""@
    }
}

/// A custom web component: its tag with its attributes, and its module script.
pub open spec fn web_component_html(name: Seq<char>, attrs: Seq<(String, AttrValue)>, js: Seq<char>) -> Seq<char> {
    "<"@ + name + web_attrs(attrs) + "></"@ + name + "><script src=\""@ + esc(js)
        + "\" type=\"module\" async></script>"@
}

/// A callout: its kind as a class (`info` by default), its title if any, its content.
pub open spec fn callout_html(attrs: Seq<(String, AttrValue)>, inner: Seq<char>) -> Seq<char> {
    "<div class=\"oxidoc-callout oxidoc-callout-"@ + or_else(prop_str(attrs, "kind"@), "info"@)
        + "\" role=\"note\">"@ + (match prop_str(attrs, "title"@) {
        Some(t) => "<p class=\"oxidoc-callout-title\"><strong>"@ + esc(t) + "</strong></p>"@,
        None => Seq::<char>::empty(),
    }) + "<div class=\"oxidoc-callout-content\">"@ + inner + "</div></div>"@
}

/// A card: a link when it has an `href`, its title, its content.
pub open spec fn card_html(attrs: Seq<(String, AttrValue)>, inner: Seq<char>) -> Seq<char> {
    let href = prop_str(attrs, "href"@);
    (match href {
        Some(h) => "<a href=\""@ + esc(h) + "\" class=\"oxidoc-card\">"@,
        None => "<div class=\"oxidoc-card\">"@,
    }) + "<h3 class=\"oxidoc-card-title\">"@ + esc(or_else(prop_str(attrs, "title"@), Seq::empty()))
        + "</h3>"@ + "<div class=\"oxidoc-card-body\">"@ + inner + "</div>"@ + (if href is Some {
        "</a>"@
    } else {
        "</div>"@
    })
}

/// The label of a tab: its `title`, `Tab` without one.
pub open spec fn tab_title(attrs: Seq<(String, AttrValue)>) -> Seq<char> {
    or_else(prop_str(attrs, "title"@), "Tab"@)
}

/// The labels of the `Tab` children.
pub open spec fn tab_labels(ns: Seq<RenderNode>) -> Seq<Seq<char>>
    decreases ns.len(),
{
    if ns.len() == 0 {
        Seq::empty()
    } else {
        tab_labels(ns.drop_last()) + match ns.last() {
            RenderNode::Component(c) => if c.name@ == "Tab"@ {
                seq![tab_title(c.attributes@)]
            } else {
                Seq::empty()
            },
            _ => Seq::empty(),
        }
    }
}

/// The tab buttons of the `Tab` children: the child that comes first is active.
pub open spec fn tab_buttons(ns: Seq<RenderNode>) -> Seq<char>
    decreases ns.len(),
{
    if ns.len() == 0 {
        Seq::<char>::empty()
    } else {
        tab_buttons(ns.drop_last()) + match ns.last() {
            RenderNode::Component(c) => if c.name@ == "Tab"@ {
                "<button role=\"tab\""@ + (if ns.len() == 1 {
                    " class=\"active\""@
                } else {
                    Seq::<char>::empty()
                }) + ">"@ + esc(tab_title(c.attributes@)) + "</button>"@
            } else {
                Seq::<char>::empty()
            },
            _ => Seq::<char>::empty(),
        }
    }
}

/// The rendered contents of the `Tab` children.
pub open spec fn tab_contents(ns: Seq<RenderNode>, custom: Seq<(String, String)>, debug: bool, ids: Seq<u128>) -> Seq<Seq<char>>
    decreases ns,
{
    if ns.len() == 0 {
        Seq::empty()
    } else {
        proof {
            assert(decreases_to!(ns => ns[ns.len() - 1]));
        }
        let k = tab_uses(ns.drop_last(), custom, debug);
        tab_contents(ns.drop_last(), custom, debug, ids.take(k as int)) + tab_content(
            ns.last(),
            custom,
            debug,
            ids.skip(k as int),
        )
    }
}

/// The rendered content of `n`, when it is a `Tab`.
pub open spec fn tab_content(n: RenderNode, custom: Seq<(String, String)>, debug: bool, ids: Seq<u128>) -> Seq<Seq<char>>
    decreases n,
{
    match n {
        RenderNode::Component(c) => if c.name@ == "Tab"@ {
            seq![rendered(c.children@, custom, debug, ids)]
        } else {
            Seq::empty()
        },
        _ => Seq::empty(),
    }
}

/// The tab panels of the `Tab` children: all but the one that comes first hidden.
pub open spec fn tab_panels(ns: Seq<RenderNode>, custom: Seq<(String, String)>, debug: bool, ids: Seq<u128>) -> Seq<char>
    decreases ns,
{
    if ns.len() == 0 {
        Seq::<char>::empty()
    } else {
        proof {
            assert(decreases_to!(ns => ns[ns.len() - 1]));
        }
        let k = tab_uses(ns.drop_last(), custom, debug);
        tab_panels(ns.drop_last(), custom, debug, ids.take(k as int)) + tab_panel(
            ns.last(),
            ns.len() == 1,
            custom,
            debug,
            ids.skip(k as int),
        )
    }
}

/// The tab panel of `n`, when it is a `Tab`: hidden unless it comes first.
pub open spec fn tab_panel(n: RenderNode, first: bool, custom: Seq<(String, String)>, debug: bool, ids: Seq<u128>) -> Seq<char>
    decreases n,
{
    match n {
        RenderNode::Component(c) => if c.name@ == "Tab"@ {
            "<div class=\"oxidoc-tab-panel\" role=\"tabpanel\""@ + (if first {
                Seq::<char>::empty()
            } else {
                " hidden"@
            }) + ">"@ + rendered(c.children@, custom, debug, ids) + "</div>"@
        } else {
            Seq::<char>::empty()
        },
        _ => Seq::<char>::empty(),
    }
}

/// JSON string literals, separated by commas.
pub open spec fn json_strings(ss: Seq<Seq<char>>) -> Seq<char>
    decreases ss.len(),
{
    if ss.len() == 0 {
        Seq::<char>::empty()
    } else if ss.len() == 1 {
        json_string_of(ss[0])
    } else {
        json_strings(ss.drop_last()) + ","@ + json_string_of(ss.last())
    }
}

/// The JSON of the storage key of tabs: `storage_key`, else `storageKey`.
pub open spec fn storage_key_json(attrs: Seq<(String, AttrValue)>) -> Option<Seq<char>> {
    match attr_get(attrs, "storage_key"@) {
        Some(v) => Some(attr_json(v)),
        None => match attr_get(attrs, "storageKey"@) {
            Some(v) => Some(attr_json(v)),
            None => None,
        },
    }
}

/// The JSON properties of a tabs island, keys in increasing order as `serde_json`
/// writes an object: the tabs' rendered contents, their labels, and the storage key
/// when the component has one.
pub open spec fn tabs_json(labels: Seq<Seq<char>>, contents: Seq<Seq<char>>, storage_key: Option<Seq<char>>) -> Seq<char> {
    "{\"contents\":["@ + json_strings(contents) + "],\"labels\":["@ + json_strings(labels) + "]"@
        + (match storage_key {
        Some(k) => ",\"storage_key\":"@ + k,
        None => Seq::<char>::empty(),
    }) + "}"@
}

/// Whether lines are numbered in a code block: `lineNumbers`, else `line_numbers`,
/// when a boolean.
pub open spec fn line_numbers_of(attrs: Seq<(String, AttrValue)>) -> bool {
    match attr_get(attrs, "lineNumbers"@) {
        Some(v) => v == AttrValue::Bool(true),
        None => prop_bool(attrs, "line_numbers"@) == Some(true),
    }
}

/// The code of a `CodeBlock` component: its source with the highlight comments taken
/// out.
pub open spec fn component_code(c: ComponentNode) -> Seq<char> {
    join(highlight_scan(lines_of(code_source(c.raw_content@, c.children@))).0, seq!['\n'])
}

/// The lines that the highlight comments of a `CodeBlock` component mark.
pub open spec fn component_comment_lines(c: ComponentNode) -> Seq<usize> {
    highlight_scan(lines_of(code_source(c.raw_content@, c.children@))).1
}

/// The static rendering of a `CodeBlock` component: under a header with the file
/// name and language when it has a file name.
pub open spec fn static_code_block(c: ComponentNode) -> Seq<char> {
    let attrs = c.attributes@;
    let language = or_else(prop_str(attrs, "language"@), Seq::empty());
    let lines = island_lines(Some(or_else(prop_str(attrs, "highlight"@), Seq::empty())), component_comment_lines(c));
    let raw_html = if language.len() > 0 && c.highlighted is Some {
        c.highlighted->0@
    } else {
        escape_seq(component_code(c), false)
    };
    let code = "<pre><code class=\"language-"@ + esc(language) + "\">"@ + wrap_lines(split_on(raw_html, '\n'), lines)
        + COPY_BUTTON@;
    match prop_str(attrs, "filename"@) {
        Some(f) => "<div class=\"oxidoc-codeblock\"><div class=\"oxidoc-codeblock-header\"><span>"@ + esc(f)
            + "</span><span>"@ + esc(language) + "</span></div><div class=\"oxidoc-codeblock-body\">"@ + code
            + "</div></div>"@,
        None => code,
    }
}

/// The HTML of a component: a custom web component as it is; a callout, card or
/// card grid as static HTML; tabs, a tab, an accordion or a code block as an island
/// with its props and a static fallback; any other as an island with its attributes
/// as props and its children inside.
pub open spec fn component_html(c: ComponentNode, custom: Seq<(String, String)>, debug: bool, ids: Seq<u128>) -> Seq<char>
    decreases c,
{
    let name = c.name@;
    let attrs = c.attributes@;
    match custom_src(custom, name) {
        Some(js) => web_component_html(name, attrs, js),
        None => if name == "Callout"@ {
            callout_html(attrs, rendered(c.children@, custom, debug, ids))
        } else if name == "CardGrid"@ {
            "<div class=\"oxidoc-card-grid\">"@ + rendered(c.children@, custom, debug, ids) + "</div>"@
        } else if name == "Card"@ {
            card_html(attrs, rendered(c.children@, custom, debug, ids))
        } else if name == "Tabs"@ {
            let k = tab_uses(c.children@, custom, debug);
            let props = tabs_json(
                tab_labels(c.children@),
                tab_contents(c.children@, custom, debug, ids.take(k as int)),
                storage_key_json(attrs),
            );
            let fallback = "<div class=\"oxidoc-tabs\"><div class=\"oxidoc-tabs-nav\" role=\"tablist\">"@
                + tab_buttons(c.children@) + "</div>"@ + tab_panels(
                c.children@,
                custom,
                debug,
                ids.skip((k + dbg(debug)) as int),
            ) + "</div>"@;
            island_html(name, props, fallback, debug, debug_id(ids[k as int]))
        } else if name == "Tab"@ {
            let title = or_else(prop_str(attrs, "title"@), Seq::empty());
            let fallback = (if title.len() > 0 {
                "<strong>"@ + esc(title) + "</strong>"@
            } else {
                Seq::<char>::empty()
            }) + rendered(c.children@, custom, debug, ids.skip(dbg(debug) as int));
            island_html(name, attrs_json(attrs), fallback, debug, debug_id(ids[0]))
        } else if name == "Accordion"@ {
            let k = uses_nodes(c.children@, custom, debug);
            let title = or_else(prop_str(attrs, "title"@), Seq::empty());
            let props = accordion_props_of(
                title,
                rendered(c.children@, custom, debug, ids.take(k as int)),
                prop_bool(attrs, "open"@) == Some(true),
                prop_bool(attrs, "multiple"@) == Some(true),
            );
            let fallback = "<details class=\"oxidoc-accordion\"><summary>"@ + esc(title)
                + "</summary><div class=\"oxidoc-accordion-content\"><div>"@ + rendered(
                c.children@,
                custom,
                debug,
                ids.skip((k + dbg(debug)) as int),
            ) + "</div></div></details>"@;
            island_html(name, props, fallback, debug, debug_id(ids[k as int]))
        } else if name == "CodeBlock"@ {
            let props = code_block_props_of(
                or_else(prop_str(attrs, "language"@), Seq::empty()),
                or_else(prop_str(attrs, "filename"@), Seq::empty()),
                line_numbers_of(attrs),
                prop_str(attrs, "highlight"@),
                component_code(c),
                component_comment_lines(c),
                match c.highlighted {
                    Some(h) => Some(h@),
                    None => None,
                },
            );
            island_html(name, props, static_code_block(c), debug, debug_id(ids[0]))
        } else {
            island_html(
                name,
                attrs_json(attrs),
                rendered(c.children@, custom, debug, ids.skip(dbg(debug) as int)),
                debug,
                debug_id(ids[0]),
            )
        },
    }
}

fn append_plain(nodes: &Vec<RenderNode>, out: &mut String)
    ensures
        final(out)@ == old(out)@ + plain_of(nodes@),
    decreases nodes@,
{
    let ghost start = out@;
    let mut i: usize = 0;
    while i < nodes.len()
        invariant
            i <= nodes@.len(),
            out@ == start + plain_of(nodes@.take(i as int)),
        decreases nodes@.len() - i,
    {
        let n = &nodes[i];
        proof {
            assert(decreases_to!(nodes@ => nodes@[i as int]));
            let t = nodes@.take(i + 1);
            assert(t.drop_last() =~= nodes@.take(i as int));
            assert(t.last() == *n);
        }
        match n {
            RenderNode::Text { value } => out.append(value.as_str()),
            RenderNode::CodeInline { value } => out.append(value.as_str()),
            RenderNode::Heading { children, .. } => append_plain(children, out),
            RenderNode::Paragraph { children } => append_plain(children, out),
            RenderNode::Strong { children } => append_plain(children, out),
            RenderNode::Emphasis { children } => append_plain(children, out),
            RenderNode::Strikethrough { children } => append_plain(children, out),
            RenderNode::List { children, .. } => append_plain(children, out),
            RenderNode::ListItem { children, .. } => append_plain(children, out),
            RenderNode::Blockquote { children } => append_plain(children, out),
            RenderNode::Link { children, .. } => append_plain(children, out),
            RenderNode::Table { children } => append_plain(children, out),
            RenderNode::TableRow { children } => append_plain(children, out),
            RenderNode::TableCell { children } => append_plain(children, out),
            RenderNode::Html { children } => append_plain(children, out),
            RenderNode::FootnoteDefinition { children, .. } => append_plain(children, out),
            RenderNode::Component(c) => append_plain(&c.children, out),
            _ => {},
        }
        i = i + 1;
    }
    assert(nodes@.take(i as int) =~= nodes@);
}

fn push_title_attr(title: &Option<String>, out: &mut String)
    ensures
        final(out)@ == old(out)@ + title_attr(*title),
{
    if let Some(t) = title {
        out.append(" title=\"");
        push_escaped(t.as_str(), out);
        out.append("\"");
    }
}

fn push_code_block(lang: &Option<String>, value: &String, highlighted: &Option<String>, out: &mut String)
    ensures
        final(out)@ == old(out)@ + code_block_html(*lang, value@, *highlighted),
{
    proof {
        reveal_strlit("");
    }
    let l: &str = match lang {
        Some(l) => l.as_str(),
        None => "",
    };
    out.append("<pre><code");
    if l.unicode_len() > 0 {
        out.append(" class=\"language-");
        push_escaped(l, out);
        out.append("\"");
    }
    out.append(">");
    match highlighted {
        Some(h) => {
            if l.unicode_len() > 0 {
                out.append(h.as_str());
            } else {
                push_escaped(value.as_str(), out);
            }
        },
        None => push_escaped(value.as_str(), out),
    }
    out.append(COPY_BUTTON);
}

fn heading_id_exec(id: &Option<String>, children: &Vec<RenderNode>) -> (r: String)
    ensures
        r@ == heading_id(*id, children@),
{
    match id {
        Some(i) => i.clone(),
        None => {
            let mut text = String::new();
            append_plain(children, &mut text);
            assert(text@ =~= plain_of(children@));
            heading_anchor(text.as_str())
        },
    }
}

#[verifier::spinoff_prover]
#[verifier::rlimit(60)]
pub(crate) fn push_node(n: &RenderNode, custom: &[(String, String)], debug: bool, ids: &mut Vec<u128>, out: &mut String)
    ensures
        final(ids)@.len() == old(ids)@.len() + uses_node(*n, custom@, debug),
        final(ids)@.take(old(ids)@.len() as int) == old(ids)@,
        final(out)@ == old(out)@ + node_html(*n, custom@, debug, final(ids)@.skip(old(ids)@.len() as int)),
    decreases *n, 1nat,
{
    proof {
        reveal_strlit("");
    }
    match n {
        RenderNode::Heading { depth, id, children } => {
            let level = heading_level_exec(*depth);
            let anchor = heading_id_exec(id, children);
            let mut digits = String::new();
            push_decimal(&mut digits, level as u128);
            out.append("<h");
            out.append(digits.as_str());
            out.append(" id=\"");
            out.append(anchor.as_str());
            out.append("\">");
            render_nodes(children, custom, debug, ids, out);
            out.append("</h");
            out.append(digits.as_str());
            out.append(">");
        },
        RenderNode::Paragraph { children } => {
            out.append("<p>");
            render_nodes(children, custom, debug, ids, out);
            out.append("</p>");
        },
        RenderNode::Text { value } => {
            push_escaped(value.as_str(), out);
        },
        RenderNode::Strong { children } => {
            out.append("<strong>");
            render_nodes(children, custom, debug, ids, out);
            out.append("</strong>");
        },
        RenderNode::Emphasis { children } => {
            out.append("<em>");
            render_nodes(children, custom, debug, ids, out);
            out.append("</em>");
        },
        RenderNode::Strikethrough { children } => {
            out.append("<del>");
            render_nodes(children, custom, debug, ids, out);
            out.append("</del>");
        },
        RenderNode::CodeInline { value } => {
            out.append("<code>");
            push_escaped(value.as_str(), out);
            out.append("</code>");
        },
        RenderNode::CodeBlock { lang, value, highlighted } => {
            push_code_block(lang, value, highlighted, out);
        },
        RenderNode::List { ordered, children } => {
            let ol = match ordered {
                Some(true) => true,
                _ => false,
            };
            out.append(if ol { "<ol>" } else { "<ul>" });
            render_nodes(children, custom, debug, ids, out);
            out.append(if ol { "</ol>" } else { "</ul>" });
        },
        RenderNode::ListItem { checked, children } => {
            match checked {
                Some(c) => {
                    out.append("<li class=\"task-list-item\"><input type=\"checkbox\" disabled ");
                    if *c {
                        out.append("checked");
                    }
                    out.append("> ");
                },
                None => out.append("<li>"),
            }
            render_nodes(children, custom, debug, ids, out);
            out.append("</li>");
        },
        RenderNode::Blockquote { children } => {
            out.append("<blockquote>");
            render_nodes(children, custom, debug, ids, out);
            out.append("</blockquote>");
        },
        RenderNode::Link { url, title, children } => {
            out.append("<a href=\"");
            push_escaped(url.as_str(), out);
            out.append("\"");
            push_title_attr(title, out);
            out.append(">");
            render_nodes(children, custom, debug, ids, out);
            out.append("</a>");
        },
        RenderNode::Image { url, alt, title } => {
            out.append("<img src=\"");
            push_escaped(url.as_str(), out);
            out.append("\" alt=\"");
            match alt {
                Some(a) => push_escaped(a.as_str(), out),
                None => push_escaped("", out),
            }
            out.append("\"");
            push_title_attr(title, out);
            out.append(" loading=\"lazy\">");
        },
        RenderNode::Table { children } => {
            out.append("<table>");
            render_nodes(children, custom, debug, ids, out);
            out.append("</table>");
        },
        RenderNode::TableRow { children } => {
            out.append("<tr>");
            render_nodes(children, custom, debug, ids, out);
            out.append("</tr>");
        },
        RenderNode::TableCell { children } => {
            out.append("<td>");
            render_nodes(children, custom, debug, ids, out);
            out.append("</td>");
        },
        RenderNode::ThematicBreak => {
            out.append("<hr>");
        },
        RenderNode::Html { children } => {
            render_nodes(children, custom, debug, ids, out);
        },
        RenderNode::MathInline { value } => {
            out.append("<span class=\"math math-inline\">");
            push_escaped(value.as_str(), out);
            out.append("</span>");
        },
        RenderNode::MathDisplay { value } => {
            out.append("<div class=\"math math-display\">");
            push_escaped(value.as_str(), out);
            out.append("</div>");
        },
        RenderNode::FootnoteDefinition { label, children } => {
            out.append("<div class=\"footnote\" id=\"fn-");
            out.append(label.as_str());
            out.append("\">");
            render_nodes(children, custom, debug, ids, out);
            out.append("</div>");
        },
        RenderNode::FootnoteReference { label } => {
            out.append("<sup><a href=\"#fn-");
            out.append(label.as_str());
            out.append("\" class=\"footnote-ref\">");
            out.append(label.as_str());
            out.append("</a></sup>");
        },
        RenderNode::Component(c) => {
            render_component_with(c, custom, debug, ids, out);
        },
        RenderNode::Variable { path } => {
            out.append("<span data-var=\"");
            out.append(path.as_str());
            out.append("\">{}</span>");
        },
        RenderNode::Error { message, line } => {
            out.append("<div class=\"oxidoc-error\" data-line=\"");
            push_decimal(out, *line as u128);
            out.append("\">");
            out.append(message.as_str());
            out.append("</div>");
        },
    }
}

proof fn lemma_no_debug_nodes(ns: Seq<RenderNode>, custom: Seq<(String, String)>)
    ensures
        uses_nodes(ns, custom, false) == 0,
    decreases ns,
{
    if ns.len() > 0 {
        assert(decreases_to!(ns => ns[ns.len() - 1]));
        lemma_no_debug_nodes(ns.drop_last(), custom);
        lemma_no_debug_node(ns.last(), custom);
    }
}

proof fn lemma_no_debug_node(n: RenderNode, custom: Seq<(String, String)>)
    ensures
        uses_node(n, custom, false) == 0,
    decreases n,
{
    match n {
        RenderNode::Heading { children, .. } => lemma_no_debug_nodes(children@, custom),
        RenderNode::Paragraph { children } => lemma_no_debug_nodes(children@, custom),
        RenderNode::Strong { children } => lemma_no_debug_nodes(children@, custom),
        RenderNode::Emphasis { children } => lemma_no_debug_nodes(children@, custom),
        RenderNode::Strikethrough { children } => lemma_no_debug_nodes(children@, custom),
        RenderNode::List { children, .. } => lemma_no_debug_nodes(children@, custom),
        RenderNode::ListItem { children, .. } => lemma_no_debug_nodes(children@, custom),
        RenderNode::Blockquote { children } => lemma_no_debug_nodes(children@, custom),
        RenderNode::Link { children, .. } => lemma_no_debug_nodes(children@, custom),
        RenderNode::Table { children } => lemma_no_debug_nodes(children@, custom),
        RenderNode::TableRow { children } => lemma_no_debug_nodes(children@, custom),
        RenderNode::TableCell { children } => lemma_no_debug_nodes(children@, custom),
        RenderNode::Html { children } => lemma_no_debug_nodes(children@, custom),
        RenderNode::FootnoteDefinition { children, .. } => lemma_no_debug_nodes(children@, custom),
        RenderNode::Component(c) => lemma_no_debug_component(c, custom),
        _ => {},
    }
}

proof fn lemma_no_debug_component(c: ComponentNode, custom: Seq<(String, String)>)
    ensures
        uses_component(c, custom, false) == 0,
    decreases c,
{
    lemma_no_debug_nodes(c.children@, custom);
    lemma_no_debug_tabs(c.children@, custom);
}

proof fn lemma_no_debug_tabs(ns: Seq<RenderNode>, custom: Seq<(String, String)>)
    ensures
        tab_uses(ns, custom, false) == 0,
    decreases ns,
{
    if ns.len() > 0 {
        assert(decreases_to!(ns => ns[ns.len() - 1]));
        lemma_no_debug_tabs(ns.drop_last(), custom);
        match ns.last() {
            RenderNode::Component(c) => lemma_no_debug_nodes(c.children@, custom),
            _ => {},
        }
        assert(tab_use(ns.last(), custom, false) == 0);
    }
}

/// Reads the system clock: the nanoseconds since the Unix epoch.
///
/// Calls `std::time::SystemTime::now()` and `duration_since(UNIX_EPOCH)`, keeping the
/// nanoseconds. The result depends on the clock, so nothing is stated of it; it is
/// `None` where the clock reads before the epoch.
#[verifier::external_body]
fn unix_nanos_now() -> (r: Option<u128>) {
    std::time::SystemTime::now().duration_since(std::time::UNIX_EPOCH).ok().map(|d| d.as_nanos())
}

/// The id of the next debug outline, when debugging: a clock reading (0 where the
/// clock reads before the epoch), recorded in `ids`.
fn next_debug_id(debug: bool, ids: &mut Vec<u128>) -> (r: String)
    ensures
        final(ids)@.len() == old(ids)@.len() + dbg(debug),
        final(ids)@.take(old(ids)@.len() as int) == old(ids)@,
        debug ==> r@ == debug_id(final(ids)@[old(ids)@.len() as int]),
{
    if debug {
        let v: u128 = match unix_nanos_now() {
            Some(n) => n,
            None => 0,
        };
        ids.push(v);
        let mut s = String::from_str("oxidoc-dbg-");
        push_decimal(&mut s, v);
        assert(ids@.take(old(ids)@.len() as int) =~= old(ids)@);
        s
    } else {
        String::new()
    }
}

fn custom_src_exec(custom: &[(String, String)], name: &str) -> (r: Option<String>)
    ensures
        match custom_src(custom@, name@) {
            Some(js) => r matches Some(s) && s@ == js,
            None => r is None,
        },
{
    let mut i: usize = 0;
    assert(custom@.skip(0) =~= custom@);
    while i < custom.len()
        invariant
            i <= custom@.len(),
            custom_src(custom@, name@) == custom_src(custom@.skip(i as int), name@),
        decreases custom@.len() - i,
    {
        assert(custom@.skip(i as int)[0] == custom@[i as int]);
        if str_eq(custom[i].0.as_str(), name) {
            return Some(custom[i].1.clone());
        }
        assert(custom@.skip(i as int).drop_first() =~= custom@.skip(i + 1));
        i = i + 1;
    }
    None
}

fn push_web_component(name: &str, attrs: &Vec<(String, AttrValue)>, js: &str, out: &mut String)
    ensures
        final(out)@ == old(out)@ + web_component_html(name@, attrs@, js@),
{
    out.append("<");
    out.append(name);
    let ghost start = out@;
    let mut i: usize = 0;
    while i < attrs.len()
        invariant
            i <= attrs@.len(),
            out@ == start + web_attrs(attrs@.take(i as int)),
        decreases attrs@.len() - i,
    {
        out.append(" ");
        out.append(attrs[i].0.as_str());
        out.append("=\"");
        let mut text = String::new();
        push_attr_text(&mut text, &attrs[i].1);
        assert(text@ =~= attr_text(attrs@[i as int].1));
        push_escaped(text.as_str(), out);
        out.append("\"");
        i = i + 1;
        proof {
            let t = attrs@.take(i as int);
            assert(t.drop_last() =~= attrs@.take(i - 1));
            assert(t.last() == attrs@[i - 1]);
        }
    }
    assert(attrs@.take(i as int) =~= attrs@);
    out.append("></");
    out.append(name);
    out.append("><script src=\"");
    push_escaped(js, out);
    out.append("\" type=\"module\" async></script>");
}

#[verifier::spinoff_prover]
#[verifier::rlimit(60)]
fn push_island(name: &str, props: &str, content: &str, debug: bool, id: &str, out: &mut String)
    ensures
        final(out)@ == old(out)@ + island_html(name@, props@, content@, debug, id@),
{
    let lower = str_to_lowercase(name);
    let mut body = String::from_str("<oxidoc-island data-island-type=\"");
    push_escaped(lower.as_str(), &mut body);
    body.append("\" data-props=\"");
    push_escaped(props, &mut body);
    body.append("\">");
    body.append(content);
    body.append("</oxidoc-island>");
    assert(body@ =~= "<oxidoc-island data-island-type=\""@ + esc(lowercase_of(name@)) + "\" data-props=\""@
        + esc(props@) + "\">"@ + content@ + "</oxidoc-island>"@);
    debug_wrap(name, body.as_str(), debug, id, out);
}

/// Appends `body` to `out`, inside the debug outline of the island `name` with the
/// id `id` when `debug` is on.
pub fn debug_wrap(name: &str, body: &str, debug: bool, id: &str, out: &mut String)
    ensures
        final(out)@ == old(out)@ + debug_outline(name@, body@, debug, id@),
{
    if debug {
        out.append(DEBUG_OPEN);
        out.append(id);
        out.append(DEBUG_COMPONENT);
        out.append(name);
        out.append(DEBUG_RENDER);
        out.append(DEBUG_LABEL);
        out.append(name);
        out.append(DEBUG_LABEL_END);
        out.append(body);
        out.append(DEBUG_SCRIPT);
        out.append(id);
        out.append(DEBUG_SCRIPT_HYDRATED);
        out.append(name);
        out.append(DEBUG_SCRIPT_FAILED);
        out.append(name);
        out.append(DEBUG_SCRIPT_END);
        out.append("</div>");
    } else {
        out.append(body);
    }
}

fn push_callout(attrs: &Vec<(String, AttrValue)>, inner: &str, out: &mut String)
    ensures
        final(out)@ == old(out)@ + callout_html(attrs@, inner@),
{
    out.append("<div class=\"oxidoc-callout oxidoc-callout-");
    match prop_str_exec(attrs, "kind") {
        Some(k) => out.append(k.as_str()),
        None => out.append("info"),
    }
    out.append("\" role=\"note\">");
    if let Some(t) = prop_str_exec(attrs, "title") {
        out.append("<p class=\"oxidoc-callout-title\"><strong>");
        push_escaped(t.as_str(), out);
        out.append("</strong></p>");
    }
    out.append("<div class=\"oxidoc-callout-content\">");
    out.append(inner);
    out.append("</div></div>");
}

fn push_card(attrs: &Vec<(String, AttrValue)>, inner: &str, out: &mut String)
    ensures
        final(out)@ == old(out)@ + card_html(attrs@, inner@),
{
    proof {
        reveal_strlit("");
    }
    let href = prop_str_exec(attrs, "href");
    match &href {
        Some(h) => {
            out.append("<a href=\"");
            push_escaped(h.as_str(), out);
            out.append("\" class=\"oxidoc-card\">");
        },
        None => out.append("<div class=\"oxidoc-card\">"),
    }
    out.append("<h3 class=\"oxidoc-card-title\">");
    match prop_str_exec(attrs, "title") {
        Some(t) => push_escaped(t.as_str(), out),
        None => push_escaped("", out),
    }
    out.append("</h3>");
    out.append("<div class=\"oxidoc-card-body\">");
    out.append(inner);
    out.append("</div>");
    match &href {
        Some(_) => out.append("</a>"),
        None => out.append("</div>"),
    }
}

fn tab_title_exec(attrs: &Vec<(String, AttrValue)>) -> (r: String)
    ensures
        r@ == tab_title(attrs@),
{
    match prop_str_exec(attrs, "title") {
        Some(t) => t,
        None => String::from_str("Tab"),
    }
}

/// The views of strings.
pub open spec fn string_seqs(v: Seq<String>) -> Seq<Seq<char>> {
    v.map_values(|s: String| s@)
}

fn tab_labels_exec(children: &Vec<RenderNode>) -> (r: Vec<String>)
    ensures
        string_seqs(r@) == tab_labels(children@),
{
    let mut labels: Vec<String> = Vec::new();
    let mut i: usize = 0;
    while i < children.len()
        invariant
            i <= children@.len(),
            string_seqs(labels@) == tab_labels(children@.take(i as int)),
        decreases children@.len() - i,
    {
        proof {
            let t = children@.take(i + 1);
            assert(t.drop_last() =~= children@.take(i as int));
            assert(t.last() == children@[i as int]);
        }
        match &children[i] {
            RenderNode::Component(c) => {
                if str_eq(c.name.as_str(), "Tab") {
                    labels.push(tab_title_exec(&c.attributes));
                }
            },
            _ => {},
        }
        proof {
            assert(string_seqs(labels@) =~= tab_labels(children@.take(i + 1)));
        }
        i = i + 1;
    }
    assert(children@.take(i as int) =~= children@);
    labels
}

fn push_tab_buttons(children: &Vec<RenderNode>, out: &mut String)
    ensures
        final(out)@ == old(out)@ + tab_buttons(children@),
{
    let ghost start = out@;
    let mut i: usize = 0;
    while i < children.len()
        invariant
            i <= children@.len(),
            out@ == start + tab_buttons(children@.take(i as int)),
        decreases children@.len() - i,
    {
        proof {
            let t = children@.take(i + 1);
            assert(t.drop_last() =~= children@.take(i as int));
            assert(t.last() == children@[i as int]);
        }
        match &children[i] {
            RenderNode::Component(c) => {
                if str_eq(c.name.as_str(), "Tab") {
                    out.append("<button role=\"tab\"");
                    if i == 0 {
                        out.append(" class=\"active\"");
                    }
                    out.append(">");
                    let title = tab_title_exec(&c.attributes);
                    push_escaped(title.as_str(), out);
                    out.append("</button>");
                }
            },
            _ => {},
        }
        i = i + 1;
    }
    assert(children@.take(i as int) =~= children@);
}

fn push_json_strings(out: &mut String, ss: &Vec<String>)
    ensures
        final(out)@ == old(out)@ + json_strings(string_seqs(ss@)),
{
    let ghost start = out@;
    let mut i: usize = 0;
    while i < ss.len()
        invariant
            i <= ss@.len(),
            out@ == start + json_strings(string_seqs(ss@).take(i as int)),
        decreases ss@.len() - i,
    {
        if i > 0 {
            out.append(",");
        }
        out.append(json_string(ss[i].as_str()).as_str());
        i = i + 1;
        proof {
            assert(string_seqs(ss@).take(i as int).drop_last() =~= string_seqs(ss@).take(i - 1));
            if i == 1 {
                assert(json_strings(string_seqs(ss@).take(0)) =~= Seq::<char>::empty());
            }
        }
    }
    assert(string_seqs(ss@).take(i as int) =~= string_seqs(ss@));
}

fn storage_key_exec(attrs: &Vec<(String, AttrValue)>) -> (r: Option<String>)
    ensures
        match storage_key_json(attrs@) {
            Some(k) => r matches Some(s) && s@ == k,
            None => r is None,
        },
{
    let idx = match attr_index_exec(attrs, "storage_key") {
        Some(i) => Some(i),
        None => attr_index_exec(attrs, "storageKey"),
    };
    match idx {
        Some(i) => {
            let mut s = String::new();
            push_attr_json(&mut s, &attrs[i].1);
            assert(s@ =~= attr_json(attrs@[i as int].1));
            Some(s)
        },
        None => None,
    }
}

fn line_numbers_exec(attrs: &Vec<(String, AttrValue)>) -> (r: bool)
    ensures
        r == line_numbers_of(attrs@),
{
    match attr_index_exec(attrs, "lineNumbers") {
        Some(i) => match &attrs[i].1 {
            AttrValue::Bool(b) => *b,
            _ => false,
        },
        None => match prop_bool_exec(attrs, "line_numbers") {
            Some(b) => b,
            None => false,
        },
    }
}

fn push_static_code_block(c: &ComponentNode, code: &str, comment_lines: &Vec<usize>, out: &mut String)
    requires
        code@ == component_code(*c),
        comment_lines@ == component_comment_lines(*c),
    ensures
        final(out)@ == old(out)@ + static_code_block(*c),
{
    let language = match prop_str_exec(&c.attributes, "language") {
        Some(l) => l,
        None => String::new(),
    };
    let highlight_attr = match prop_str_exec(&c.attributes, "highlight") {
        Some(h) => h,
        None => String::new(),
    };
    let mut lines = parse_highlight_ranges(highlight_attr.as_str());
    let ghost attr_lines = lines@;
    let mut j: usize = 0;
    while j < comment_lines.len()
        invariant
            j <= comment_lines@.len(),
            lines@ == attr_lines + comment_lines@.take(j as int),
        decreases comment_lines@.len() - j,
    {
        lines.push(comment_lines[j]);
        j = j + 1;
        assert(comment_lines@.take(j as int) =~= comment_lines@.take(j - 1).push(comment_lines@[j - 1]));
    }
    assert(comment_lines@.take(j as int) =~= comment_lines@);
    let raw_html: String = match &c.highlighted {
        Some(h) => {
            if language.unicode_len() > 0 {
                h.clone()
            } else {
                html_escape(code)
            }
        },
        None => html_escape(code),
    };
    let wrapped = wrap_lines_with_highlights(raw_html.as_str(), lines.as_slice());
    let mut block = String::from_str("<pre><code class=\"language-");
    push_escaped(language.as_str(), &mut block);
    block.append("\">");
    block.append(wrapped.as_str());
    block.append(COPY_BUTTON);
    match prop_str_exec(&c.attributes, "filename") {
        Some(f) => {
            out.append("<div class=\"oxidoc-codeblock\"><div class=\"oxidoc-codeblock-header\"><span>");
            push_escaped(f.as_str(), out);
            out.append("</span><span>");
            push_escaped(language.as_str(), out);
            out.append("</span></div><div class=\"oxidoc-codeblock-body\">");
            out.append(block.as_str());
            out.append("</div></div>");
        },
        None => out.append(block.as_str()),
    }
}

fn push_tab_content(n: &RenderNode, custom: &[(String, String)], debug: bool, ids: &mut Vec<u128>, contents: &mut Vec<String>)
    ensures
        final(ids)@.len() == old(ids)@.len() + tab_use(*n, custom@, debug),
        final(ids)@.take(old(ids)@.len() as int) == old(ids)@,
        string_seqs(final(contents)@) == string_seqs(old(contents)@) + tab_content(*n, custom@, debug, final(ids)@.skip(old(ids)@.len() as int)),
    decreases *n, 1nat,
{
    match n {
        RenderNode::Component(c) => {
            if str_eq(c.name.as_str(), "Tab") {
                let mut html = String::new();
                render_nodes(&c.children, custom, debug, ids, &mut html);
                contents.push(html);
                assert(string_seqs(contents@) =~= string_seqs(old(contents)@) + seq![html@]);
            } else {
                assert(ids@.take(ids@.len() as int) =~= ids@);
                assert(string_seqs(contents@) =~= string_seqs(old(contents)@) + Seq::<Seq<char>>::empty());
            }
        },
        _ => {
            assert(ids@.take(ids@.len() as int) =~= ids@);
            assert(string_seqs(contents@) =~= string_seqs(old(contents)@) + Seq::<Seq<char>>::empty());
        },
    }
}

fn tab_contents_exec(children: &Vec<RenderNode>, custom: &[(String, String)], debug: bool, ids: &mut Vec<u128>) -> (r: Vec<String>)
    ensures
        final(ids)@.len() == old(ids)@.len() + tab_uses(children@, custom@, debug),
        final(ids)@.take(old(ids)@.len() as int) == old(ids)@,
        string_seqs(r@) == tab_contents(children@, custom@, debug, final(ids)@.skip(old(ids)@.len() as int)),
    decreases children@, 1nat,
{
    let ghost ids0 = ids@;
    let mut contents: Vec<String> = Vec::new();
    let mut i: usize = 0;
    assert(ids@.skip(ids0.len() as int) =~= Seq::<u128>::empty());
    assert(ids@.take(ids0.len() as int) =~= ids0);
    assert(string_seqs(contents@) =~= tab_contents(children@.take(0), custom@, debug, Seq::empty()));
    while i < children.len()
        invariant
            i <= children@.len(),
            ids@.len() == ids0.len() + tab_uses(children@.take(i as int), custom@, debug),
            ids@.take(ids0.len() as int) == ids0,
            string_seqs(contents@) == tab_contents(children@.take(i as int), custom@, debug, ids@.skip(ids0.len() as int)),
        decreases children@.len() - i,
    {
        let ghost ids_before = ids@;
        let ghost before = string_seqs(contents@);
        proof {
            assert(decreases_to!(children@ => children@[i as int]));
            let t = children@.take(i + 1);
            assert(t.drop_last() =~= children@.take(i as int));
            assert(t.last() == children@[i as int]);
        }
        push_tab_content(&children[i], custom, debug, ids, &mut contents);
        proof {
            let used = ids@.skip(ids0.len() as int);
            let k = tab_uses(children@.take(i as int), custom@, debug);
            assert(used.take(k as int) =~= ids_before.skip(ids0.len() as int));
            assert(used.skip(k as int) =~= ids@.skip(ids_before.len() as int));
            assert(ids@.take(ids0.len() as int) =~= ids0);
            assert(string_seqs(contents@) =~= before + tab_content(children@[i as int], custom@, debug, used.skip(k as int)));
        }
        i = i + 1;
    }
    assert(children@.take(i as int) =~= children@);
    contents
}

fn push_tab_panel(n: &RenderNode, first: bool, custom: &[(String, String)], debug: bool, ids: &mut Vec<u128>, out: &mut String)
    ensures
        final(ids)@.len() == old(ids)@.len() + tab_use(*n, custom@, debug),
        final(ids)@.take(old(ids)@.len() as int) == old(ids)@,
        final(out)@ == old(out)@ + tab_panel(*n, first, custom@, debug, final(ids)@.skip(old(ids)@.len() as int)),
    decreases *n, 1nat,
{
    match n {
        RenderNode::Component(c) => {
            if str_eq(c.name.as_str(), "Tab") {
                out.append("<div class=\"oxidoc-tab-panel\" role=\"tabpanel\"");
                if !first {
                    out.append(" hidden");
                }
                out.append(">");
                render_nodes(&c.children, custom, debug, ids, out);
                out.append("</div>");
            } else {
                assert(ids@.skip(ids@.len() as int) =~= Seq::<u128>::empty());
                assert(ids@.take(ids@.len() as int) =~= ids@);
            }
        },
        _ => {
            assert(ids@.take(ids@.len() as int) =~= ids@);
        },
    }
}

fn push_tab_panels(children: &Vec<RenderNode>, custom: &[(String, String)], debug: bool, ids: &mut Vec<u128>, out: &mut String)
    ensures
        final(ids)@.len() == old(ids)@.len() + tab_uses(children@, custom@, debug),
        final(ids)@.take(old(ids)@.len() as int) == old(ids)@,
        final(out)@ == old(out)@ + tab_panels(children@, custom@, debug, final(ids)@.skip(old(ids)@.len() as int)),
    decreases children@, 1nat,
{
    let ghost ids0 = ids@;
    let ghost start = out@;
    let mut i: usize = 0;
    assert(ids@.skip(ids0.len() as int) =~= Seq::<u128>::empty());
    assert(ids@.take(ids0.len() as int) =~= ids0);
    while i < children.len()
        invariant
            i <= children@.len(),
            ids@.len() == ids0.len() + tab_uses(children@.take(i as int), custom@, debug),
            ids@.take(ids0.len() as int) == ids0,
            out@ == start + tab_panels(children@.take(i as int), custom@, debug, ids@.skip(ids0.len() as int)),
        decreases children@.len() - i,
    {
        let ghost ids_before = ids@;
        proof {
            assert(decreases_to!(children@ => children@[i as int]));
            let t = children@.take(i + 1);
            assert(t.drop_last() =~= children@.take(i as int));
            assert(t.last() == children@[i as int]);
        }
        push_tab_panel(&children[i], i == 0, custom, debug, ids, out);
        proof {
            let used = ids@.skip(ids0.len() as int);
            let k = tab_uses(children@.take(i as int), custom@, debug);
            assert(used.take(k as int) =~= ids_before.skip(ids0.len() as int));
            assert(used.skip(k as int) =~= ids@.skip(ids_before.len() as int));
            assert(ids@.take(ids0.len() as int) =~= ids0);
        }
        i = i + 1;
    }
    assert(children@.take(i as int) =~= children@);
}

fn tabs_json_exec(labels: &Vec<String>, contents: &Vec<String>, storage_key: &Option<String>) -> (r: String)
    ensures
        r@ == tabs_json(string_seqs(labels@), string_seqs(contents@), match storage_key {
            Some(k) => Some(k@),
            None => None,
        }),
{
    let mut json = String::from_str("{\"contents\":[");
    push_json_strings(&mut json, contents);
    json.append("],\"labels\":[");
    push_json_strings(&mut json, labels);
    json.append("]");
    if let Some(k) = storage_key {
        json.append(",\"storage_key\":");
        json.append(k.as_str());
    }
    json.append("}");
    json
}

fn render_cards(c: &ComponentNode, custom: &[(String, String)], debug: bool, ids: &mut Vec<u128>, out: &mut String)
    requires
        custom_src(custom@, c.name@) is None,
        c.name@ == "Callout"@ || c.name@ == "CardGrid"@ || c.name@ == "Card"@,
    ensures
        final(ids)@.len() == old(ids)@.len() + uses_component(*c, custom@, debug),
        final(ids)@.take(old(ids)@.len() as int) == old(ids)@,
        final(out)@ == old(out)@ + component_html(*c, custom@, debug, final(ids)@.skip(old(ids)@.len() as int)),
    decreases *c, 0nat,
{
    let mut inner = String::new();
    render_nodes(&c.children, custom, debug, ids, &mut inner);
    assert(inner@ =~= rendered(c.children@, custom@, debug, ids@.skip(old(ids)@.len() as int)));
    if str_eq(c.name.as_str(), "Callout") {
        push_callout(&c.attributes, inner.as_str(), out);
    } else if str_eq(c.name.as_str(), "CardGrid") {
        out.append("<div class=\"oxidoc-card-grid\">");
        out.append(inner.as_str());
        out.append("</div>");
    } else {
        push_card(&c.attributes, inner.as_str(), out);
    }
}

#[verifier::spinoff_prover]
#[verifier::rlimit(80)]
fn render_tabs(c: &ComponentNode, custom: &[(String, String)], debug: bool, ids: &mut Vec<u128>, out: &mut String)
    requires
        custom_src(custom@, c.name@) is None,
        c.name@ != "Callout"@,
        c.name@ != "CardGrid"@,
        c.name@ != "Card"@,
        c.name@ == "Tabs"@,
    ensures
        final(ids)@.len() == old(ids)@.len() + uses_component(*c, custom@, debug),
        final(ids)@.take(old(ids)@.len() as int) == old(ids)@,
        final(out)@ == old(out)@ + component_html(*c, custom@, debug, final(ids)@.skip(old(ids)@.len() as int)),
    decreases *c, 0nat,
{
    let ghost ids0 = ids@;
    let labels = tab_labels_exec(&c.children);
    let contents = tab_contents_exec(&c.children, custom, debug, ids);
    let ghost ids_a = ids@;
    let sk = storage_key_exec(&c.attributes);
    let props = tabs_json_exec(&labels, &contents, &sk);
    let id = next_debug_id(debug, ids);
    let ghost ids_b = ids@;
    let mut fallback = String::from_str("<div class=\"oxidoc-tabs\"><div class=\"oxidoc-tabs-nav\" role=\"tablist\">");
    push_tab_buttons(&c.children, &mut fallback);
    fallback.append("</div>");
    push_tab_panels(&c.children, custom, debug, ids, &mut fallback);
    fallback.append("</div>");
    proof {
        let used = ids@.skip(ids0.len() as int);
        let k = tab_uses(c.children@, custom@, debug);
        assert(used.take(k as int) =~= ids_a.skip(ids0.len() as int));
        assert(used.skip((k + dbg(debug)) as int) =~= ids@.skip(ids_b.len() as int));
        if debug {
            assert(used[k as int] == ids_b[ids_a.len() as int]);
        }
        assert(ids_b.take(ids_a.len() as int) == ids_a);
        assert(ids@.take(ids0.len() as int) =~= ids0);
        assert(match sk {
            Some(s) => Some(s@),
            None => None,
        } == storage_key_json(c.attributes@));
    }
    push_island(c.name.as_str(), props.as_str(), fallback.as_str(), debug, id.as_str(), out);
}

#[verifier::spinoff_prover]
#[verifier::rlimit(80)]
fn render_tab(c: &ComponentNode, custom: &[(String, String)], debug: bool, ids: &mut Vec<u128>, out: &mut String)
    requires
        custom_src(custom@, c.name@) is None,
        c.name@ != "Callout"@,
        c.name@ != "CardGrid"@,
        c.name@ != "Card"@,
        c.name@ != "Tabs"@,
        c.name@ == "Tab"@,
    ensures
        final(ids)@.len() == old(ids)@.len() + uses_component(*c, custom@, debug),
        final(ids)@.take(old(ids)@.len() as int) == old(ids)@,
        final(out)@ == old(out)@ + component_html(*c, custom@, debug, final(ids)@.skip(old(ids)@.len() as int)),
    decreases *c, 0nat,
{
    let ghost ids0 = ids@;
    let props = attrs_json_exec(&c.attributes);
    let id = next_debug_id(debug, ids);
    let ghost ids_b = ids@;
    let mut fallback = String::new();
    if let Some(t) = prop_str_exec(&c.attributes, "title") {
        if t.unicode_len() > 0 {
            fallback.append("<strong>");
            push_escaped(t.as_str(), &mut fallback);
            fallback.append("</strong>");
        }
    }
    let ghost head = fallback@;
    render_nodes(&c.children, custom, debug, ids, &mut fallback);
    proof {
        reveal_strlit("");
        let used = ids@.skip(ids0.len() as int);
        assert(used.skip(dbg(debug) as int) =~= ids@.skip(ids_b.len() as int));
        if debug {
            assert(used[0] == ids_b[ids0.len() as int]);
        }
        assert(ids_b.take(ids0.len() as int) == ids0);
        assert(ids@.take(ids0.len() as int) =~= ids0);
        let title = or_else(prop_str(c.attributes@, "title"@), Seq::empty());
        assert(head == (if title.len() > 0 {
            "<strong>"@ + esc(title) + "</strong>"@
        } else {
            Seq::<char>::empty()
        }));
    }
    push_island(c.name.as_str(), props.as_str(), fallback.as_str(), debug, id.as_str(), out);
}

#[verifier::spinoff_prover]
#[verifier::rlimit(80)]
fn render_accordion(c: &ComponentNode, custom: &[(String, String)], debug: bool, ids: &mut Vec<u128>, out: &mut String)
    requires
        custom_src(custom@, c.name@) is None,
        c.name@ != "Callout"@,
        c.name@ != "CardGrid"@,
        c.name@ != "Card"@,
        c.name@ != "Tabs"@,
        c.name@ != "Tab"@,
        c.name@ == "Accordion"@,
    ensures
        final(ids)@.len() == old(ids)@.len() + uses_component(*c, custom@, debug),
        final(ids)@.take(old(ids)@.len() as int) == old(ids)@,
        final(out)@ == old(out)@ + component_html(*c, custom@, debug, final(ids)@.skip(old(ids)@.len() as int)),
    decreases *c, 0nat,
{
    let ghost ids0 = ids@;
    let mut content = String::new();
    render_nodes(&c.children, custom, debug, ids, &mut content);
    let ghost ids_a = ids@;
    let title = match prop_str_exec(&c.attributes, "title") {
        Some(t) => t,
        None => String::new(),
    };
    let open = match prop_bool_exec(&c.attributes, "open") {
        Some(b) => b,
        None => false,
    };
    let multiple = match prop_bool_exec(&c.attributes, "multiple") {
        Some(b) => b,
        None => false,
    };
    let props = accordion_props(title.as_str(), content.as_str(), open, multiple);
    let id = next_debug_id(debug, ids);
    let ghost ids_b = ids@;
    let mut fallback = String::from_str("<details class=\"oxidoc-accordion\"><summary>");
    push_escaped(title.as_str(), &mut fallback);
    fallback.append("</summary><div class=\"oxidoc-accordion-content\"><div>");
    render_nodes(&c.children, custom, debug, ids, &mut fallback);
    fallback.append("</div></div></details>");
    proof {
        let used = ids@.skip(ids0.len() as int);
        let k = uses_nodes(c.children@, custom@, debug);
        assert(used.take(k as int) =~= ids_a.skip(ids0.len() as int));
        assert(used.skip((k + dbg(debug)) as int) =~= ids@.skip(ids_b.len() as int));
        if debug {
            assert(used[k as int] == ids_b[ids_a.len() as int]);
        }
        assert(ids_b.take(ids_a.len() as int) == ids_a);
        assert(ids@.take(ids0.len() as int) =~= ids0);
        assert(content@ =~= rendered(c.children@, custom@, debug, used.take(k as int)));
    }
    push_island(c.name.as_str(), props.as_str(), fallback.as_str(), debug, id.as_str(), out);
}

#[verifier::spinoff_prover]
#[verifier::rlimit(80)]
fn render_code_block_island(c: &ComponentNode, custom: &[(String, String)], debug: bool, ids: &mut Vec<u128>, out: &mut String)
    requires
        custom_src(custom@, c.name@) is None,
        c.name@ != "Callout"@,
        c.name@ != "CardGrid"@,
        c.name@ != "Card"@,
        c.name@ != "Tabs"@,
        c.name@ != "Tab"@,
        c.name@ != "Accordion"@,
        c.name@ == "CodeBlock"@,
    ensures
        final(ids)@.len() == old(ids)@.len() + uses_component(*c, custom@, debug),
        final(ids)@.take(old(ids)@.len() as int) == old(ids)@,
        final(out)@ == old(out)@ + component_html(*c, custom@, debug, final(ids)@.skip(old(ids)@.len() as int)),
    decreases *c, 0nat,
{
    let ghost ids0 = ids@;
    let (code, lines) = code_block_source(c.raw_content.as_str(), &c.children);
    let language = match prop_str_exec(&c.attributes, "language") {
        Some(l) => l,
        None => String::new(),
    };
    let filename = match prop_str_exec(&c.attributes, "filename") {
        Some(f) => f,
        None => String::new(),
    };
    let line_numbers = line_numbers_exec(&c.attributes);
    let highlight = prop_str_exec(&c.attributes, "highlight");
    let highlight_attr: Option<&str> = match &highlight {
        Some(h) => Some(h.as_str()),
        None => None,
    };
    let highlighted: Option<&str> = match &c.highlighted {
        Some(h) => Some(h.as_str()),
        None => None,
    };
    let props = code_block_props(
        language.as_str(),
        filename.as_str(),
        line_numbers,
        highlight_attr,
        code.as_str(),
        &lines,
        highlighted,
    );
    let id = next_debug_id(debug, ids);
    let mut fallback = String::new();
    push_static_code_block(c, code.as_str(), &lines, &mut fallback);
    proof {
        let used = ids@.skip(ids0.len() as int);
        if debug {
            assert(used[0] == ids@[ids0.len() as int]);
        }
        assert(opt_chars(highlight_attr) == prop_str(c.attributes@, "highlight"@));
        assert(opt_chars(highlighted) == match c.highlighted {
            Some(h) => Some(h@),
            None => None,
        });
    }
    push_island(c.name.as_str(), props.as_str(), fallback.as_str(), debug, id.as_str(), out);
}

#[verifier::spinoff_prover]
#[verifier::rlimit(80)]
fn render_unknown_island(c: &ComponentNode, custom: &[(String, String)], debug: bool, ids: &mut Vec<u128>, out: &mut String)
    requires
        custom_src(custom@, c.name@) is None,
        c.name@ != "Callout"@,
        c.name@ != "CardGrid"@,
        c.name@ != "Card"@,
        c.name@ != "Tabs"@,
        c.name@ != "Tab"@,
        c.name@ != "Accordion"@,
        c.name@ != "CodeBlock"@,
    ensures
        final(ids)@.len() == old(ids)@.len() + uses_component(*c, custom@, debug),
        final(ids)@.take(old(ids)@.len() as int) == old(ids)@,
        final(out)@ == old(out)@ + component_html(*c, custom@, debug, final(ids)@.skip(old(ids)@.len() as int)),
    decreases *c, 0nat,
{
    let ghost ids0 = ids@;
    let props = attrs_json_exec(&c.attributes);
    let id = next_debug_id(debug, ids);
    let ghost ids_b = ids@;
    let mut content = String::new();
    render_nodes(&c.children, custom, debug, ids, &mut content);
    proof {
        let used = ids@.skip(ids0.len() as int);
        assert(used.skip(dbg(debug) as int) =~= ids@.skip(ids_b.len() as int));
        if debug {
            assert(used[0] == ids_b[ids0.len() as int]);
        }
        assert(ids_b.take(ids0.len() as int) == ids0);
        assert(ids@.take(ids0.len() as int) =~= ids0);
        assert(content@ =~= rendered(c.children@, custom@, debug, used.skip(dbg(debug) as int)));
    }
    push_island(c.name.as_str(), props.as_str(), content.as_str(), debug, id.as_str(), out);
}

fn render_component_with(c: &ComponentNode, custom: &[(String, String)], debug: bool, ids: &mut Vec<u128>, out: &mut String)
    ensures
        final(ids)@.len() == old(ids)@.len() + uses_component(*c, custom@, debug),
        final(ids)@.take(old(ids)@.len() as int) == old(ids)@,
        final(out)@ == old(out)@ + component_html(*c, custom@, debug, final(ids)@.skip(old(ids)@.len() as int)),
    decreases *c, 1nat,
{
    let name = c.name.as_str();
    match custom_src_exec(custom, name) {
        Some(js) => {
            push_web_component(name, &c.attributes, js.as_str(), out);
            assert(ids@.take(ids@.len() as int) =~= ids@);
        },
        None => {
            if str_eq(name, "Callout") || str_eq(name, "CardGrid") || str_eq(name, "Card") {
                render_cards(c, custom, debug, ids, out);
            } else if str_eq(name, "Tabs") {
                render_tabs(c, custom, debug, ids, out);
            } else if str_eq(name, "Tab") {
                render_tab(c, custom, debug, ids, out);
            } else if str_eq(name, "Accordion") {
                render_accordion(c, custom, debug, ids, out);
            } else if str_eq(name, "CodeBlock") {
                render_code_block_island(c, custom, debug, ids, out);
            } else {
                render_unknown_island(c, custom, debug, ids, out);
            }
        },
    }
}

/// Appends the HTML of a component to `out`: a custom web component as it is, a
/// built-in static component as HTML, and any other as an island. With
/// `debug_islands`, each island gets a debug outline whose id comes from the clock, so
/// the result is the component for some readings of it.
pub fn render_component(c: &ComponentNode, custom: &[(String, String)], debug_islands: bool, out: &mut String)
    ensures
        exists|ids: Seq<u128>| final(out)@ == old(out)@ + component_html(*c, custom@, debug_islands, ids),
        !debug_islands ==> final(out)@ == old(out)@ + component_html(*c, custom@, false, Seq::empty()),
{
    let mut ids: Vec<u128> = Vec::new();
    render_component_with(c, custom, debug_islands, &mut ids, out);
    proof {
        assert(ids@.skip(0) =~= ids@);
        if !debug_islands {
            lemma_no_debug_component(*c, custom@);
            assert(ids@ =~= Seq::<u128>::empty());
        }
    }
}

/// Appends the HTML of `nodes` to `out`.
pub fn render_nodes(
    nodes: &Vec<RenderNode>,
    custom: &[(String, String)],
    debug: bool,
    ids: &mut Vec<u128>,
    out: &mut String,
)
    ensures
        final(ids)@.len() == old(ids)@.len() + uses_nodes(nodes@, custom@, debug),
        final(ids)@.take(old(ids)@.len() as int) == old(ids)@,
        final(out)@ == old(out)@ + rendered(nodes@, custom@, debug, final(ids)@.skip(old(ids)@.len() as int)),
    decreases nodes@, 0nat,
{
    let ghost start = out@;
    let ghost ids0 = ids@;
    let mut i: usize = 0;
    assert(ids@.skip(ids0.len() as int) =~= Seq::<u128>::empty());
    assert(ids@.take(ids0.len() as int) =~= ids0);
    while i < nodes.len()
        invariant
            i <= nodes@.len(),
            ids@.len() == ids0.len() + uses_nodes(nodes@.take(i as int), custom@, debug),
            ids@.take(ids0.len() as int) == ids0,
            out@ == start + rendered(nodes@.take(i as int), custom@, debug, ids@.skip(ids0.len() as int)),
        decreases nodes@.len() - i,
    {
        let n = &nodes[i];
        let ghost ids_before = ids@;
        proof {
            assert(decreases_to!(nodes@ => nodes@[i as int]));
            let t = nodes@.take(i + 1);
            assert(t.drop_last() =~= nodes@.take(i as int));
            assert(t.last() == *n);
        }
        push_node(n, custom, debug, ids, out);
        proof {
            let used = ids@.skip(ids0.len() as int);
            let k = uses_nodes(nodes@.take(i as int), custom@, debug);
            assert(used.take(k as int) =~= ids_before.skip(ids0.len() as int));
            assert(used.skip(k as int) =~= ids@.skip(ids_before.len() as int));
            assert(ids@.take(ids0.len() as int) =~= ids0);
        }
        i = i + 1;
    }
    assert(nodes@.take(i as int) =~= nodes@);
}

/// Render the nodes of a parsed page into an HTML string. `custom_components` maps
/// the names of custom web components to their scripts. With `debug_islands`, each
/// island gets a debug outline whose id comes from the clock, so the result is the
/// page for some readings of it; without, the page is fixed.
pub fn render_document(children: &Vec<RenderNode>, custom_components: &[(String, String)], debug_islands: bool) -> (r: String)
    ensures
        exists|ids: Seq<u128>| r@ == rendered(children@, custom_components@, debug_islands, ids),
        !debug_islands ==> r@ == rendered(children@, custom_components@, false, Seq::empty()),
{
    let mut html = String::new();
    let mut ids: Vec<u128> = Vec::new();
    render_nodes(children, custom_components, debug_islands, &mut ids, &mut html);
    proof {
        assert(ids@.skip(0) =~= ids@);
        if !debug_islands {
            lemma_no_debug_nodes(children@, custom_components@);
            assert(ids@ =~= Seq::<u128>::empty());
        }
    }
    html
}

// ---------------------------------------------------------------------------
// Further static renderings
// ---------------------------------------------------------------------------

/// An optional ` name="value"` attribute, escaped; nothing for an empty value.
pub open spec fn size_attr(name: Seq<char>, value: Seq<char>) -> Seq<char> {
    if value.len() == 0 {
        Seq::<char>::empty()
    } else {
        " "@ + name + "=\""@ + esc(value) + "\""@
    }
}

/// A themed image: the `dark` source (the `light` one by default) for dark color
/// schemes, the `light` one otherwise, with its alternative text and sizes.
pub open spec fn themed_image_html(attrs: Seq<(String, AttrValue)>) -> Seq<char> {
    let light = or_else(prop_str(attrs, "light"@), Seq::empty());
    let dark = or_else(prop_str(attrs, "dark"@), light);
    "<picture class=\"oxidoc-themed-image\"><source media=\"(prefers-color-scheme: dark)\" srcset=\""@
        + esc(dark) + "\"><img src=\""@ + esc(light) + "\" alt=\""@ + esc(
        or_else(prop_str(attrs, "alt"@), Seq::empty()),
    ) + "\""@ + size_attr("width"@, or_else(prop_str(attrs, "width"@), Seq::empty())) + size_attr(
        "height"@,
        or_else(prop_str(attrs, "height"@), Seq::empty()),
    ) + " loading=\"lazy\"></picture>"@
}

/// The kind of a badge or tag: `variant`, else `kind`, else `info`.
pub open spec fn variant_of(attrs: Seq<(String, AttrValue)>) -> Seq<char> {
    match prop_str(attrs, "variant"@) {
        Some(v) => v,
        None => or_else(prop_str(attrs, "kind"@), "info"@),
    }
}

/// The text of a badge or tag, empty without one.
pub open spec fn label_text(attrs: Seq<(String, AttrValue)>) -> Seq<char> {
    or_else(prop_str(attrs, "text"@), Seq::empty())
}

/// How many clock readings a badge or tag takes: its children are rendered only
/// when it has no text.
pub open spec fn label_uses(c: ComponentNode, custom: Seq<(String, String)>, debug: bool) -> nat {
    if label_text(c.attributes@).len() == 0 {
        uses_nodes(c.children@, custom, debug)
    } else {
        0
    }
}

/// The text of a badge or tag, escaped, else its children.
pub open spec fn label_body(c: ComponentNode, custom: Seq<(String, String)>, debug: bool, ids: Seq<u128>) -> Seq<char> {
    let text = label_text(c.attributes@);
    if text.len() > 0 {
        esc(text)
    } else {
        rendered(c.children@, custom, debug, ids)
    }
}

/// A badge: its kind as a class, outlined when `outline` is true.
pub open spec fn badge_html(c: ComponentNode, custom: Seq<(String, String)>, debug: bool, ids: Seq<u128>) -> Seq<char> {
    "<span class=\"oxidoc-badge oxidoc-badge-"@ + variant_of(c.attributes@) + (if prop_bool(
        c.attributes@,
        "outline"@,
    ) == Some(true) {
        " oxidoc-badge-outline"@
    } else {
        Seq::<char>::empty()
    }) + "\">"@ + label_body(c, custom, debug, ids) + "</span>"@
}

/// A tag: its kind as a class.
pub open spec fn tag_html(c: ComponentNode, custom: Seq<(String, String)>, debug: bool, ids: Seq<u128>) -> Seq<char> {
    "<span class=\"oxidoc-tag oxidoc-tag-"@ + variant_of(c.attributes@) + "\">"@ + label_body(c, custom, debug, ids)
        + "</span>"@
}

/// A tooltip: its children, and its `text` (else `tip`) as the tooltip.
pub open spec fn tooltip_html(c: ComponentNode, custom: Seq<(String, String)>, debug: bool, ids: Seq<u128>) -> Seq<char> {
    let tip = match prop_str(c.attributes@, "text"@) {
        Some(t) => t,
        None => or_else(prop_str(c.attributes@, "tip"@), Seq::empty()),
    };
    "<span class=\"oxidoc-tooltip\" tabindex=\"0\"><span class=\"oxidoc-tooltip-content\">"@ + rendered(
        c.children@,
        custom,
        debug,
        ids,
    ) + "</span><span class=\"oxidoc-tooltip-text\" role=\"tooltip\">"@ + esc(tip) + "</span></span>"@
}

/// A step on its own: its title in bold when it has one, then its children.
pub open spec fn step_html(c: ComponentNode, custom: Seq<(String, String)>, debug: bool, ids: Seq<u128>) -> Seq<char> {
    let title = or_else(prop_str(c.attributes@, "title"@), Seq::empty());
    (if title.len() > 0 {
        "<strong>"@ + esc(title) + "</strong>"@
    } else {
        Seq::<char>::empty()
    }) + rendered(c.children@, custom, debug, ids)
}

/// Whether `n` is a `Step` component.
pub open spec fn is_step(n: RenderNode) -> bool {
    n matches RenderNode::Component(c) && c.name@ == "Step"@
}

/// How many `Step` components are among the nodes.
pub open spec fn step_count(ns: Seq<RenderNode>) -> nat
    decreases ns.len(),
{
    if ns.len() == 0 {
        0
    } else {
        step_count(ns.drop_last()) + if is_step(ns.last()) {
            1nat
        } else {
            0nat
        }
    }
}

/// How many clock readings one child of a list of steps takes: a `Step`'s children's.
pub open spec fn step_uses(n: RenderNode, custom: Seq<(String, String)>, debug: bool) -> nat {
    match n {
        RenderNode::Component(c) => if c.name@ == "Step"@ {
            uses_nodes(c.children@, custom, debug)
        } else {
            0
        },
        _ => 0,
    }
}

/// How many clock readings the `Step` children take.
pub open spec fn steps_uses(ns: Seq<RenderNode>, custom: Seq<(String, String)>, debug: bool) -> nat
    decreases ns.len(),
{
    if ns.len() == 0 {
        0
    } else {
        steps_uses(ns.drop_last(), custom, debug) + step_uses(ns.last(), custom, debug)
    }
}

/// One numbered step of a list of steps.
pub open spec fn numbered_step(c: ComponentNode, num: nat, custom: Seq<(String, String)>, debug: bool, ids: Seq<u128>) -> Seq<char> {
    let title = or_else(prop_str(c.attributes@, "title"@), Seq::empty());
    "<div class=\"oxidoc-step\"><div class=\"oxidoc-step-indicator\"><span class=\"oxidoc-step-number\">"@
        + decimal(num) + "</span></div><div class=\"oxidoc-step-content\">"@ + (if title.len() > 0 {
        "<h3 class=\"oxidoc-step-title\">"@ + esc(title) + "</h3>"@
    } else {
        Seq::<char>::empty()
    }) + "<div class=\"oxidoc-step-body\">"@ + rendered(c.children@, custom, debug, ids) + "</div></div></div>"@
}

/// One child of a list of steps: a `Step` numbered `num`, nothing for any other node.
pub open spec fn steps_item(n: RenderNode, num: nat, custom: Seq<(String, String)>, debug: bool, ids: Seq<u128>) -> Seq<char> {
    match n {
        RenderNode::Component(c) => if c.name@ == "Step"@ {
            numbered_step(c, num, custom, debug, ids)
        } else {
            Seq::<char>::empty()
        },
        _ => Seq::<char>::empty(),
    }
}

/// The `Step` children, numbered from 1.
pub open spec fn steps_items(ns: Seq<RenderNode>, custom: Seq<(String, String)>, debug: bool, ids: Seq<u128>) -> Seq<char>
    decreases ns.len(),
{
    if ns.len() == 0 {
        Seq::<char>::empty()
    } else {
        let k = steps_uses(ns.drop_last(), custom, debug);
        steps_items(ns.drop_last(), custom, debug, ids.take(k as int)) + steps_item(
            ns.last(),
            step_count(ns.drop_last()) + 1,
            custom,
            debug,
            ids.skip(k as int),
        )
    }
}

/// A list of steps: its `Step` children, numbered.
pub open spec fn steps_html(c: ComponentNode, custom: Seq<(String, String)>, debug: bool, ids: Seq<u128>) -> Seq<char> {
    "<div class=\"oxidoc-steps\">"@ + steps_items(c.children@, custom, debug, ids) + "</div>"@
}

/// The raw text of a head block's node: a text's value, or the texts among an HTML
/// node's children.
pub open spec fn head_node_text(n: RenderNode) -> Seq<char> {
    match n {
        RenderNode::Text { value } => value@,
        RenderNode::Html { children } => head_texts(children@),
        _ => Seq::<char>::empty(),
    }
}

/// The values of the text nodes among `ns`, one after the other.
pub open spec fn head_texts(ns: Seq<RenderNode>) -> Seq<char>
    decreases ns.len(),
{
    if ns.len() == 0 {
        Seq::<char>::empty()
    } else {
        head_texts(ns.drop_last()) + match ns.last() {
            RenderNode::Text { value } => value@,
            _ => Seq::<char>::empty(),
        }
    }
}

/// The raw texts of the head block's nodes, one after the other.
pub open spec fn head_block_texts(ns: Seq<RenderNode>) -> Seq<char>
    decreases ns.len(),
{
    if ns.len() == 0 {
        Seq::<char>::empty()
    } else {
        head_block_texts(ns.drop_last()) + head_node_text(ns.last())
    }
}

/// A head block: the raw texts of its children between the markers that the page
/// template moves into `<head>`.
pub open spec fn head_html(c: ComponentNode) -> Seq<char> {
    "<!--oxidoc-head-start-->"@ + head_block_texts(c.children@) + "<!--oxidoc-head-end-->"@
}

/// Appends a themed image to `out`.
pub fn render_static_themed_image(c: &ComponentNode, out: &mut String)
    ensures
        final(out)@ == old(out)@ + themed_image_html(c.attributes@),
{
    proof {
        reveal_strlit("");
    }
    let attrs = &c.attributes;
    let light = prop_or_empty(attrs, "light");
    let dark = match prop_str_exec(attrs, "dark") {
        Some(d) => d,
        None => prop_or_empty(attrs, "light"),
    };
    let alt = prop_or_empty(attrs, "alt");
    let width = prop_or_empty(attrs, "width");
    let height = prop_or_empty(attrs, "height");
    out.append("<picture class=\"oxidoc-themed-image\"><source media=\"(prefers-color-scheme: dark)\" srcset=\"");
    push_escaped(dark.as_str(), out);
    out.append("\"><img src=\"");
    push_escaped(light.as_str(), out);
    out.append("\" alt=\"");
    push_escaped(alt.as_str(), out);
    out.append("\"");
    push_size_attr("width", width.as_str(), out);
    push_size_attr("height", height.as_str(), out);
    out.append(" loading=\"lazy\"></picture>");
}

fn prop_or_empty(attrs: &Vec<(String, AttrValue)>, key: &str) -> (r: String)
    ensures
        r@ == or_else(prop_str(attrs@, key@), Seq::empty()),
{
    match prop_str_exec(attrs, key) {
        Some(v) => v,
        None => String::new(),
    }
}

fn push_size_attr(name: &str, value: &str, out: &mut String)
    ensures
        final(out)@ == old(out)@ + size_attr(name@, value@),
{
    proof {
        reveal_strlit("");
    }
    if value.unicode_len() > 0 {
        out.append(" ");
        out.append(name);
        out.append("=\"");
        push_escaped(value, out);
        out.append("\"");
    }
}

fn variant_exec(attrs: &Vec<(String, AttrValue)>) -> (r: String)
    ensures
        r@ == variant_of(attrs@),
{
    match prop_str_exec(attrs, "variant") {
        Some(v) => v,
        None => match prop_str_exec(attrs, "kind") {
            Some(k) => k,
            None => String::from_str("info"),
        },
    }
}

fn push_label_body(c: &ComponentNode, custom: &[(String, String)], debug: bool, ids: &mut Vec<u128>, out: &mut String)
    ensures
        final(ids)@.len() == old(ids)@.len() + label_uses(*c, custom@, debug),
        final(ids)@.take(old(ids)@.len() as int) == old(ids)@,
        final(out)@ == old(out)@ + label_body(*c, custom@, debug, final(ids)@.skip(old(ids)@.len() as int)),
{
    let text = match prop_str_exec(&c.attributes, "text") {
        Some(t) => t,
        None => String::new(),
    };
    proof {
        reveal_strlit("");
    }
    if text.unicode_len() > 0 {
        push_escaped(text.as_str(), out);
        assert(ids@.take(ids@.len() as int) =~= ids@);
    } else {
        render_nodes(&c.children, custom, debug, ids, out);
    }
}

/// Appends a badge to `out`; `ids` receives the clock readings of the islands among
/// its children, as for `render_nodes`.
pub fn render_static_badge(c: &ComponentNode, custom: &[(String, String)], debug: bool, ids: &mut Vec<u128>, out: &mut String)
    ensures
        final(ids)@.len() == old(ids)@.len() + label_uses(*c, custom@, debug),
        final(ids)@.take(old(ids)@.len() as int) == old(ids)@,
        final(out)@ == old(out)@ + badge_html(*c, custom@, debug, final(ids)@.skip(old(ids)@.len() as int)),
{
    out.append("<span class=\"oxidoc-badge oxidoc-badge-");
    out.append(variant_exec(&c.attributes).as_str());
    match prop_bool_exec(&c.attributes, "outline") {
        Some(true) => out.append(" oxidoc-badge-outline"),
        _ => {},
    }
    out.append("\">");
    push_label_body(c, custom, debug, ids, out);
    out.append("</span>");
}

/// Appends a tag to `out`; `ids` receives the clock readings of the islands among its
/// children, as for `render_nodes`.
pub fn render_static_tag(c: &ComponentNode, custom: &[(String, String)], debug: bool, ids: &mut Vec<u128>, out: &mut String)
    ensures
        final(ids)@.len() == old(ids)@.len() + label_uses(*c, custom@, debug),
        final(ids)@.take(old(ids)@.len() as int) == old(ids)@,
        final(out)@ == old(out)@ + tag_html(*c, custom@, debug, final(ids)@.skip(old(ids)@.len() as int)),
{
    out.append("<span class=\"oxidoc-tag oxidoc-tag-");
    out.append(variant_exec(&c.attributes).as_str());
    out.append("\">");
    push_label_body(c, custom, debug, ids, out);
    out.append("</span>");
}

/// Appends a tooltip to `out`; `ids` receives the clock readings of the islands among
/// its children, as for `render_nodes`.
pub fn render_static_tooltip(c: &ComponentNode, custom: &[(String, String)], debug: bool, ids: &mut Vec<u128>, out: &mut String)
    ensures
        final(ids)@.len() == old(ids)@.len() + uses_nodes(c.children@, custom@, debug),
        final(ids)@.take(old(ids)@.len() as int) == old(ids)@,
        final(out)@ == old(out)@ + tooltip_html(*c, custom@, debug, final(ids)@.skip(old(ids)@.len() as int)),
{
    let tip = match prop_str_exec(&c.attributes, "text") {
        Some(t) => t,
        None => match prop_str_exec(&c.attributes, "tip") {
            Some(t) => t,
            None => String::new(),
        },
    };
    out.append("<span class=\"oxidoc-tooltip\" tabindex=\"0\"><span class=\"oxidoc-tooltip-content\">");
    render_nodes(&c.children, custom, debug, ids, out);
    out.append("</span><span class=\"oxidoc-tooltip-text\" role=\"tooltip\">");
    push_escaped(tip.as_str(), out);
    out.append("</span></span>");
}

/// Appends a step on its own to `out`; `ids` receives the clock readings of the
/// islands among its children, as for `render_nodes`.
pub fn render_static_step(c: &ComponentNode, custom: &[(String, String)], debug: bool, ids: &mut Vec<u128>, out: &mut String)
    ensures
        final(ids)@.len() == old(ids)@.len() + uses_nodes(c.children@, custom@, debug),
        final(ids)@.take(old(ids)@.len() as int) == old(ids)@,
        final(out)@ == old(out)@ + step_html(*c, custom@, debug, final(ids)@.skip(old(ids)@.len() as int)),
{
    if let Some(t) = prop_str_exec(&c.attributes, "title") {
        if t.unicode_len() > 0 {
            out.append("<strong>");
            push_escaped(t.as_str(), out);
            out.append("</strong>");
        }
    }
    proof {
        reveal_strlit("");
    }
    render_nodes(&c.children, custom, debug, ids, out);
}

/// Appends a list of steps to `out`: its `Step` children, numbered from 1; `ids`
/// receives the clock readings of the islands among them, as for `render_nodes`.
pub fn render_static_steps(c: &ComponentNode, custom: &[(String, String)], debug: bool, ids: &mut Vec<u128>, out: &mut String)
    requires
        step_count(c.children@) <= u32::MAX,
    ensures
        final(ids)@.len() == old(ids)@.len() + steps_uses(c.children@, custom@, debug),
        final(ids)@.take(old(ids)@.len() as int) == old(ids)@,
        final(out)@ == old(out)@ + steps_html(*c, custom@, debug, final(ids)@.skip(old(ids)@.len() as int)),
{
    out.append("<div class=\"oxidoc-steps\">");
    let ghost start = out@;
    let ghost ids0 = ids@;
    let children = &c.children;
    let mut num: u32 = 0;
    let mut i: usize = 0;
    assert(ids@.skip(ids0.len() as int) =~= Seq::<u128>::empty());
    assert(ids@.take(ids0.len() as int) =~= ids0);
    while i < children.len()
        invariant
            i <= children@.len(),
            children@ == c.children@,
            step_count(c.children@) <= u32::MAX,
            num == step_count(children@.take(i as int)),
            ids@.len() == ids0.len() + steps_uses(children@.take(i as int), custom@, debug),
            ids@.take(ids0.len() as int) == ids0,
            out@ == start + steps_items(children@.take(i as int), custom@, debug, ids@.skip(ids0.len() as int)),
        decreases children@.len() - i,
    {
        let ghost ids_before = ids@;
        proof {
            let t = children@.take(i + 1);
            assert(t.drop_last() =~= children@.take(i as int));
            assert(t.last() == children@[i as int]);
            lemma_step_count_prefix(children@, i as int);
        }
        if is_step_exec(&children[i]) {
            num = num + 1;
        }
        push_steps_item(&children[i], num, custom, debug, ids, out);
        proof {
            reveal_strlit("");
            let used = ids@.skip(ids0.len() as int);
            let k = steps_uses(children@.take(i as int), custom@, debug);
            assert(used.take(k as int) =~= ids_before.skip(ids0.len() as int));
            assert(used.skip(k as int) =~= ids@.skip(ids_before.len() as int));
            assert(ids@.take(ids0.len() as int) =~= ids0);
        }
        i = i + 1;
    }
    assert(children@.take(i as int) =~= children@);
    out.append("</div>");
}

fn is_step_exec(n: &RenderNode) -> (b: bool)
    ensures
        b == is_step(*n),
{
    match n {
        RenderNode::Component(c) => str_eq(c.name.as_str(), "Step"),
        _ => false,
    }
}

fn push_steps_item(n: &RenderNode, num: u32, custom: &[(String, String)], debug: bool, ids: &mut Vec<u128>, out: &mut String)
    ensures
        final(ids)@.len() == old(ids)@.len() + step_uses(*n, custom@, debug),
        final(ids)@.take(old(ids)@.len() as int) == old(ids)@,
        final(out)@ == old(out)@ + steps_item(*n, num as nat, custom@, debug, final(ids)@.skip(old(ids)@.len() as int)),
{
    proof {
        reveal_strlit("");
    }
    match n {
        RenderNode::Component(s) => {
            if str_eq(s.name.as_str(), "Step") {
                let title = match prop_str_exec(&s.attributes, "title") {
                    Some(t) => t,
                    None => String::new(),
                };
                out.append("<div class=\"oxidoc-step\"><div class=\"oxidoc-step-indicator\"><span class=\"oxidoc-step-number\">");
                push_decimal(out, num as u128);
                out.append("</span></div><div class=\"oxidoc-step-content\">");
                if title.unicode_len() > 0 {
                    out.append("<h3 class=\"oxidoc-step-title\">");
                    push_escaped(title.as_str(), out);
                    out.append("</h3>");
                }
                out.append("<div class=\"oxidoc-step-body\">");
                render_nodes(&s.children, custom, debug, ids, out);
                out.append("</div></div></div>");
            } else {
                assert(ids@.take(ids@.len() as int) =~= ids@);
            }
        },
        _ => {
            assert(ids@.take(ids@.len() as int) =~= ids@);
        },
    }
}

proof fn lemma_step_count_prefix(ns: Seq<RenderNode>, i: int)
    requires
        0 <= i < ns.len(),
    ensures
        step_count(ns.take(i + 1)) <= step_count(ns),
    decreases ns.len(),
{
    if i + 1 < ns.len() {
        lemma_step_count_prefix(ns.drop_last(), i);
        assert(ns.drop_last().take(i + 1) =~= ns.take(i + 1));
    } else {
        assert(ns.take(i + 1) =~= ns);
    }
}

fn push_head_texts(nodes: &Vec<RenderNode>, out: &mut String)
    ensures
        final(out)@ == old(out)@ + head_texts(nodes@),
{
    let ghost start = out@;
    let mut i: usize = 0;
    while i < nodes.len()
        invariant
            i <= nodes@.len(),
            out@ == start + head_texts(nodes@.take(i as int)),
        decreases nodes@.len() - i,
    {
        proof {
            let t = nodes@.take(i + 1);
            assert(t.drop_last() =~= nodes@.take(i as int));
            assert(t.last() == nodes@[i as int]);
        }
        if let RenderNode::Text { value } = &nodes[i] {
            out.append(value.as_str());
        }
        i = i + 1;
    }
    assert(nodes@.take(i as int) =~= nodes@);
}

/// Appends a head block to `out`: the raw texts of its children between the markers
/// that the page template moves into `<head>`.
pub fn render_static_head(c: &ComponentNode, out: &mut String)
    ensures
        final(out)@ == old(out)@ + head_html(*c),
{
    out.append("<!--oxidoc-head-start-->");
    let ghost start = out@;
    let mut i: usize = 0;
    while i < c.children.len()
        invariant
            i <= c.children@.len(),
            out@ == start + head_block_texts(c.children@.take(i as int)),
        decreases c.children@.len() - i,
    {
        proof {
            let t = c.children@.take(i + 1);
            assert(t.drop_last() =~= c.children@.take(i as int));
            assert(t.last() == c.children@[i as int]);
        }
        match &c.children[i] {
            RenderNode::Html { children } => push_head_texts(children, out),
            RenderNode::Text { value } => out.append(value.as_str()),
            _ => {},
        }
        i = i + 1;
    }
    assert(c.children@.take(i as int) =~= c.children@);
    out.append("<!--oxidoc-head-end-->");
}

// ---------------------------------------------------------------------------
// Properties of code block islands
// ---------------------------------------------------------------------------

/// `s` without its leading occurrences of `c`.
pub open spec fn strip_start(s: Seq<char>, c: char) -> Seq<char>
    decreases s.len(),
{
    if s.len() > 0 && s[0] == c {
        strip_start(s.drop_first(), c)
    } else {
        s
    }
}

/// `s` without its trailing occurrences of `c`.
pub open spec fn strip_end(s: Seq<char>, c: char) -> Seq<char>
    decreases s.len(),
{
    if s.len() > 0 && s.last() == c {
        strip_end(s.drop_last(), c)
    } else {
        s
    }
}

/// The source of a code block island: its raw content, else the text of its children,
/// without line breaks at either end.
pub open spec fn code_source(raw: Seq<char>, children: Seq<RenderNode>) -> Seq<char> {
    let src = if raw.len() > 0 {
        raw
    } else {
        plain_of(children)
    };
    strip_end(strip_start(src, '\n'), '\n')
}

fn strip_newlines(s: &[char]) -> (r: Vec<char>)
    ensures
        r@ == strip_end(strip_start(s@, '\n'), '\n'),
{
    let mut a: usize = 0;
    assert(s@.skip(0) =~= s@);
    while a < s.len() && s[a] == '\n'
        invariant
            a <= s@.len(),
            strip_start(s@, '\n') == strip_start(s@.skip(a as int), '\n'),
        decreases s@.len() - a,
    {
        assert(s@.skip(a as int).drop_first() =~= s@.skip(a + 1));
        a = a + 1;
    }
    assert(strip_start(s@.skip(a as int), '\n') == s@.skip(a as int));
    let mut b: usize = s.len();
    while b > a && s[b - 1] == '\n'
        invariant
            a <= b <= s@.len(),
            strip_end(s@.skip(a as int), '\n') == strip_end(s@.subrange(a as int, b as int), '\n'),
        decreases b,
    {
        assert(s@.subrange(a as int, b as int).drop_last() =~= s@.subrange(a as int, b - 1));
        b = b - 1;
    }
    assert(s@.subrange(a as int, b as int).len() == 0 || s@.subrange(a as int, b as int).last() != '\n');
    assert(s@.skip(a as int) =~= s@.subrange(a as int, s@.len() as int));
    let mut r: Vec<char> = Vec::new();
    let mut k: usize = a;
    while k < b
        invariant
            a <= k <= b <= s@.len(),
            r@ == s@.subrange(a as int, k as int),
        decreases b - k,
    {
        r.push(s[k]);
        k = k + 1;
        assert(s@.subrange(a as int, k as int) =~= s@.subrange(a as int, k - 1).push(s@[k - 1]));
    }
    r
}

/// The code of a code block island and the lines that its highlight comments mark:
/// `process_highlight_comments` on its source.
pub fn code_block_source(raw_content: &str, children: &Vec<RenderNode>) -> (r: (String, Vec<usize>))
    ensures
        r.0@ == join(highlight_scan(lines_of(code_source(raw_content@, children@))).0, seq!['\n']),
        r.1@ == highlight_scan(lines_of(code_source(raw_content@, children@))).1,
{
    let src = if raw_content.unicode_len() > 0 {
        String::from_str(raw_content)
    } else {
        let mut t = String::new();
        append_plain(children, &mut t);
        assert(t@ =~= plain_of(children@));
        t
    };
    let chars = chars_of(src.as_str());
    let trimmed = string_from_chars(&strip_newlines(chars.as_slice()));
    process_highlight_comments(trimmed.as_str())
}

/// Numbers in JSON, separated by commas.
pub open spec fn numbers_json(ns: Seq<usize>) -> Seq<char>
    decreases ns.len(),
{
    if ns.len() == 0 {
        Seq::<char>::empty()
    } else if ns.len() == 1 {
        decimal(ns[0] as nat)
    } else {
        numbers_json(ns.drop_last()) + ","@ + decimal(ns.last() as nat)
    }
}

/// The lines to highlight in a code block island: those its `highlight` attribute
/// lists, then those its comments mark.
pub open spec fn island_lines(highlight_attr: Option<Seq<char>>, comment_lines: Seq<usize>) -> Seq<usize> {
    (match highlight_attr {
        Some(h) => dedup(ranges_lines(split_on(h, ','))),
        None => Seq::<usize>::empty(),
    }) + comment_lines
}

/// The JSON properties of a code block island, keys in increasing order as
/// `serde_json` writes an object: the code, its HTML (the highlighted code where the
/// language has a highlighting, else the escaped code, one span per line with the
/// highlighted lines marked), the file name, the highlighted lines, the language and
/// whether lines are numbered.
pub open spec fn code_block_props_of(
    language: Seq<char>,
    filename: Seq<char>,
    line_numbers: bool,
    highlight_attr: Option<Seq<char>>,
    code: Seq<char>,
    comment_lines: Seq<usize>,
    highlighted: Option<Seq<char>>,
) -> Seq<char> {
    let lines = island_lines(highlight_attr, comment_lines);
    let raw_html = if language.len() > 0 && highlighted is Some {
        highlighted->0
    } else {
        escape_seq(code, false)
    };
    "{\"code\":"@ + json_string_of(code) + ",\"code_html\":"@ + json_string_of(
        wrap_lines(split_on(raw_html, '\n'), lines),
    ) + ",\"filename\":"@ + json_string_of(filename) + ",\"highlight_lines\":["@ + numbers_json(lines)
        + "],\"language\":"@ + json_string_of(language) + ",\"line_numbers\":"@ + (if line_numbers {
        "true"@
    } else {
        "false"@
    }) + "}"@
}

fn push_numbers_json(out: &mut String, ns: &Vec<usize>)
    ensures
        final(out)@ == old(out)@ + numbers_json(ns@),
{
    let ghost start = out@;
    let mut i: usize = 0;
    while i < ns.len()
        invariant
            i <= ns@.len(),
            out@ == start + numbers_json(ns@.take(i as int)),
        decreases ns@.len() - i,
    {
        if i > 0 {
            out.append(",");
        }
        push_decimal(out, ns[i] as u128);
        i = i + 1;
        proof {
            assert(ns@.take(i as int).drop_last() =~= ns@.take(i - 1));
            if i == 1 {
                assert(numbers_json(ns@.take(0)) =~= Seq::<char>::empty());
            }
        }
    }
    assert(ns@.take(i as int) =~= ns@);
}

/// The JSON properties of a code block island, from its attributes (`language`,
/// `filename`, whether lines are numbered and the `highlight` ranges), its code and
/// comment-marked lines (`code_block_source`) and, where the highlighter knows the
/// language, the highlighted code.
pub fn code_block_props(
    language: &str,
    filename: &str,
    line_numbers: bool,
    highlight_attr: Option<&str>,
    code: &str,
    comment_lines: &Vec<usize>,
    highlighted: Option<&str>,
) -> (r: String)
    ensures
        r@ == code_block_props_of(
            language@,
            filename@,
            line_numbers,
            opt_chars(highlight_attr),
            code@,
            comment_lines@,
            opt_chars(highlighted),
        ),
{
    let mut lines: Vec<usize> = match highlight_attr {
        Some(h) => parse_highlight_ranges(h),
        None => Vec::new(),
    };
    let ghost attr_lines = lines@;
    let mut j: usize = 0;
    while j < comment_lines.len()
        invariant
            j <= comment_lines@.len(),
            lines@ == attr_lines + comment_lines@.take(j as int),
        decreases comment_lines@.len() - j,
    {
        lines.push(comment_lines[j]);
        j = j + 1;
        assert(comment_lines@.take(j as int) =~= comment_lines@.take(j - 1).push(comment_lines@[j - 1]));
    }
    assert(comment_lines@.take(j as int) =~= comment_lines@);
    assert(lines@ =~= island_lines(opt_chars(highlight_attr), comment_lines@));
    let raw_html: String = match highlighted {
        Some(h) => {
            if language.unicode_len() > 0 {
                String::from_str(h)
            } else {
                html_escape(code)
            }
        },
        None => html_escape(code),
    };
    let code_html = wrap_lines_with_highlights(raw_html.as_str(), lines.as_slice());
    let mut json = String::from_str("{\"code\":");
    json.append(json_string(code).as_str());
    json.append(",\"code_html\":");
    json.append(json_string(code_html.as_str()).as_str());
    json.append(",\"filename\":");
    json.append(json_string(filename).as_str());
    json.append(",\"highlight_lines\":[");
    push_numbers_json(&mut json, &lines);
    json.append("],\"language\":");
    json.append(json_string(language).as_str());
    json.append(",\"line_numbers\":");
    json.append(if line_numbers { "true" } else { "false" });
    json.append("}");
    json
}

// ---------------------------------------------------------------------------
// Properties of accordion islands
// ---------------------------------------------------------------------------

/// The JSON properties of an accordion island: its one item (rendered content,
/// whether it is open, title) and whether several items may be open, keys in
/// increasing order as `serde_json` writes an object.
pub open spec fn accordion_props_of(title: Seq<char>, content: Seq<char>, open: bool, multiple: bool) -> Seq<char> {
    "{\"items\":[{\"content\":"@ + json_string_of(content) + ",\"open\":"@ + (if open {
        "true"@
    } else {
        "false"@
    }) + ",\"title\":"@ + json_string_of(title) + "}],\"multiple\":"@ + (if multiple {
        "true"@
    } else {
        "false"@
    }) + "}"@
}

/// The JSON properties of an accordion island.
pub fn accordion_props(title: &str, content: &str, open: bool, multiple: bool) -> (r: String)
    ensures
        r@ == accordion_props_of(title@, content@, open, multiple),
{
    let mut json = String::from_str("{\"items\":[{\"content\":");
    json.append(json_string(content).as_str());
    json.append(",\"open\":");
    json.append(if open { "true" } else { "false" });
    json.append(",\"title\":");
    json.append(json_string(title).as_str());
    json.append("}],\"multiple\":");
    json.append(if multiple { "true" } else { "false" });
    json.append("}");
    json
}

} // verus!
