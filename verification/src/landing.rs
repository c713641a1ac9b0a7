//! Static HTML of the landing-page components: hero, features, sections,
//! testimonials, embeds, calls to action and announcement banners.
use vstd::prelude::*;

use crate::attributes::{or_else, prop_bool, prop_bool_exec, prop_str, prop_str_exec, AttrValue};
use crate::renderer::{push_node, render_nodes, rendered, uses_node, uses_nodes, ComponentNode, RenderNode};
use crate::template_parts::esc;
use crate::text::str_eq;
use crate::utils::push_escaped;

verus! {

broadcast use vstd::string::group_string_axioms;

/// `base`, followed by the escaped `class` attribute where there is one.
pub open spec fn class_with(base: Seq<char>, attrs: Seq<(String, AttrValue)>) -> Seq<char> {
    match prop_str(attrs, "class"@) {
        Some(c) => base + " "@ + esc(c),
        None => base,
    }
}

/// `open`, the escaped `value` and `close` where `value` is not empty; else nothing.
pub open spec fn wrap_nonempty(open: Seq<char>, value: Seq<char>, close: Seq<char>) -> Seq<char> {
    if value.len() > 0 {
        open + esc(value) + close
    } else {
        Seq::<char>::empty()
    }
}

/// `open`, the escaped `value` and `close` where there is a value; else nothing.
pub open spec fn wrap_some(open: Seq<char>, value: Option<Seq<char>>, close: Seq<char>) -> Seq<char> {
    match value {
        Some(v) => open + esc(v) + close,
        None => Seq::<char>::empty(),
    }
}

/// A grid of features: its children in a `div` of class `oxidoc-feature-grid` and the
/// `class` attribute.
pub open spec fn feature_grid_html(c: ComponentNode, custom: Seq<(String, String)>, debug: bool, ids: Seq<u128>) -> Seq<char> {
    "<div class=\""@ + class_with("oxidoc-feature-grid"@, c.attributes@) + "\">"@ + rendered(c.children@, custom, debug, ids)
        + "</div>"@
}

/// A feature: its icon and title where it has them, then its children as the
/// description.
pub open spec fn feature_html(c: ComponentNode, custom: Seq<(String, String)>, debug: bool, ids: Seq<u128>) -> Seq<char> {
    let attrs = c.attributes@;
    "<div class=\""@ + class_with("oxidoc-feature"@, attrs) + "\">"@ + wrap_some(
        "<div class=\"oxidoc-feature-icon\">"@,
        prop_str(attrs, "icon"@),
        "</div>"@,
    ) + wrap_nonempty(
        "<h3 class=\"oxidoc-feature-title\">"@,
        or_else(prop_str(attrs, "title"@), Seq::empty()),
        "</h3>"@,
    ) + "<div class=\"oxidoc-feature-desc\">"@ + rendered(c.children@, custom, debug, ids) + "</div></div>"@
}

/// A full-width section: its background variant and extra class as classes, its id
/// and padding where given, and its children inside.
pub open spec fn section_html(c: ComponentNode, custom: Seq<(String, String)>, debug: bool, ids: Seq<u128>) -> Seq<char> {
    let attrs = c.attributes@;
    "<section class=\"oxidoc-section"@ + wrap_some(" oxidoc-section-"@, prop_str(attrs, "bg"@), Seq::empty())
        + wrap_some(" "@, prop_str(attrs, "class"@), Seq::empty()) + "\""@ + wrap_some(
        " id=\""@,
        prop_str(attrs, "id"@),
        "\""@,
    ) + wrap_some(" style=\"padding:"@, prop_str(attrs, "padding"@), "\""@) + ">"@
        + "<div class=\"oxidoc-section-inner\">"@ + rendered(c.children@, custom, debug, ids) + "</div></section>"@
}

/// A testimonial: its children as the quote, then the avatar, name and role of its
/// author where given.
pub open spec fn testimonial_html(c: ComponentNode, custom: Seq<(String, String)>, debug: bool, ids: Seq<u128>) -> Seq<char> {
    let attrs = c.attributes@;
    let author = or_else(prop_str(attrs, "author"@), Seq::empty());
    "<div class=\"oxidoc-testimonial\"><div class=\"oxidoc-testimonial-quote\"><span class=\"oxidoc-testimonial-open\" aria-hidden=\"true\">&ldquo;</span>"@
        + rendered(c.children@, custom, debug, ids)
        + "<span class=\"oxidoc-testimonial-close\" aria-hidden=\"true\">&rdquo;</span></div><div class=\"oxidoc-testimonial-author\">"@
        + wrap_some("<img src=\""@, prop_str(attrs, "avatar"@), "\" alt=\""@ + esc(author) + "\" class=\"oxidoc-testimonial-avatar\" loading=\"lazy\">"@)
        + "<div class=\"oxidoc-testimonial-info\">"@ + wrap_nonempty(
        "<div class=\"oxidoc-testimonial-name\">"@,
        author,
        "</div>"@,
    ) + wrap_nonempty(
        "<div class=\"oxidoc-testimonial-role\">"@,
        or_else(prop_str(attrs, "role"@), Seq::empty()),
        "</div>"@,
    ) + "</div></div></div>"@
}

/// A grid of testimonials.
pub open spec fn testimonial_grid_html(c: ComponentNode, custom: Seq<(String, String)>, debug: bool, ids: Seq<u128>) -> Seq<char> {
    "<div class=\"oxidoc-testimonial-grid\">"@ + rendered(c.children@, custom, debug, ids) + "</div>"@
}

/// An embedded frame in a box of the given aspect ratio (`16/9` by default).
pub open spec fn embed_html(attrs: Seq<(String, AttrValue)>) -> Seq<char> {
    "<div class=\"oxidoc-embed\" style=\"aspect-ratio:"@ + esc(or_else(prop_str(attrs, "aspectRatio"@), "16/9"@))
        + "\"><iframe src=\""@ + esc(or_else(prop_str(attrs, "src"@), Seq::empty())) + "\" title=\""@ + esc(
        or_else(prop_str(attrs, "title"@), Seq::empty()),
    ) + "\" loading=\"lazy\" allowfullscreen></iframe></div>"@
}

/// A call to action: its title and description where given, and its children as the
/// actions where it has any.
pub open spec fn cta_html(c: ComponentNode, custom: Seq<(String, String)>, debug: bool, ids: Seq<u128>) -> Seq<char> {
    let attrs = c.attributes@;
    "<div class=\"oxidoc-cta\">"@ + wrap_nonempty(
        "<h2 class=\"oxidoc-cta-title\">"@,
        or_else(prop_str(attrs, "title"@), Seq::empty()),
        "</h2>"@,
    ) + wrap_nonempty(
        "<p class=\"oxidoc-cta-description\">"@,
        or_else(prop_str(attrs, "description"@), Seq::empty()),
        "</p>"@,
    ) + (if c.children@.len() > 0 {
        "<div class=\"oxidoc-cta-actions\">"@ + rendered(c.children@, custom, debug, ids) + "</div>"@
    } else {
        Seq::<char>::empty()
    }) + "</div>"@
}

/// The kind of a hero action: `variant`, else `kind`, else `primary`.
pub open spec fn action_kind(attrs: Seq<(String, AttrValue)>) -> Seq<char> {
    match prop_str(attrs, "variant"@) {
        Some(v) => v,
        None => or_else(prop_str(attrs, "kind"@), "primary"@),
    }
}

/// How many clock readings a hero action takes: its children are rendered only when
/// it has no label.
pub open spec fn hero_action_uses(c: ComponentNode, custom: Seq<(String, String)>, debug: bool) -> nat {
    if prop_str(c.attributes@, "label"@) is Some {
        0
    } else {
        uses_nodes(c.children@, custom, debug)
    }
}

/// A hero action: a link (to `#` by default) with its label, else its children.
pub open spec fn hero_action_html(c: ComponentNode, custom: Seq<(String, String)>, debug: bool, ids: Seq<u128>) -> Seq<char> {
    let attrs = c.attributes@;
    "<a href=\""@ + esc(or_else(prop_str(attrs, "href"@), "#"@)) + "\" class=\"oxidoc-hero-action oxidoc-hero-action-"@
        + action_kind(attrs) + "\">"@ + match prop_str(attrs, "label"@) {
        Some(l) => esc(l),
        None => rendered(c.children@, custom, debug, ids),
    } + "</a>"@
}

/// Appends `open`, the escaped `value` and `close` to `out` where `value` is not empty.
fn push_nonempty(open: &str, value: &str, close: &str, out: &mut String)
    ensures
        final(out)@ == old(out)@ + wrap_nonempty(open@, value@, close@),
{
    proof {
        reveal_strlit("");
    }
    if value.unicode_len() > 0 {
        out.append(open);
        push_escaped(value, out);
        out.append(close);
    }
}

/// Appends `open`, the escaped `value` and `close` to `out` where there is a value.
fn push_some(open: &str, value: &Option<String>, close: &str, out: &mut String)
    ensures
        final(out)@ == old(out)@ + wrap_some(open@, opt_view(*value), close@),
{
    proof {
        reveal_strlit("");
    }
    if let Some(v) = value {
        out.append(open);
        push_escaped(v.as_str(), out);
        out.append(close);
    }
}

/// An optional string as characters.
pub open spec fn opt_view(o: Option<String>) -> Option<Seq<char>> {
    match o {
        Some(s) => Some(s@),
        None => None,
    }
}

fn prop_opt(attrs: &Vec<(String, AttrValue)>, key: &str) -> (r: Option<String>)
    ensures
        opt_view(r) == prop_str(attrs@, key@),
{
    prop_str_exec(attrs, key)
}

fn prop_or(attrs: &Vec<(String, AttrValue)>, key: &str, default: &str) -> (r: String)
    ensures
        r@ == or_else(prop_str(attrs@, key@), default@),
{
    match prop_str_exec(attrs, key) {
        Some(v) => v,
        None => String::from_str(default),
    }
}

fn push_class_with(base: &str, attrs: &Vec<(String, AttrValue)>, out: &mut String)
    ensures
        final(out)@ == old(out)@ + class_with(base@, attrs@),
{
    out.append(base);
    if let Some(c) = prop_str_exec(attrs, "class") {
        out.append(" ");
        push_escaped(c.as_str(), out);
    }
}

/// Appends a grid of features to `out`; `ids` receives the clock readings of the
/// islands among its children, as for `render_nodes`.
pub fn render_static_feature_grid(c: &ComponentNode, custom: &[(String, String)], debug: bool, ids: &mut Vec<u128>, out: &mut String)
    ensures
        final(ids)@.len() == old(ids)@.len() + uses_nodes(c.children@, custom@, debug),
        final(ids)@.take(old(ids)@.len() as int) == old(ids)@,
        final(out)@ == old(out)@ + feature_grid_html(*c, custom@, debug, final(ids)@.skip(old(ids)@.len() as int)),
{
    out.append("<div class=\"");
    push_class_with("oxidoc-feature-grid", &c.attributes, out);
    out.append("\">");
    render_nodes(&c.children, custom, debug, ids, out);
    out.append("</div>");
}

/// Appends a feature to `out`; `ids` receives the clock readings of the islands among
/// its children, as for `render_nodes`.
pub fn render_static_feature(c: &ComponentNode, custom: &[(String, String)], debug: bool, ids: &mut Vec<u128>, out: &mut String)
    ensures
        final(ids)@.len() == old(ids)@.len() + uses_nodes(c.children@, custom@, debug),
        final(ids)@.take(old(ids)@.len() as int) == old(ids)@,
        final(out)@ == old(out)@ + feature_html(*c, custom@, debug, final(ids)@.skip(old(ids)@.len() as int)),
{
    let ghost o0 = out@;
    proof {
        reveal_strlit("");
    }
    let ghost ids0 = ids@;
    let attrs = &c.attributes;
    out.append("<div class=\"");
    push_class_with("oxidoc-feature", attrs, out);
    out.append("\">");
    push_some("<div class=\"oxidoc-feature-icon\">", &prop_opt(attrs, "icon"), "</div>", out);
    push_nonempty("<h3 class=\"oxidoc-feature-title\">", prop_or(attrs, "title", "").as_str(), "</h3>", out);
    out.append("<div class=\"oxidoc-feature-desc\">");
    render_nodes(&c.children, custom, debug, ids, out);
    out.append("</div></div>");
    assert(out@ =~= o0 + feature_html(*c, custom@, debug, ids@.skip(ids0.len() as int)));
}

/// Appends a full-width section to `out`; `ids` receives the clock readings of the
/// islands among its children, as for `render_nodes`.
#[verifier::rlimit(40)]
pub fn render_static_section(c: &ComponentNode, custom: &[(String, String)], debug: bool, ids: &mut Vec<u128>, out: &mut String)
    ensures
        final(ids)@.len() == old(ids)@.len() + uses_nodes(c.children@, custom@, debug),
        final(ids)@.take(old(ids)@.len() as int) == old(ids)@,
        final(out)@ == old(out)@ + section_html(*c, custom@, debug, final(ids)@.skip(old(ids)@.len() as int)),
{
    let ghost o0 = out@;
    proof {
        reveal_strlit("");
    }
    let ghost ids0 = ids@;
    let attrs = &c.attributes;
    out.append("<section class=\"oxidoc-section");
    push_some(" oxidoc-section-", &prop_opt(attrs, "bg"), "", out);
    push_some(" ", &prop_opt(attrs, "class"), "", out);
    out.append("\"");
    push_some(" id=\"", &prop_opt(attrs, "id"), "\"", out);
    push_some(" style=\"padding:", &prop_opt(attrs, "padding"), "\"", out);
    out.append(">");
    out.append("<div class=\"oxidoc-section-inner\">");
    render_nodes(&c.children, custom, debug, ids, out);
    out.append("</div></section>");
    assert(out@ =~= o0 + section_html(*c, custom@, debug, ids@.skip(ids0.len() as int)));
}

/// Appends a testimonial to `out`; `ids` receives the clock readings of the islands
/// among its children, as for `render_nodes`.
pub fn render_static_testimonial(c: &ComponentNode, custom: &[(String, String)], debug: bool, ids: &mut Vec<u128>, out: &mut String)
    ensures
        final(ids)@.len() == old(ids)@.len() + uses_nodes(c.children@, custom@, debug),
        final(ids)@.take(old(ids)@.len() as int) == old(ids)@,
        final(out)@ == old(out)@ + testimonial_html(*c, custom@, debug, final(ids)@.skip(old(ids)@.len() as int)),
{
    let ghost o0 = out@;
    proof {
        reveal_strlit("");
    }
    let ghost ids0 = ids@;
    let attrs = &c.attributes;
    let author = prop_or(attrs, "author", "");
    out.append("<div class=\"oxidoc-testimonial\"><div class=\"oxidoc-testimonial-quote\"><span class=\"oxidoc-testimonial-open\" aria-hidden=\"true\">&ldquo;</span>");
    render_nodes(&c.children, custom, debug, ids, out);
    out.append("<span class=\"oxidoc-testimonial-close\" aria-hidden=\"true\">&rdquo;</span></div><div class=\"oxidoc-testimonial-author\">");
    let mut avatar_close = String::from_str("\" alt=\"");
    push_escaped(author.as_str(), &mut avatar_close);
    avatar_close.append("\" class=\"oxidoc-testimonial-avatar\" loading=\"lazy\">");
    push_some("<img src=\"", &prop_opt(attrs, "avatar"), avatar_close.as_str(), out);
    out.append("<div class=\"oxidoc-testimonial-info\">");
    push_nonempty("<div class=\"oxidoc-testimonial-name\">", author.as_str(), "</div>", out);
    push_nonempty("<div class=\"oxidoc-testimonial-role\">", prop_or(attrs, "role", "").as_str(), "</div>", out);
    out.append("</div></div></div>");
    assert(out@ =~= o0 + testimonial_html(*c, custom@, debug, ids@.skip(ids0.len() as int)));
}

/// Appends a grid of testimonials to `out`; `ids` receives the clock readings of the
/// islands among its children, as for `render_nodes`.
pub fn render_static_testimonial_grid(c: &ComponentNode, custom: &[(String, String)], debug: bool, ids: &mut Vec<u128>, out: &mut String)
    ensures
        final(ids)@.len() == old(ids)@.len() + uses_nodes(c.children@, custom@, debug),
        final(ids)@.take(old(ids)@.len() as int) == old(ids)@,
        final(out)@ == old(out)@ + testimonial_grid_html(*c, custom@, debug, final(ids)@.skip(old(ids)@.len() as int)),
{
    out.append("<div class=\"oxidoc-testimonial-grid\">");
    render_nodes(&c.children, custom, debug, ids, out);
    out.append("</div>");
}

/// Appends an embedded frame to `out`.
pub fn render_static_embed(c: &ComponentNode, out: &mut String)
    ensures
        final(out)@ == old(out)@ + embed_html(c.attributes@),
{
    let ghost o0 = out@;
    proof {
        reveal_strlit("");
    }
    let attrs = &c.attributes;
    out.append("<div class=\"oxidoc-embed\" style=\"aspect-ratio:");
    push_escaped(prop_or(attrs, "aspectRatio", "16/9").as_str(), out);
    out.append("\"><iframe src=\"");
    push_escaped(prop_or(attrs, "src", "").as_str(), out);
    out.append("\" title=\"");
    push_escaped(prop_or(attrs, "title", "").as_str(), out);
    out.append("\" loading=\"lazy\" allowfullscreen></iframe></div>");
    assert(out@ =~= o0 + embed_html(c.attributes@));
}

/// Appends a call to action to `out`; `ids` receives the clock readings of the islands
/// among its children, as for `render_nodes`.
pub fn render_static_cta(c: &ComponentNode, custom: &[(String, String)], debug: bool, ids: &mut Vec<u128>, out: &mut String)
    ensures
        final(ids)@.len() == old(ids)@.len() + uses_nodes(c.children@, custom@, debug),
        final(ids)@.take(old(ids)@.len() as int) == old(ids)@,
        final(out)@ == old(out)@ + cta_html(*c, custom@, debug, final(ids)@.skip(old(ids)@.len() as int)),
{
    let attrs = &c.attributes;
    out.append("<div class=\"oxidoc-cta\">");
    push_nonempty("<h2 class=\"oxidoc-cta-title\">", prop_or(attrs, "title", "").as_str(), "</h2>", out);
    push_nonempty("<p class=\"oxidoc-cta-description\">", prop_or(attrs, "description", "").as_str(), "</p>", out);
    proof {
        reveal_strlit("");
    }
    if c.children.len() > 0 {
        out.append("<div class=\"oxidoc-cta-actions\">");
        render_nodes(&c.children, custom, debug, ids, out);
        out.append("</div>");
    } else {
        assert(c.children@ =~= Seq::<RenderNode>::empty());
        assert(ids@.take(ids@.len() as int) =~= ids@);
    }
    out.append("</div>");
}

/// Appends a hero action to `out`; `ids` receives the clock readings of the islands
/// among its children, as for `render_nodes`.
pub fn render_static_hero_action(c: &ComponentNode, custom: &[(String, String)], debug: bool, ids: &mut Vec<u128>, out: &mut String)
    ensures
        final(ids)@.len() == old(ids)@.len() + hero_action_uses(*c, custom@, debug),
        final(ids)@.take(old(ids)@.len() as int) == old(ids)@,
        final(out)@ == old(out)@ + hero_action_html(*c, custom@, debug, final(ids)@.skip(old(ids)@.len() as int)),
{
    let attrs = &c.attributes;
    out.append("<a href=\"");
    push_escaped(prop_or(attrs, "href", "#").as_str(), out);
    out.append("\" class=\"oxidoc-hero-action oxidoc-hero-action-");
    let kind = match prop_str_exec(attrs, "variant") {
        Some(v) => v,
        None => prop_or(attrs, "kind", "primary"),
    };
    out.append(kind.as_str());
    out.append("\">");
    match prop_str_exec(attrs, "label") {
        Some(l) => {
            push_escaped(l.as_str(), out);
            assert(ids@.take(ids@.len() as int) =~= ids@);
        },
        None => render_nodes(&c.children, custom, debug, ids, out),
    }
    out.append("</a>");
}

/// Whether a banner can be dismissed: its `dismissible` attribute as a boolean, or as
/// text other than `false`; dismissible when it has neither.
pub open spec fn banner_dismissible(attrs: Seq<(String, AttrValue)>) -> bool {
    match prop_bool(attrs, "dismissible"@) {
        Some(b) => b,
        None => match prop_str(attrs, "dismissible"@) {
            Some(t) => t != "false"@,
            None => true,
        },
    }
}

/// The storage that keeps a dismissed banner dismissed: `sessionStorage` for
/// `persist="session"`, `localStorage` for `persist="forever"`, none otherwise.
pub open spec fn banner_storage(attrs: Seq<(String, AttrValue)>) -> Option<Seq<char>> {
    let persist = or_else(prop_str(attrs, "persist"@), "none"@);
    if persist == "session"@ {
        Some("sessionStorage"@)
    } else if persist == "forever"@ {
        Some("localStorage"@)
    } else {
        None
    }
}

/// The key under which a banner's dismissal is stored.
pub open spec fn banner_key(id: Seq<char>) -> Seq<char> {
    "'oxidoc-banner-"@ + id + "-dismissed'"@
}

/// The close button of a banner with the escaped id `id`, where it is dismissible.
pub open spec fn banner_button(attrs: Seq<(String, AttrValue)>, id: Seq<char>) -> Seq<char> {
    if banner_dismissible(attrs) {
        "<button class=\"oxidoc-banner-close\" aria-label=\"Dismiss\" onclick=\"this.parentElement.remove();"@
            + match banner_storage(attrs) {
            Some(st) => "try{"@ + st + ".setItem("@ + banner_key(id) + ",'1')}catch(e){}"@,
            None => Seq::<char>::empty(),
        } + "\">×</button>"@
    } else {
        Seq::<char>::empty()
    }
}

/// The script that removes a banner dismissed before, where the dismissal is stored.
pub open spec fn banner_script(attrs: Seq<(String, AttrValue)>, id: Seq<char>) -> Seq<char> {
    match banner_storage(attrs) {
        Some(st) => "<script>(function(){try{if("@ + st + ".getItem("@ + banner_key(id)
            + ")==='1'){var b=document.getElementById('"@ + id + "');if(b)b.remove()}}catch(e){}})();</script>"@,
        None => Seq::<char>::empty(),
    }
}

/// A dismissible announcement banner: its children, a close button that records the
/// dismissal in the chosen storage, and a script that removes a banner dismissed
/// before.
pub open spec fn banner_html(c: ComponentNode, custom: Seq<(String, String)>, debug: bool, ids: Seq<u128>) -> Seq<char> {
    let attrs = c.attributes@;
    let id = esc(or_else(prop_str(attrs, "id"@), "oxidoc-banner"@));
    "<div class=\"oxidoc-banner\" id=\""@ + id + "\" role=\"banner\"><div class=\"oxidoc-banner-content\">"@
        + rendered(c.children@, custom, debug, ids) + "</div>"@ + banner_button(attrs, id) + "</div>"@
        + banner_script(attrs, id)
}

fn push_banner_button(attrs: &Vec<(String, AttrValue)>, id: &str, key: &str, storage: &Option<String>, out: &mut String)
    requires
        opt_view(*storage) == banner_storage(attrs@),
        key@ == banner_key(id@),
    ensures
        final(out)@ == old(out)@ + banner_button(attrs@, id@),
{
    let ghost o0 = out@;
    proof {
        reveal_strlit("");
    }
    if banner_dismissible_exec(attrs) {
        out.append("<button class=\"oxidoc-banner-close\" aria-label=\"Dismiss\" onclick=\"this.parentElement.remove();");
        if let Some(st) = storage {
            out.append("try{");
            out.append(st.as_str());
            out.append(".setItem(");
            out.append(key);
            out.append(",'1')}catch(e){}");
        }
        out.append("\">×</button>");
    }
    assert(out@ =~= o0 + banner_button(attrs@, id@));
}

fn push_banner_script(attrs: &Vec<(String, AttrValue)>, id: &str, key: &str, storage: &Option<String>, out: &mut String)
    requires
        opt_view(*storage) == banner_storage(attrs@),
        key@ == banner_key(id@),
    ensures
        final(out)@ == old(out)@ + banner_script(attrs@, id@),
{
    let ghost o0 = out@;
    proof {
        reveal_strlit("");
    }
    if let Some(st) = storage {
        out.append("<script>(function(){try{if(");
        out.append(st.as_str());
        out.append(".getItem(");
        out.append(key);
        out.append(")==='1'){var b=document.getElementById('");
        out.append(id);
        out.append("');if(b)b.remove()}}catch(e){}})();</script>");
    }
    assert(out@ =~= o0 + banner_script(attrs@, id@));
}

fn banner_dismissible_exec(attrs: &Vec<(String, AttrValue)>) -> (b: bool)
    ensures
        b == banner_dismissible(attrs@),
{
    proof {
        reveal_strlit("false");
    }
    match prop_bool_exec(attrs, "dismissible") {
        Some(b) => b,
        None => match prop_str_exec(attrs, "dismissible") {
            Some(t) => !str_eq(t.as_str(), "false"),
            None => true,
        },
    }
}

fn banner_storage_exec(attrs: &Vec<(String, AttrValue)>) -> (r: Option<String>)
    ensures
        opt_view(r) == banner_storage(attrs@),
{
    let persist = prop_or(attrs, "persist", "none");
    if str_eq(persist.as_str(), "session") {
        Some(String::from_str("sessionStorage"))
    } else if str_eq(persist.as_str(), "forever") {
        Some(String::from_str("localStorage"))
    } else {
        None
    }
}

/// Appends an announcement banner to `out`; `ids` receives the clock readings of the
/// islands among its children, as for `render_nodes`.
pub fn render_static_banner(c: &ComponentNode, custom: &[(String, String)], debug: bool, ids: &mut Vec<u128>, out: &mut String)
    ensures
        final(ids)@.len() == old(ids)@.len() + uses_nodes(c.children@, custom@, debug),
        final(ids)@.take(old(ids)@.len() as int) == old(ids)@,
        final(out)@ == old(out)@ + banner_html(*c, custom@, debug, final(ids)@.skip(old(ids)@.len() as int)),
{
    let ghost o0 = out@;
    let ghost ids0 = ids@;
    proof {
        reveal_strlit("");
    }
    let attrs = &c.attributes;
    let mut id = String::new();
    push_escaped(prop_or(attrs, "id", "oxidoc-banner").as_str(), &mut id);
    let mut key = String::from_str("'oxidoc-banner-");
    key.append(id.as_str());
    key.append("-dismissed'");
    let storage = banner_storage_exec(attrs);
    out.append("<div class=\"oxidoc-banner\" id=\"");
    out.append(id.as_str());
    out.append("\" role=\"banner\"><div class=\"oxidoc-banner-content\">");
    render_nodes(&c.children, custom, debug, ids, out);
    out.append("</div>");
    push_banner_button(attrs, id.as_str(), key.as_str(), &storage, out);
    out.append("</div>");
    push_banner_script(attrs, id.as_str(), key.as_str(), &storage, out);
    assert(out@ =~= o0 + banner_html(*c, custom@, debug, ids@.skip(ids0.len() as int)));
}

/// Where a child of a hero goes: text and other nodes into the tagline (0), hero
/// actions among the buttons (1), other components after them (2).
pub open spec fn hero_part(n: RenderNode) -> nat {
    match n {
        RenderNode::Component(c) => if c.name@ == "HeroAction"@ {
            1
        } else {
            2
        },
        _ => 0,
    }
}

/// The nodes among `ns` that go to the part `part` of a hero, in order.
pub open spec fn hero_nodes(ns: Seq<RenderNode>, part: nat) -> Seq<RenderNode>
    decreases ns.len(),
{
    if ns.len() == 0 {
        Seq::<RenderNode>::empty()
    } else {
        hero_nodes(ns.drop_last(), part) + if hero_part(ns.last()) == part {
            seq![ns.last()]
        } else {
            Seq::<RenderNode>::empty()
        }
    }
}

/// How many clock readings the tagline of a hero takes: none when the `tagline`
/// attribute gives it.
pub open spec fn hero_tagline_uses(c: ComponentNode, custom: Seq<(String, String)>, debug: bool) -> nat {
    if or_else(prop_str(c.attributes@, "tagline"@), Seq::empty()).len() > 0 {
        0
    } else {
        uses_nodes(hero_nodes(c.children@, 0), custom, debug)
    }
}

/// How many clock readings a hero takes: its tagline's, then its actions', then its
/// other components'.
pub open spec fn hero_uses(c: ComponentNode, custom: Seq<(String, String)>, debug: bool) -> nat {
    hero_tagline_uses(c, custom, debug) + uses_nodes(hero_nodes(c.children@, 1), custom, debug) + uses_nodes(
        hero_nodes(c.children@, 2),
        custom,
        debug,
    )
}

/// The tagline of a hero: the `tagline` attribute, else its text children.
pub open spec fn hero_tagline(c: ComponentNode, custom: Seq<(String, String)>, debug: bool, ids: Seq<u128>) -> Seq<char> {
    let tagline = or_else(prop_str(c.attributes@, "tagline"@), Seq::empty());
    let nodes = hero_nodes(c.children@, 0);
    if tagline.len() > 0 {
        "<p class=\"oxidoc-hero-tagline\">"@ + esc(tagline) + "</p>"@
    } else if nodes.len() > 0 {
        "<div class=\"oxidoc-hero-tagline\">"@ + rendered(nodes, custom, debug, ids) + "</div>"@
    } else {
        Seq::<char>::empty()
    }
}

/// The action buttons of a hero, where it has any.
pub open spec fn hero_actions(c: ComponentNode, custom: Seq<(String, String)>, debug: bool, ids: Seq<u128>) -> Seq<char> {
    let nodes = hero_nodes(c.children@, 1);
    if nodes.len() > 0 {
        "<div class=\"oxidoc-hero-actions\">"@ + rendered(nodes, custom, debug, ids) + "</div>"@
    } else {
        Seq::<char>::empty()
    }
}

/// A hero: its title, its tagline, its action buttons, its other components and its
/// image, each where given.
pub open spec fn hero_html(c: ComponentNode, custom: Seq<(String, String)>, debug: bool, ids: Seq<u128>) -> Seq<char> {
    let attrs = c.attributes@;
    let k1 = hero_tagline_uses(c, custom, debug);
    let k2 = uses_nodes(hero_nodes(c.children@, 1), custom, debug);
    "<section class=\"oxidoc-hero\"><div class=\"oxidoc-hero-body\">"@ + wrap_nonempty(
        "<h1 class=\"oxidoc-hero-title\">"@,
        or_else(prop_str(attrs, "title"@), Seq::empty()),
        "</h1>"@,
    ) + hero_tagline(c, custom, debug, ids.take(k1 as int)) + hero_actions(
        c,
        custom,
        debug,
        ids.skip(k1 as int).take(k2 as int),
    ) + rendered(hero_nodes(c.children@, 2), custom, debug, ids.skip((k1 + k2) as int)) + "</div>"@ + wrap_some(
        "<div class=\"oxidoc-hero-image\"><img src=\""@,
        prop_str(attrs, "image"@),
        "\" alt=\"\" loading=\"lazy\"></div>"@,
    ) + "</section>"@
}

fn hero_part_exec(n: &RenderNode) -> (p: u8)
    ensures
        p == hero_part(*n),
{
    match n {
        RenderNode::Component(c) => if str_eq(c.name.as_str(), "HeroAction") {
            1
        } else {
            2
        },
        _ => 0,
    }
}

/// Renders the children of a hero that go to the part `part`, in order.
fn push_hero_nodes(
    children: &Vec<RenderNode>,
    part: u8,
    custom: &[(String, String)],
    debug: bool,
    ids: &mut Vec<u128>,
    out: &mut String,
)
    ensures
        final(ids)@.len() == old(ids)@.len() + uses_nodes(hero_nodes(children@, part as nat), custom@, debug),
        final(ids)@.take(old(ids)@.len() as int) == old(ids)@,
        final(out)@ == old(out)@ + rendered(
            hero_nodes(children@, part as nat),
            custom@,
            debug,
            final(ids)@.skip(old(ids)@.len() as int),
        ),
{
    let ghost start = out@;
    let ghost ids0 = ids@;
    let mut i: usize = 0;
    assert(ids@.skip(ids0.len() as int) =~= Seq::<u128>::empty());
    assert(ids@.take(ids0.len() as int) =~= ids0);
    while i < children.len()
        invariant
            i <= children@.len(),
            ids@.len() == ids0.len() + uses_nodes(hero_nodes(children@.take(i as int), part as nat), custom@, debug),
            ids@.take(ids0.len() as int) == ids0,
            out@ == start + rendered(
                hero_nodes(children@.take(i as int), part as nat),
                custom@,
                debug,
                ids@.skip(ids0.len() as int),
            ),
        decreases children@.len() - i,
    {
        let ghost ids_before = ids@;
        let ghost prev = hero_nodes(children@.take(i as int), part as nat);
        proof {
            let t = children@.take(i + 1);
            assert(t.drop_last() =~= children@.take(i as int));
            assert(t.last() == children@[i as int]);
        }
        if hero_part_exec(&children[i]) == part {
            push_node(&children[i], custom, debug, ids, out);
            proof {
                let next = hero_nodes(children@.take(i + 1), part as nat);
                assert(next =~= prev.push(children@[i as int]));
                assert(next.drop_last() =~= prev);
                let used = ids@.skip(ids0.len() as int);
                let k = uses_nodes(prev, custom@, debug);
                assert(used.take(k as int) =~= ids_before.skip(ids0.len() as int));
                assert(used.skip(k as int) =~= ids@.skip(ids_before.len() as int));
                assert(ids@.take(ids0.len() as int) =~= ids0);
            }
        } else {
            proof {
                assert(hero_nodes(children@.take(i + 1), part as nat) =~= prev);
            }
        }
        i = i + 1;
    }
    assert(children@.take(i as int) =~= children@);
}

/// Whether some child of a hero goes to the part `part`.
fn has_hero_part(children: &Vec<RenderNode>, part: u8) -> (b: bool)
    ensures
        b == (hero_nodes(children@, part as nat).len() > 0),
{
    let mut i: usize = 0;
    while i < children.len()
        invariant
            i <= children@.len(),
            hero_nodes(children@.take(i as int), part as nat).len() == 0,
        decreases children@.len() - i,
    {
        proof {
            let t = children@.take(i + 1);
            assert(t.drop_last() =~= children@.take(i as int));
            assert(t.last() == children@[i as int]);
        }
        if hero_part_exec(&children[i]) == part {
            proof {
                lemma_hero_nodes_grow(children@, i as int, part as nat);
            }
            return true;
        }
        i = i + 1;
    }
    assert(children@.take(i as int) =~= children@);
    false
}

proof fn lemma_hero_nodes_grow(ns: Seq<RenderNode>, i: int, part: nat)
    requires
        0 <= i < ns.len(),
        hero_part(ns[i]) == part,
    ensures
        hero_nodes(ns, part).len() > 0,
    decreases ns.len(),
{
    if i < ns.len() - 1 {
        lemma_hero_nodes_grow(ns.drop_last(), i, part);
    }
}

fn push_hero_tagline(c: &ComponentNode, custom: &[(String, String)], debug: bool, ids: &mut Vec<u128>, out: &mut String)
    ensures
        final(ids)@.len() == old(ids)@.len() + hero_tagline_uses(*c, custom@, debug),
        final(ids)@.take(old(ids)@.len() as int) == old(ids)@,
        final(out)@ == old(out)@ + hero_tagline(*c, custom@, debug, final(ids)@.skip(old(ids)@.len() as int)),
{
    let ghost o0 = out@;
    let ghost ids0 = ids@;
    proof {
        reveal_strlit("");
    }
    let tagline = prop_or(&c.attributes, "tagline", "");
    if tagline.unicode_len() > 0 {
        out.append("<p class=\"oxidoc-hero-tagline\">");
        push_escaped(tagline.as_str(), out);
        out.append("</p>");
        assert(ids@.take(ids@.len() as int) =~= ids@);
    } else if has_hero_part(&c.children, 0) {
        out.append("<div class=\"oxidoc-hero-tagline\">");
        push_hero_nodes(&c.children, 0, custom, debug, ids, out);
        out.append("</div>");
    } else {
        assert(hero_nodes(c.children@, 0) =~= Seq::<RenderNode>::empty());
        assert(ids@.take(ids@.len() as int) =~= ids@);
    }
    assert(out@ =~= o0 + hero_tagline(*c, custom@, debug, ids@.skip(ids0.len() as int)));
}

fn push_hero_actions(c: &ComponentNode, custom: &[(String, String)], debug: bool, ids: &mut Vec<u128>, out: &mut String)
    ensures
        final(ids)@.len() == old(ids)@.len() + uses_nodes(hero_nodes(c.children@, 1), custom@, debug),
        final(ids)@.take(old(ids)@.len() as int) == old(ids)@,
        final(out)@ == old(out)@ + hero_actions(*c, custom@, debug, final(ids)@.skip(old(ids)@.len() as int)),
{
    let ghost o0 = out@;
    let ghost ids0 = ids@;
    if has_hero_part(&c.children, 1) {
        out.append("<div class=\"oxidoc-hero-actions\">");
        push_hero_nodes(&c.children, 1, custom, debug, ids, out);
        out.append("</div>");
    } else {
        assert(hero_nodes(c.children@, 1) =~= Seq::<RenderNode>::empty());
        assert(ids@.take(ids@.len() as int) =~= ids@);
    }
    assert(out@ =~= o0 + hero_actions(*c, custom@, debug, ids@.skip(ids0.len() as int)));
}

/// Appends a hero to `out`; `ids` receives the clock readings of the islands among its
/// tagline, its actions and its other components, in that order.
#[verifier::rlimit(40)]
pub fn render_static_hero(c: &ComponentNode, custom: &[(String, String)], debug: bool, ids: &mut Vec<u128>, out: &mut String)
    ensures
        final(ids)@.len() == old(ids)@.len() + hero_uses(*c, custom@, debug),
        final(ids)@.take(old(ids)@.len() as int) == old(ids)@,
        final(out)@ == old(out)@ + hero_html(*c, custom@, debug, final(ids)@.skip(old(ids)@.len() as int)),
{
    let ghost o0 = out@;
    let ghost ids0 = ids@;
    proof {
        reveal_strlit("");
    }
    let attrs = &c.attributes;
    out.append("<section class=\"oxidoc-hero\"><div class=\"oxidoc-hero-body\">");
    push_nonempty("<h1 class=\"oxidoc-hero-title\">", prop_or(attrs, "title", "").as_str(), "</h1>", out);
    push_hero_tagline(c, custom, debug, ids, out);
    let ghost ids1 = ids@;
    push_hero_actions(c, custom, debug, ids, out);
    let ghost ids2 = ids@;
    push_hero_nodes(&c.children, 2, custom, debug, ids, out);
    out.append("</div>");
    push_some("<div class=\"oxidoc-hero-image\"><img src=\"", &prop_opt(attrs, "image"), "\" alt=\"\" loading=\"lazy\"></div>", out);
    out.append("</section>");
    proof {
        let all = ids@.skip(ids0.len() as int);
        let k1 = hero_tagline_uses(*c, custom@, debug);
        let k2 = uses_nodes(hero_nodes(c.children@, 1), custom@, debug);
        assert(all.take(k1 as int) =~= ids1.skip(ids0.len() as int));
        assert(all.skip(k1 as int).take(k2 as int) =~= ids2.skip(ids1.len() as int));
        assert(all.skip((k1 + k2) as int) =~= ids@.skip(ids2.len() as int));
        assert(ids@.take(ids0.len() as int) =~= ids0);
    }
    assert(out@ =~= o0 + hero_html(*c, custom@, debug, ids@.skip(ids0.len() as int)));
}

} // verus!
