//! What the site reads from a parsed page: its plain text, its headings (the table of
//! contents), its title, description and layout, its parse errors, and the text that
//! the search index holds.
use vstd::prelude::*;

use crate::error::OxidocError;
use crate::search_index::HeadingPos;
use crate::text::{chars_of, push_char, string_from_chars, str_eq, trim, trim_chars};
use crate::toc::TocEntry;
use crate::utils::{anchor_of, heading_anchor, lowercase_of};

verus! {

broadcast use vstd::string::group_string_axioms;

/// A node of a parsed page, with what the site reads of it.
#[derive(Debug)]
pub enum DocNode {
    Text { value: String },
    CodeInline { value: String },
    Heading { depth: Option<u8>, id: Option<String>, children: Vec<DocNode> },
    Paragraph { children: Vec<DocNode> },
    ListItem { children: Vec<DocNode> },
    Blockquote { children: Vec<DocNode> },
    Table { children: Vec<DocNode> },
    CodeBlock { lang: Option<String>, value: String },
    /// A part of the page that failed to parse.
    Error { message: String, line: usize },
    /// Any other node, with its children if it has any.
    Other { children: Option<Vec<DocNode>> },
}

/// A parsed page: its frontmatter entries (each key with its value when that value is
/// a string) and its top-level nodes.
#[derive(Debug)]
pub struct DocRoot {
    pub frontmatter: Option<Vec<(String, Option<String>)>>,
    pub children: Vec<DocNode>,
}

/// The children of a node, if it has any.
pub open spec fn children_of(n: DocNode) -> Option<Seq<DocNode>> {
    match n {
        DocNode::Heading { children, .. } => Some(children@),
        DocNode::Paragraph { children } => Some(children@),
        DocNode::ListItem { children } => Some(children@),
        DocNode::Blockquote { children } => Some(children@),
        DocNode::Table { children } => Some(children@),
        DocNode::Other { children } => match children {
            Some(c) => Some(c@),
            None => None,
        },
        _ => None,
    }
}

fn children_exec(n: &DocNode) -> (r: Option<&Vec<DocNode>>)
    ensures
        match children_of(*n) {
            Some(c) => r matches Some(v) && v@ == c,
            None => r is None,
        },
{
    match n {
        DocNode::Heading { children, .. } => Some(children),
        DocNode::Paragraph { children } => Some(children),
        DocNode::ListItem { children } => Some(children),
        DocNode::Blockquote { children } => Some(children),
        DocNode::Table { children } => Some(children),
        DocNode::Other { children } => match children {
            Some(c) => Some(c),
            None => None,
        },
        _ => None,
    }
}

// ---------------------------------------------------------------------------
// Plain text
// ---------------------------------------------------------------------------

/// The plain text of nodes: the values of text and inline code, in document order,
/// without any markup.
pub open spec fn plain_text_nodes(ns: Seq<DocNode>) -> Seq<char>
    decreases ns,
{
    if ns.len() == 0 {
        Seq::<char>::empty()
    } else {
        let n = ns.last();
        proof {
            assert(decreases_to!(ns => ns[ns.len() - 1]));
        }
        plain_text_nodes(ns.drop_last()) + match n {
            DocNode::Text { value } => value@,
            DocNode::CodeInline { value } => value@,
            DocNode::Heading { children, .. } => plain_text_nodes(children@),
            DocNode::Paragraph { children } => plain_text_nodes(children@),
            DocNode::ListItem { children } => plain_text_nodes(children@),
            DocNode::Blockquote { children } => plain_text_nodes(children@),
            DocNode::Table { children } => plain_text_nodes(children@),
            DocNode::Other { children } => match children {
                Some(c) => plain_text_nodes(c@),
                None => Seq::<char>::empty(),
            },
            _ => Seq::<char>::empty(),
        }
    }
}

/// The plain text of one node.
pub open spec fn plain_text(n: DocNode) -> Seq<char> {
    plain_text_nodes(seq![n])
}

/// The plain text of a node, one level down.
pub open spec fn node_text(n: DocNode) -> Seq<char> {
    match n {
        DocNode::Text { value } => value@,
        DocNode::CodeInline { value } => value@,
        _ => match children_of(n) {
            Some(c) => plain_text_nodes(c),
            None => Seq::<char>::empty(),
        },
    }
}

proof fn lemma_plain_text_one(n: DocNode)
    ensures
        plain_text(n) == node_text(n),
{
    let ns = seq![n];
    assert(ns.drop_last() =~= Seq::<DocNode>::empty());
    assert(ns.last() == n);
    assert(plain_text_nodes(Seq::<DocNode>::empty()) == Seq::<char>::empty());
    assert(plain_text_nodes(ns) == plain_text_nodes(ns.drop_last()) + node_text(n));
    assert(Seq::<char>::empty() + node_text(n) =~= node_text(n));
}

fn append_plain_text(nodes: &Vec<DocNode>, out: &mut String)
    ensures
        final(out)@ == old(out)@ + plain_text_nodes(nodes@),
    decreases nodes@,
{
    let ghost start = out@;
    let mut i: usize = 0;
    while i < nodes.len()
        invariant
            i <= nodes@.len(),
            out@ == start + plain_text_nodes(nodes@.take(i as int)),
        decreases nodes@.len() - i,
    {
        let n = &nodes[i];
        proof {
            assert(decreases_to!(nodes@ => nodes@[i as int]));
            let t = nodes@.take(i + 1);
            assert(t.drop_last() =~= nodes@.take(i as int));
            assert(t.last() == *n);
        }
        match n {
            DocNode::Text { value } => out.append(value.as_str()),
            DocNode::CodeInline { value } => out.append(value.as_str()),
            DocNode::Heading { children, .. } => append_plain_text(children, out),
            DocNode::Paragraph { children } => append_plain_text(children, out),
            DocNode::ListItem { children } => append_plain_text(children, out),
            DocNode::Blockquote { children } => append_plain_text(children, out),
            DocNode::Table { children } => append_plain_text(children, out),
            DocNode::Other { children } => match children {
                Some(c) => append_plain_text(c, out),
                None => {},
            },
            _ => {},
        }
        i = i + 1;
    }
    assert(nodes@.take(i as int) =~= nodes@);
}

/// Extract plain text from a node.
pub fn extract_plain_text(node: &DocNode) -> (r: String)
    ensures
        r@ == plain_text(*node),
{
    let mut out = String::new();
    match node {
        DocNode::Text { value } => out.append(value.as_str()),
        DocNode::CodeInline { value } => out.append(value.as_str()),
        _ => match children_exec(node) {
            Some(c) => append_plain_text(c, &mut out),
            None => {},
        },
    }
    proof {
        lemma_plain_text_one(*node);
    }
    out
}

/// Extract plain text from a sequence of nodes.
pub fn extract_plain_text_from_nodes(nodes: &Vec<DocNode>) -> (r: String)
    ensures
        r@ == plain_text_nodes(nodes@),
{
    let mut out = String::new();
    append_plain_text(nodes, &mut out);
    out
}

// ---------------------------------------------------------------------------
// Headings and the table of contents
// ---------------------------------------------------------------------------

/// The level of a heading: its depth (1 when absent), kept within 1 to 6.
pub open spec fn heading_level(depth: Option<u8>) -> u8 {
    let d = match depth {
        Some(d) => d,
        None => 1u8,
    };
    if d < 1 {
        1
    } else if d > 6 {
        6
    } else {
        d
    }
}

/// The TOC entry (level, text, anchor) of a heading node: its anchor is its id, or the
/// anchor of its text.
pub open spec fn heading_entry(depth: Option<u8>, id: Option<String>, n: DocNode) -> (u8, Seq<char>, Seq<char>) {
    (heading_level(depth), plain_text(n), match id {
        Some(a) => a@,
        None => anchor_of(lowercase_of(plain_text(n))),
    })
}

/// The headings of nodes, in document order: each heading, then the headings inside
/// it, then those of the nodes that follow.
pub open spec fn headings_nodes(ns: Seq<DocNode>) -> Seq<(u8, Seq<char>, Seq<char>)>
    decreases ns,
{
    if ns.len() == 0 {
        Seq::empty()
    } else {
        let n = ns.last();
        proof {
            assert(decreases_to!(ns => ns[ns.len() - 1]));
        }
        headings_nodes(ns.drop_last()) + match n {
            DocNode::Heading { depth, id, children } => seq![heading_entry(depth, id, n)]
                + headings_nodes(children@),
            DocNode::Paragraph { children } => headings_nodes(children@),
            DocNode::ListItem { children } => headings_nodes(children@),
            DocNode::Blockquote { children } => headings_nodes(children@),
            DocNode::Table { children } => headings_nodes(children@),
            DocNode::Other { children } => match children {
                Some(c) => headings_nodes(c@),
                None => Seq::empty(),
            },
            _ => Seq::empty(),
        }
    }
}

/// Every entry of a table of contents has a level from 1 to 6.
pub proof fn lemma_toc_levels(ns: Seq<DocNode>)
    ensures
        forall|k: int| 0 <= k < headings_nodes(ns).len() ==> 1 <= #[trigger] headings_nodes(ns)[k].0 <= 6,
    decreases ns,
{
    if ns.len() > 0 {
        let n = ns.last();
        assert(decreases_to!(ns => ns[ns.len() - 1]));
        lemma_toc_levels(ns.drop_last());
        let a = headings_nodes(ns.drop_last());
        let b = match n {
            DocNode::Heading { depth, id, children } => {
                lemma_toc_levels(children@);
                seq![heading_entry(depth, id, n)] + headings_nodes(children@)
            },
            DocNode::Paragraph { children } => {
                lemma_toc_levels(children@);
                headings_nodes(children@)
            },
            DocNode::ListItem { children } => {
                lemma_toc_levels(children@);
                headings_nodes(children@)
            },
            DocNode::Blockquote { children } => {
                lemma_toc_levels(children@);
                headings_nodes(children@)
            },
            DocNode::Table { children } => {
                lemma_toc_levels(children@);
                headings_nodes(children@)
            },
            DocNode::Other { children } => match children {
                Some(c) => {
                    lemma_toc_levels(c@);
                    headings_nodes(c@)
                },
                None => Seq::empty(),
            },
            _ => Seq::empty(),
        };
        assert(headings_nodes(ns) == a + b);
        assert forall|k: int| 0 <= k < (a + b).len() implies 1 <= #[trigger] (a + b)[k].0 <= 6 by {
            if k < a.len() {
                assert((a + b)[k] == a[k]);
            } else {
                assert((a + b)[k] == b[k - a.len()]);
                if let DocNode::Heading { depth, id, children } = n {
                    let c = headings_nodes(children@);
                    if k - a.len() > 0 {
                        assert(b[k - a.len()] == c[k - a.len() - 1]);
                    }
                }
            }
        }
    }
}

/// The (level, text, anchor) of each entry.
pub open spec fn toc_views(v: Seq<TocEntry>) -> Seq<(u8, Seq<char>, Seq<char>)> {
    v.map_values(|e: TocEntry| (e.level, e.text@, e.anchor@))
}

pub(crate) fn heading_level_exec(depth: Option<u8>) -> (r: u8)
    ensures
        r == heading_level(depth),
{
    let d = match depth {
        Some(d) => d,
        None => 1u8,
    };
    if d < 1 {
        1
    } else if d > 6 {
        6
    } else {
        d
    }
}

fn collect_headings(nodes: &Vec<DocNode>, entries: &mut Vec<TocEntry>)
    ensures
        toc_views(final(entries)@) == toc_views(old(entries)@) + headings_nodes(nodes@),
    decreases nodes@,
{
    let ghost start = toc_views(entries@);
    let mut i: usize = 0;
    while i < nodes.len()
        invariant
            i <= nodes@.len(),
            toc_views(entries@) == start + headings_nodes(nodes@.take(i as int)),
        decreases nodes@.len() - i,
    {
        let n = &nodes[i];
        proof {
            assert(decreases_to!(nodes@ => nodes@[i as int]));
            let t = nodes@.take(i + 1);
            assert(t.drop_last() =~= nodes@.take(i as int));
            assert(t.last() == *n);
        }
        let ghost before = toc_views(entries@);
        match n {
            DocNode::Heading { depth, id, children } => {
                let text = extract_plain_text(n);
                let anchor = match id {
                    Some(a) => a.clone(),
                    None => heading_anchor(text.as_str()),
                };
                entries.push(TocEntry { level: heading_level_exec(*depth), text, anchor });
                assert(toc_views(entries@) =~= before.push(heading_entry(*depth, *id, *n)));
                collect_headings(children, entries);
                assert(before + (seq![heading_entry(*depth, *id, *n)] + headings_nodes(children@))
                    =~= before.push(heading_entry(*depth, *id, *n)) + headings_nodes(children@));
            },
            DocNode::Paragraph { children } => collect_headings(children, entries),
            DocNode::ListItem { children } => collect_headings(children, entries),
            DocNode::Blockquote { children } => collect_headings(children, entries),
            DocNode::Table { children } => collect_headings(children, entries),
            DocNode::Other { children } => match children {
                Some(c) => collect_headings(c, entries),
                None => {
                    assert(toc_views(entries@) =~= before + Seq::empty());
                },
            },
            _ => {
                assert(toc_views(entries@) =~= before + Seq::empty());
            },
        }
        i = i + 1;
    }
    assert(nodes@.take(i as int) =~= nodes@);
}

/// Extract the table of contents of a page: its headings in document order.
pub fn extract_toc(root: &DocRoot) -> (r: Vec<TocEntry>)
    ensures
        toc_views(r@) == headings_nodes(root.children@),
{
    let mut entries: Vec<TocEntry> = Vec::new();
    assert(toc_views(entries@) =~= Seq::empty());
    collect_headings(&root.children, &mut entries);
    assert(Seq::<(u8, Seq<char>, Seq<char>)>::empty() + headings_nodes(root.children@)
        =~= headings_nodes(root.children@));
    entries
}

/// Extract the plain text of a heading.
pub fn extract_heading_text(node: &DocNode) -> (r: String)
    ensures
        r@ == plain_text(*node),
{
    extract_plain_text(node)
}

// ---------------------------------------------------------------------------
// Frontmatter, title, description, layout
// ---------------------------------------------------------------------------

/// The value of the first frontmatter entry with the key, if any.
pub open spec fn entry_value(entries: Seq<(String, Option<String>)>, key: Seq<char>) -> Option<Option<String>>
    decreases entries.len(),
{
    if entries.len() == 0 {
        None
    } else if entries[0].0@ == key {
        Some(entries[0].1)
    } else {
        entry_value(entries.drop_first(), key)
    }
}

/// The string value of a frontmatter key, if the page has frontmatter, the key is in
/// it and its value is a string.
pub open spec fn frontmatter_str(root: DocRoot, key: Seq<char>) -> Option<Seq<char>> {
    match root.frontmatter {
        None => None,
        Some(entries) => match entry_value(entries@, key) {
            Some(Some(s)) => Some(s@),
            _ => None,
        },
    }
}

fn frontmatter_value(root: &DocRoot, key: &str) -> (r: Option<String>)
    ensures
        match frontmatter_str(*root, key@) {
            Some(v) => r matches Some(s) && s@ == v,
            None => r is None,
        },
{
    let entries = match &root.frontmatter {
        Some(e) => e,
        None => {
            return None;
        },
    };
    let mut i: usize = 0;
    assert(entries@.skip(0) =~= entries@);
    while i < entries.len()
        invariant
            i <= entries@.len(),
            root.frontmatter matches Some(e) && e@ == entries@,
            entry_value(entries@, key@) == entry_value(entries@.skip(i as int), key@),
        decreases entries@.len() - i,
    {
        assert(entries@.skip(i as int)[0] == entries@[i as int]);
        if str_eq(entries[i].0.as_str(), key) {
            assert(entry_value(entries@, key@) == Some(entries@[i as int].1));
            return match &entries[i].1 {
                Some(v) => Some(v.clone()),
                None => None,
            };
        }
        assert(entries@.skip(i as int).drop_first() =~= entries@.skip(i + 1));
        i = i + 1;
    }
    None
}

/// The `title` of the frontmatter.
pub fn extract_frontmatter_title(root: &DocRoot) -> (r: Option<String>)
    ensures
        match frontmatter_str(*root, "title"@) {
            Some(v) => r matches Some(s) && s@ == v,
            None => r is None,
        },
{
    frontmatter_value(root, "title")
}

/// The `short_title` of the frontmatter.
pub fn extract_frontmatter_short_title(root: &DocRoot) -> (r: Option<String>)
    ensures
        match frontmatter_str(*root, "short_title"@) {
            Some(v) => r matches Some(s) && s@ == v,
            None => r is None,
        },
{
    frontmatter_value(root, "short_title")
}

/// The `description` of the frontmatter.
pub fn extract_frontmatter_description(root: &DocRoot) -> (r: Option<String>)
    ensures
        match frontmatter_str(*root, "description"@) {
            Some(v) => r matches Some(s) && s@ == v,
            None => r is None,
        },
{
    frontmatter_value(root, "description")
}

/// The page layout of the frontmatter (e.g. "landing").
pub fn extract_page_layout(root: &DocRoot) -> (r: Option<String>)
    ensures
        match frontmatter_str(*root, "layout"@) {
            Some(v) => r matches Some(s) && s@ == v,
            None => r is None,
        },
{
    frontmatter_value(root, "layout")
}

/// Whether a node is a level-1 heading (a heading without depth counts as level 1).
pub open spec fn is_h1(n: DocNode) -> bool {
    n matches DocNode::Heading { depth, .. } && match depth {
        Some(d) => d == 1,
        None => true,
    }
}

/// The text of the first top-level level-1 heading, if any.
pub open spec fn first_h1_text(ns: Seq<DocNode>) -> Option<Seq<char>>
    decreases ns.len(),
{
    if ns.len() == 0 {
        None
    } else if is_h1(ns[0]) {
        Some(plain_text(ns[0]))
    } else {
        first_h1_text(ns.drop_first())
    }
}

/// The text of the first top-level level-1 heading of a page, if any.
pub fn first_h1(nodes: &Vec<DocNode>) -> (r: Option<String>)
    ensures
        match first_h1_text(nodes@) {
            Some(t) => r matches Some(s) && s@ == t,
            None => r is None,
        },
{
    let mut i: usize = 0;
    assert(nodes@.skip(0) =~= nodes@);
    while i < nodes.len()
        invariant
            i <= nodes@.len(),
            first_h1_text(nodes@) == first_h1_text(nodes@.skip(i as int)),
        decreases nodes@.len() - i,
    {
        assert(nodes@.skip(i as int)[0] == nodes@[i as int]);
        let n = &nodes[i];
        let h1 = match n {
            DocNode::Heading { depth, .. } => match depth {
                Some(d) => *d == 1,
                None => true,
            },
            _ => false,
        };
        if h1 {
            return Some(extract_plain_text(n));
        }
        assert(nodes@.skip(i as int).drop_first() =~= nodes@.skip(i + 1));
        i = i + 1;
    }
    None
}

/// The title of a page: the frontmatter title, else the first level-1 heading.
pub open spec fn page_title(root: DocRoot) -> Option<Seq<char>> {
    match frontmatter_str(root, "title"@) {
        Some(t) => Some(t),
        None => first_h1_text(root.children@),
    }
}

/// Extract the page title, preferring frontmatter over the first h1 heading.
pub fn extract_page_title(root: &DocRoot) -> (r: Option<String>)
    ensures
        match page_title(*root) {
            Some(t) => r matches Some(s) && s@ == t,
            None => r is None,
        },
{
    match extract_frontmatter_title(root) {
        Some(t) => Some(t),
        None => first_h1(&root.children),
    }
}

/// At most the first 160 characters of a text.
pub open spec fn first_160(t: Seq<char>) -> Seq<char> {
    if t.len() <= 160 {
        t
    } else {
        t.take(160)
    }
}

/// The description taken from the content: the first 160 characters of the first
/// top-level paragraph whose text is not blank.
pub open spec fn content_description(ns: Seq<DocNode>) -> Option<Seq<char>>
    decreases ns.len(),
{
    if ns.len() == 0 {
        None
    } else if ns[0] is Paragraph && trim(plain_text(ns[0])).len() > 0 {
        Some(first_160(plain_text(ns[0])))
    } else {
        content_description(ns.drop_first())
    }
}

/// The description of a page: the frontmatter description, else one from its content.
pub open spec fn page_description(root: DocRoot) -> Option<Seq<char>> {
    match frontmatter_str(root, "description"@) {
        Some(d) => Some(d),
        None => content_description(root.children@),
    }
}

/// Extract a description, preferring frontmatter over the first paragraph of content.
pub fn extract_page_description(root: &DocRoot) -> (r: Option<String>)
    ensures
        match page_description(*root) {
            Some(d) => r matches Some(s) && s@ == d,
            None => r is None,
        },
{
    if let Some(d) = extract_frontmatter_description(root) {
        return Some(d);
    }
    let nodes = &root.children;
    let mut i: usize = 0;
    assert(nodes@.skip(0) =~= nodes@);
    while i < nodes.len()
        invariant
            i <= nodes@.len(),
            nodes@ == root.children@,
            frontmatter_str(*root, "description"@) is None,
            content_description(nodes@) == content_description(nodes@.skip(i as int)),
        decreases nodes@.len() - i,
    {
        assert(nodes@.skip(i as int)[0] == nodes@[i as int]);
        let n = &nodes[i];
        if let DocNode::Paragraph { .. } = n {
            let text = extract_plain_text(n);
            let chars = chars_of(text.as_str());
            if trim_chars(&chars).len() > 0 {
                assert(content_description(nodes@) == Some(first_160(plain_text(nodes@[i as int]))));
                if chars.len() <= 160 {
                    return Some(text);
                }
                let mut out = String::new();
                let mut k: usize = 0;
                while k < 160
                    invariant
                        k <= 160,
                        chars@.len() > 160,
                        out@ == chars@.take(k as int),
                    decreases 160 - k,
                {
                    push_char(&mut out, chars[k]);
                    k = k + 1;
                    assert(chars@.take(k as int) =~= chars@.take(k - 1).push(chars@[k - 1]));
                }
                return Some(out);
            }
        }
        assert(nodes@.skip(i as int).drop_first() =~= nodes@.skip(i + 1));
        i = i + 1;
    }
    None
}

// ---------------------------------------------------------------------------
// Parse errors
// ---------------------------------------------------------------------------

/// The message of the first top-level node that failed to parse, if any.
pub open spec fn first_error(ns: Seq<DocNode>) -> Option<Seq<char>>
    decreases ns.len(),
{
    if ns.len() == 0 {
        None
    } else if ns[0] is Error {
        Some(ns[0]->Error_message@)
    } else {
        first_error(ns.drop_first())
    }
}

/// Check for error nodes in the parsed page: the first one is reported with the
/// page's path.
pub fn check_parse_errors(root: &DocRoot, path: &str) -> (r: Result<(), OxidocError>)
    ensures
        match first_error(root.children@) {
            Some(m) => r matches Err(OxidocError::RdxParse { path: p, message }) && p@ == path@
                && message@ == m,
            None => r is Ok,
        },
{
    let nodes = &root.children;
    let mut i: usize = 0;
    assert(nodes@.skip(0) =~= nodes@);
    while i < nodes.len()
        invariant
            i <= nodes@.len(),
            nodes@ == root.children@,
            first_error(nodes@) == first_error(nodes@.skip(i as int)),
        decreases nodes@.len() - i,
    {
        assert(nodes@.skip(i as int)[0] == nodes@[i as int]);
        if let DocNode::Error { message, .. } = &nodes[i] {
            assert(first_error(nodes@) == Some(message@));
            return Err(OxidocError::RdxParse { path: String::from_str(path), message: message.clone() });
        }
        assert(nodes@.skip(i as int).drop_first() =~= nodes@.skip(i + 1));
        i = i + 1;
    }
    Ok(())
}

// ---------------------------------------------------------------------------
// Searchable text
// ---------------------------------------------------------------------------

/// The searchable text of nodes: the plain text of each heading, paragraph, list item,
/// blockquote and table followed by a space; code blocks are left out; other nodes
/// contribute the searchable text of their children.
pub open spec fn searchable_nodes(ns: Seq<DocNode>) -> Seq<char>
    decreases ns,
{
    if ns.len() == 0 {
        Seq::<char>::empty()
    } else {
        let n = ns.last();
        proof {
            assert(decreases_to!(ns => ns[ns.len() - 1]));
        }
        searchable_nodes(ns.drop_last()) + match n {
            DocNode::Heading { .. } => plain_text(n).push(' '),
            DocNode::Paragraph { .. } => plain_text(n).push(' '),
            DocNode::ListItem { .. } => plain_text(n).push(' '),
            DocNode::Blockquote { .. } => plain_text(n).push(' '),
            DocNode::Table { .. } => plain_text(n).push(' '),
            DocNode::Other { children } => match children {
                Some(c) => searchable_nodes(c@),
                None => Seq::<char>::empty(),
            },
            _ => Seq::<char>::empty(),
        }
    }
}

fn append_searchable_content(nodes: &Vec<DocNode>, text: &mut String)
    ensures
        final(text)@ == old(text)@ + searchable_nodes(nodes@),
    decreases nodes@,
{
    let ghost start = text@;
    let mut i: usize = 0;
    while i < nodes.len()
        invariant
            i <= nodes@.len(),
            text@ == start + searchable_nodes(nodes@.take(i as int)),
        decreases nodes@.len() - i,
    {
        let n = &nodes[i];
        proof {
            assert(decreases_to!(nodes@ => nodes@[i as int]));
            let t = nodes@.take(i + 1);
            assert(t.drop_last() =~= nodes@.take(i as int));
            assert(t.last() == *n);
        }
        match n {
            DocNode::Heading { .. } | DocNode::Paragraph { .. } | DocNode::ListItem { .. }
            | DocNode::Blockquote { .. } | DocNode::Table { .. } => {
                let t = extract_plain_text(n);
                text.append(t.as_str());
                push_char(text, ' ');
            },
            DocNode::Other { children } => match children {
                Some(c) => append_searchable_content(c, text),
                None => {},
            },
            _ => {},
        }
        i = i + 1;
    }
    assert(nodes@.take(i as int) =~= nodes@);
}

/// Extract all searchable plain text from a page (headings, paragraphs, list items,
/// blockquotes, tables; not code blocks).
pub fn extract_searchable_text(root: &DocRoot) -> (r: String)
    ensures
        r@ == searchable_nodes(root.children@),
{
    let mut text = String::new();
    append_searchable_content(&root.children, &mut text);
    text
}

} // verus!
