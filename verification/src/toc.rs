//! Table of contents: entries taken from a page's headings, rendered as a `<nav>`.
use vstd::prelude::*;

use crate::layout::{laid_out, lemma_laid_out};
use crate::text::{concat_map, decimal, push_decimal};

verus! {

broadcast use vstd::string::group_string_axioms;

/// A table-of-contents entry extracted from headings.
#[derive(Debug, Clone)]
pub struct TocEntry {
    pub level: u8,
    pub text: String,
    pub anchor: String,
}

pub const TOC_OPEN: &'static str = "<nav class=\"oxidoc-toc\" aria-label=\"Table of contents\"><ul>";

pub const TOC_CLOSE: &'static str = "</ul></nav>";

pub const TOC_ITEM_OPEN: &'static str = "<li class=\"toc-level-";

pub const TOC_ITEM_HREF: &'static str = "\"><a href=\"#";

pub const TOC_ITEM_TEXT: &'static str = "\">";

pub const TOC_ITEM_CLOSE: &'static str = "</a></li>";

/// One list item: its class names the heading level, its link the anchor.
pub open spec fn toc_item(e: TocEntry) -> Seq<char> {
    TOC_ITEM_OPEN@ + decimal(e.level as nat) + TOC_ITEM_HREF@ + e.anchor@ + TOC_ITEM_TEXT@
        + e.text@ + TOC_ITEM_CLOSE@
}

pub open spec fn toc_items(entries: Seq<TocEntry>) -> Seq<char>
    decreases entries.len(),
{
    if entries.len() == 0 {
        Seq::<char>::empty()
    } else {
        toc_items(entries.drop_last()) + toc_item(entries.last())
    }
}

/// The table of contents: nothing for no entries, else a `<nav>` with one item per entry.
pub open spec fn toc_html(entries: Seq<TocEntry>) -> Seq<char> {
    if entries.len() == 0 {
        Seq::<char>::empty()
    } else {
        TOC_OPEN@ + toc_items(entries) + TOC_CLOSE@
    }
}

fn push_toc_item(html: &mut String, e: &TocEntry)
    ensures
        final(html)@ == old(html)@ + toc_item(*e),
{
    html.append(TOC_ITEM_OPEN);
    push_decimal(html, e.level as u128);
    html.append(TOC_ITEM_HREF);
    html.append(e.anchor.as_str());
    html.append(TOC_ITEM_TEXT);
    html.append(e.text.as_str());
    html.append(TOC_ITEM_CLOSE);
}

/// Render TOC entries into an HTML `<nav>` element (anchors and texts as given).
pub fn render_toc(entries: &[TocEntry]) -> (r: String)
    ensures
        r@ == toc_html(entries@),
{
    if entries.len() == 0 {
        return String::new();
    }
    let mut html = String::from_str(TOC_OPEN);
    let ghost start = html@;
    let mut i: usize = 0;
    while i < entries.len()
        invariant
            i <= entries@.len(),
            html@ == start + toc_items(entries@.take(i as int)),
        decreases entries@.len() - i,
    {
        push_toc_item(&mut html, &entries[i]);
        i = i + 1;
        assert(entries@.take(i as int).drop_last() =~= entries@.take(i - 1));
    }
    assert(entries@.take(i as int) =~= entries@);
    html.append(TOC_CLOSE);
    html
}

/// The list item of one entry: its level as the class, its anchor as the link and its
/// text.
pub open spec fn toc_entry_item(e: TocEntry) -> Seq<char> {
    "<li class=\"toc-level-"@ + decimal(e.level as nat) + "\"><a href=\"#"@ + e.anchor@ + "\">"@ + e.text@
        + "</a></li>"@
}

proof fn lemma_toc_items_in_order(entries: Seq<TocEntry>)
    ensures
        toc_items(entries) == concat_map(entries, |e: TocEntry| toc_entry_item(e)),
    decreases entries.len(),
{
    if entries.len() > 0 {
        lemma_toc_items_in_order(entries.drop_last());
        assert(toc_item(entries.last()) =~= toc_entry_item(entries.last()));
    }
}

/// Law: the table of contents of no entries is empty; of some entries, it is exactly
/// the `<nav>` list holding one item per entry, the item of `entries[k]` in the k-th
/// place, and nothing else.
pub proof fn law_toc_lists_entries_in_order(entries: Seq<TocEntry>)
    ensures
        entries.len() == 0 ==> toc_html(entries).len() == 0,
        entries.len() > 0 ==> laid_out(
            toc_html(entries),
            "<nav class=\"oxidoc-toc\" aria-label=\"Table of contents\"><ul>"@,
            entries,
            |e: TocEntry| toc_entry_item(e),
            "</ul></nav>"@,
        ),
{
    if entries.len() > 0 {
        lemma_toc_items_in_order(entries);
        lemma_laid_out(TOC_OPEN@, entries, |e: TocEntry| toc_entry_item(e), TOC_CLOSE@);
    }
}

} // verus!
