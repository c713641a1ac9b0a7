//! The documents of the search index and their snippets.
use vstd::prelude::*;

use crate::text::{chars_of, push_char, string_from_chars, sub_chars, trim, trim_chars};

verus! {

broadcast use vstd::string::group_string_axioms;

/// A heading position within a document's text.
#[derive(Debug, Clone)]
pub struct HeadingPos {
    pub title: String,
    pub anchor: String,
    pub depth: u8,
    /// Character offset in the document's `text` field where this heading's content starts.
    pub offset: usize,
}

/// Metadata for a searchable document (one per page).
#[derive(Debug, Clone)]
pub struct DocMetadata {
    pub id: u32,
    pub title: String,
    pub path: String,
    pub snippet: String,
    /// Full plain text content for search and snippet extraction.
    pub text: String,
    /// Heading positions within the text, for locating which section a match falls in.
    pub headings: Vec<HeadingPos>,
}

/// Plain text content extracted from a page (one per page).
#[derive(Debug, Clone)]
pub struct PageContent {
    pub title: String,
    pub slug: String,
    pub text: String,
    /// Heading positions within the text.
    pub headings: Vec<HeadingPos>,
}

/// The snippet of a text: the trimmed text, or its first `max_len` characters
/// followed by `…` when it has more.
pub open spec fn snippet_of(text: Seq<char>, max_len: nat) -> Seq<char> {
    let t = trim(text);
    if t.len() <= max_len {
        t
    } else {
        t.take(max_len as int).push('…')
    }
}

/// Create a snippet from text: the trimmed text, cut after its first `max_len`
/// characters (followed by `…`) when it is longer.
pub fn create_snippet(text: &str, max_len: usize) -> (r: String)
    ensures
        r@ == snippet_of(text@, max_len as nat),
        r@.len() <= max_len + 1,
{
    let chars = chars_of(text);
    let t = trim_chars(&chars);
    if t.len() <= max_len {
        return string_from_chars(&t);
    }
    let mut r = string_from_chars(&sub_chars(&t, 0, max_len));
    push_char(&mut r, '…');
    assert(t@.subrange(0, max_len as int) =~= t@.take(max_len as int));
    r
}

/// The title, anchor, depth and offset of a heading position.
pub open spec fn heading_view(h: HeadingPos) -> (Seq<char>, Seq<char>, u8, usize) {
    (h.title@, h.anchor@, h.depth, h.offset)
}

/// The views of heading positions.
pub open spec fn heading_views(hs: Seq<HeadingPos>) -> Seq<(Seq<char>, Seq<char>, u8, usize)> {
    hs.map_values(|h: HeadingPos| heading_view(h))
}

fn copy_headings(hs: &Vec<HeadingPos>) -> (r: Vec<HeadingPos>)
    ensures
        heading_views(r@) == heading_views(hs@),
{
    let mut r: Vec<HeadingPos> = Vec::new();
    let mut i: usize = 0;
    while i < hs.len()
        invariant
            i <= hs@.len(),
            r@.len() == i,
            heading_views(r@) == heading_views(hs@.take(i as int)),
        decreases hs@.len() - i,
    {
        let h = &hs[i];
        let ghost before = r@;
        r.push(HeadingPos { title: h.title.clone(), anchor: h.anchor.clone(), depth: h.depth, offset: h.offset });
        proof {
            assert(heading_view(r@[i as int]) == heading_view(hs@[i as int]));
            assert forall|k: int| 0 <= k < i + 1 implies #[trigger] heading_views(r@)[k] == heading_views(hs@.take(i + 1))[k] by {
                if k < i {
                    assert(r@[k] == before[k]);
                    assert(heading_views(before)[k] == heading_views(hs@.take(i as int))[k]);
                    assert(hs@.take(i as int)[k] == hs@.take(i + 1)[k]);
                }
            }
        }
        i = i + 1;
        assert(heading_views(r@) =~= heading_views(hs@.take(i as int)));
    }
    assert(hs@.take(i as int) =~= hs@);
    r
}

/// The search metadata of the page at position `i`: its number, title, path (`/`
/// and its slug), 160-character snippet, text and headings.
pub open spec fn doc_metadata_of(d: DocMetadata, i: int, p: PageContent) -> bool {
    &&& d.id == i as u32
    &&& d.title@ == p.title@
    &&& d.path@ == "/"@ + p.slug@
    &&& d.snippet@ == snippet_of(p.text@, 160)
    &&& d.text@ == p.text@
    &&& heading_views(d.headings@) == heading_views(p.headings@)
}

/// The search metadata of the pages, one per page in order, numbered from 0 (the
/// number taken modulo 2^32, as a `u32`).
pub fn document_metadata(pages: &[PageContent]) -> (r: Vec<DocMetadata>)
    ensures
        r@.len() == pages@.len(),
        forall|i: int| 0 <= i < pages@.len() ==> doc_metadata_of(#[trigger] r@[i], i, pages@[i]),
{
    let mut docs: Vec<DocMetadata> = Vec::new();
    let mut i: usize = 0;
    while i < pages.len()
        invariant
            i <= pages@.len(),
            docs@.len() == i,
            forall|j: int| 0 <= j < i ==> doc_metadata_of(#[trigger] docs@[j], j, pages@[j]),
        decreases pages@.len() - i,
    {
        let page = &pages[i];
        let mut path = String::from_str("/");
        path.append(page.slug.as_str());
        let id: u32 = #[verifier::truncate] (i as u32);
        docs.push(DocMetadata {
            id,
            title: page.title.clone(),
            path,
            snippet: create_snippet(page.text.as_str(), 160),
            text: page.text.clone(),
            headings: copy_headings(&page.headings),
        });
        i = i + 1;
    }
    docs
}

/// The prefix that picks the chunk of the search index holding a term's postings: its
/// first two characters, or all of it when it is shorter.
pub open spec fn chunk_prefix_of(term: Seq<char>) -> Seq<char> {
    if term.len() >= 2 {
        term.take(2)
    } else {
        term
    }
}

/// The prefix that picks the chunk of the search index holding a term's postings.
pub fn chunk_prefix(term: &str) -> (r: String)
    ensures
        r@ == chunk_prefix_of(term@),
{
    let v = chars_of(term);
    if v.len() >= 2 {
        let r = string_from_chars(&sub_chars(&v, 0, 2));
        assert(v@.subrange(0, 2) =~= v@.take(2));
        r
    } else {
        String::from_str(term)
    }
}

} // verus!
