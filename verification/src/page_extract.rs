//! Facts about pages taken from the crawled page list: the previous and next pages.
use vstd::prelude::*;

use crate::config::PageEntry;
use crate::template_parts::PageNav;
use crate::text::str_eq;

verus! {

broadcast use vstd::string::group_string_axioms;

/// The position stored for `slug`: that of its first entry, if any.
pub open spec fn lookup_position(index: Seq<(String, usize)>, slug: Seq<char>) -> Option<usize>
    decreases index.len(),
{
    if index.len() == 0 {
        None
    } else if index[0].0@ == slug {
        Some(index[0].1)
    } else {
        lookup_position(index.drop_first(), slug)
    }
}

/// The title stored for `slug`: that of its first entry, if any.
pub open spec fn lookup_title(titles: Seq<(String, String)>, slug: Seq<char>) -> Option<Seq<char>>
    decreases titles.len(),
{
    if titles.len() == 0 {
        None
    } else if titles[0].0@ == slug {
        Some(titles[0].1@)
    } else {
        lookup_title(titles.drop_first(), slug)
    }
}

/// Whether no slug occurs twice among the pairs, as in a map keyed by slug.
pub open spec fn distinct_keys<V>(pairs: Seq<(String, V)>) -> bool {
    forall|a: int, b: int| 0 <= a < b < pairs.len() ==> pairs[a].0@ != pairs[b].0@
}

/// Looked up as a map: a slug has a position exactly when some entry has that slug,
/// and where no slug occurs twice, the position found is that entry's, wherever it
/// stands among the pairs.
pub proof fn lemma_lookup_position_map(index: Seq<(String, usize)>, slug: Seq<char>, k: int)
    ensures
        lookup_position(index, slug) is None <==> forall|j: int| 0 <= j < index.len() ==> index[j].0@ != slug,
        distinct_keys(index) && 0 <= k < index.len() && index[k].0@ == slug ==> lookup_position(index, slug) == Some(index[k].1),
    decreases index.len(),
{
    if index.len() > 0 {
        let rest = index.drop_first();
        lemma_lookup_position_map(rest, slug, k - 1);
        if lookup_position(index, slug) is None {
            assert forall|j: int| 0 <= j < index.len() implies index[j].0@ != slug by {
                if j > 0 {
                    assert(rest[j - 1] == index[j]);
                }
            }
        }
        if distinct_keys(index) {
            assert(distinct_keys(rest)) by {
                assert forall|a: int, b: int| 0 <= a < b < rest.len() implies rest[a].0@ != rest[b].0@ by {
                    assert(rest[a] == index[a + 1] && rest[b] == index[b + 1]);
                }
            }
        }
        if k > 0 && k < index.len() {
            assert(rest[k - 1] == index[k]);
        }
    }
}

/// Looked up as a map: a slug has a title exactly when some entry has that slug, and
/// where no slug occurs twice, the title found is that entry's, wherever it stands
/// among the pairs.
pub proof fn lemma_lookup_title_map(titles: Seq<(String, String)>, slug: Seq<char>, k: int)
    ensures
        lookup_title(titles, slug) is None <==> forall|j: int| 0 <= j < titles.len() ==> titles[j].0@ != slug,
        distinct_keys(titles) && 0 <= k < titles.len() && titles[k].0@ == slug ==> lookup_title(titles, slug) == Some(titles[k].1@),
    decreases titles.len(),
{
    if titles.len() > 0 {
        let rest = titles.drop_first();
        lemma_lookup_title_map(rest, slug, k - 1);
        if lookup_title(titles, slug) is None {
            assert forall|j: int| 0 <= j < titles.len() implies titles[j].0@ != slug by {
                if j > 0 {
                    assert(rest[j - 1] == titles[j]);
                }
            }
        }
        if distinct_keys(titles) {
            assert(distinct_keys(rest)) by {
                assert forall|a: int, b: int| 0 <= a < b < rest.len() implies rest[a].0@ != rest[b].0@ by {
                    assert(rest[a] == titles[a + 1] && rest[b] == titles[b + 1]);
                }
            }
        }
        if k > 0 && k < titles.len() {
            assert(rest[k - 1] == titles[k]);
        }
    }
}

/// A neighbouring page as (slug, title): the title from the title map, else the
/// page's own title.
pub open spec fn neighbour(p: PageEntry, titles: Seq<(String, String)>) -> (Seq<char>, Seq<char>) {
    (p.slug@, match lookup_title(titles, p.slug@) {
        Some(t) => t,
        None => p.title@,
    })
}

/// The characters of an optional (slug, title) pair.
pub open spec fn link_view(o: Option<(String, String)>) -> Option<(Seq<char>, Seq<char>)> {
    match o {
        Some((a, b)) => Some((a@, b@)),
        None => None,
    }
}

fn lookup_position_exec(index: &[(String, usize)], slug: &str) -> (r: Option<usize>)
    ensures
        r == lookup_position(index@, slug@),
{
    let mut i: usize = 0;
    assert(index@.skip(0) =~= index@);
    while i < index.len()
        invariant
            i <= index@.len(),
            lookup_position(index@, slug@) == lookup_position(index@.skip(i as int), slug@),
        decreases index@.len() - i,
    {
        assert(index@.skip(i as int)[0] == index@[i as int]);
        if str_eq(index[i].0.as_str(), slug) {
            return Some(index[i].1);
        }
        assert(index@.skip(i as int).drop_first() =~= index@.skip(i + 1));
        i = i + 1;
    }
    None
}

fn lookup_title_exec(titles: &[(String, String)], slug: &str) -> (r: Option<String>)
    ensures
        match lookup_title(titles@, slug@) {
            Some(t) => r matches Some(s) && s@ == t,
            None => r is None,
        },
{
    let mut i: usize = 0;
    assert(titles@.skip(0) =~= titles@);
    while i < titles.len()
        invariant
            i <= titles@.len(),
            lookup_title(titles@, slug@) == lookup_title(titles@.skip(i as int), slug@),
        decreases titles@.len() - i,
    {
        assert(titles@.skip(i as int)[0] == titles@[i as int]);
        if str_eq(titles[i].0.as_str(), slug) {
            return Some(titles[i].1.clone());
        }
        assert(titles@.skip(i as int).drop_first() =~= titles@.skip(i + 1));
        i = i + 1;
    }
    None
}

fn neighbour_exec(p: &PageEntry, titles: &[(String, String)]) -> (r: (String, String))
    ensures
        (r.0@, r.1@) == neighbour(*p, titles@),
{
    let title = match lookup_title_exec(titles, p.slug.as_str()) {
        Some(t) => t,
        None => p.title.clone(),
    };
    (p.slug.clone(), title)
}

/// Build prev/next navigation links for a page given its position in the flat page list.
///
/// `slug_index` maps each slug to its position in `pages`, and `title_map` each slug
/// to its resolved title. A slug is looked up in its first entry; where no slug occurs
/// twice (`distinct_keys`), that is its only entry, as `lemma_lookup_position_map` and
/// `lemma_lookup_title_map` state.
pub fn build_page_nav(
    slug: &str,
    slug_index: &[(String, usize)],
    pages: &[PageEntry],
    title_map: &[(String, String)],
) -> (r: PageNav)
    requires
        match lookup_position(slug_index@, slug@) {
            Some(idx) => idx <= pages@.len(),
            None => true,
        },
    ensures
        match lookup_position(slug_index@, slug@) {
            None => r.prev is None && r.next is None,
            Some(idx) => {
                &&& link_view(r.prev) == (if idx > 0 {
                    Some(neighbour(pages@[idx - 1], title_map@))
                } else {
                    None
                })
                &&& link_view(r.next) == (if idx + 1 < pages@.len() {
                    Some(neighbour(pages@[idx + 1], title_map@))
                } else {
                    None
                })
            },
        },
{
    match lookup_position_exec(slug_index, slug) {
        Some(idx) => {
            let prev = if idx > 0 {
                Some(neighbour_exec(&pages[idx - 1], title_map))
            } else {
                None
            };
            let next = if pages.len() > 0 && idx < pages.len() - 1 {
                Some(neighbour_exec(&pages[idx + 1], title_map))
            } else {
                None
            };
            PageNav { prev, next }
        },
        None => PageNav { prev: None, next: None },
    }
}

/// The (previous, next) links of the page with the given slug.
pub open spec fn page_nav_links(
    slug: Seq<char>,
    index: Seq<(String, usize)>,
    pages: Seq<PageEntry>,
    titles: Seq<(String, String)>,
) -> (Option<(Seq<char>, Seq<char>)>, Option<(Seq<char>, Seq<char>)>) {
    match lookup_position(index, slug) {
        None => (None, None),
        Some(idx) => (
            if idx > 0 {
                Some(neighbour(pages[idx - 1], titles))
            } else {
                None
            },
            if idx + 1 < pages.len() {
                Some(neighbour(pages[idx + 1], titles))
            } else {
                None
            },
        ),
    }
}

/// Whether `index` gives each page's position in `pages`.
pub open spec fn indexes_pages(index: Seq<(String, usize)>, pages: Seq<PageEntry>) -> bool {
    forall|i: int| 0 <= i < pages.len() ==> lookup_position(index, #[trigger] pages[i].slug@) == Some(i as usize)
}

/// `build_page_nav` gives these links.
pub proof fn lemma_build_page_nav_links(
    slug: Seq<char>,
    index: Seq<(String, usize)>,
    pages: Seq<PageEntry>,
    titles: Seq<(String, String)>,
    r: PageNav,
)
    requires
        match lookup_position(index, slug) {
            None => r.prev is None && r.next is None,
            Some(idx) => link_view(r.prev) == (if idx > 0 {
                Some(neighbour(pages[idx - 1], titles))
            } else {
                None
            }) && link_view(r.next) == (if idx + 1 < pages.len() {
                Some(neighbour(pages[idx + 1], titles))
            } else {
                None
            }),
        },
    ensures
        (link_view(r.prev), link_view(r.next)) == page_nav_links(slug, index, pages, titles),
{
}

/// Going to the next page and back: when the index gives each page's position, the
/// page after the `i`th has the `i`th as its previous page, and the page before the
/// `i`th has it as its next page.
pub proof fn lemma_page_nav_inverse(
    index: Seq<(String, usize)>,
    pages: Seq<PageEntry>,
    titles: Seq<(String, String)>,
    i: int,
)
    requires
        indexes_pages(index, pages),
        pages.len() <= usize::MAX,
        0 <= i < pages.len(),
    ensures
        i + 1 < pages.len() ==> page_nav_links(pages[i + 1].slug@, index, pages, titles).0 == Some(
            neighbour(pages[i], titles),
        ),
        i > 0 ==> page_nav_links(pages[i - 1].slug@, index, pages, titles).1 == Some(
            neighbour(pages[i], titles),
        ),
{
    if i + 1 < pages.len() {
        assert(lookup_position(index, pages[i + 1].slug@) == Some((i + 1) as usize));
    }
    if i > 0 {
        assert(lookup_position(index, pages[i - 1].slug@) == Some((i - 1) as usize));
    }
}

} // verus!
