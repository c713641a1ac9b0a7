//! Navigation for the API reference: endpoints grouped by tag, page slugs and
//! sidebar groups.
use vstd::prelude::*;

use super::types::ApiEndpoint;
use crate::config::{NavGroup, OxidocConfig, PageEntry};
use crate::search_provider::SearchProvider;
use crate::template_assets::AssetConfig;
use crate::text::{
    chars_lt, chars_of, concat_map, lemma_concat_map_step, lemma_lex_order, lex_lt, push_char,
    str_eq,
};
use crate::utils::{lowercase_of, str_to_lowercase};

verus! {

broadcast use vstd::string::group_string_axioms;

pub const UNTAGGED: &'static str = "Untagged";

/// The tag an endpoint is listed under: its first tag, or "Untagged".
pub open spec fn tag_of(ep: ApiEndpoint) -> Seq<char> {
    if ep.tags@.len() > 0 {
        ep.tags@[0]@
    } else {
        UNTAGGED@
    }
}

/// Whether an endpoint is listed under the tag `t`.
pub open spec fn has_tag(t: Seq<char>) -> spec_fn(ApiEndpoint) -> bool {
    |e: ApiEndpoint| tag_of(e) == t
}

/// The endpoints behind a sequence of references.
pub open spec fn deref_all<'a>(v: Seq<&'a ApiEndpoint>) -> Seq<ApiEndpoint> {
    v.map_values(|e: &'a ApiEndpoint| *e)
}

/// Each group as its tag's characters and its endpoints.
pub open spec fn group_views<'a>(g: Seq<(String, Vec<&'a ApiEndpoint>)>) -> Seq<(Seq<char>, Seq<ApiEndpoint>)> {
    g.map_values(|p: (String, Vec<&'a ApiEndpoint>)| (p.0@, deref_all(p.1@)))
}

/// `groups` holds the endpoints of `eps` grouped by tag: one group per tag that occurs,
/// the groups in increasing order of their tags, and in each group the endpoints with
/// that tag in their order in `eps`.
pub open spec fn grouped_by_tag(eps: Seq<ApiEndpoint>, groups: Seq<(Seq<char>, Seq<ApiEndpoint>)>) -> bool {
    &&& forall|a: int, b: int| 0 <= a < b < groups.len() ==> lex_lt(groups[a].0, groups[b].0)
    &&& forall|k: int|
        0 <= k < groups.len() ==> groups[k].1 == eps.filter(has_tag(groups[k].0))
            && groups[k].1.len() > 0
    &&& forall|j: int| 0 <= j < eps.len() ==> #[trigger] tag_listed(groups, tag_of(eps[j]))
}

/// Whether some group has the tag `t`.
pub open spec fn tag_listed(groups: Seq<(Seq<char>, Seq<ApiEndpoint>)>, t: Seq<char>) -> bool {
    exists|k: int| 0 <= k < groups.len() && #[trigger] groups[k].0 == t
}

proof fn lemma_filter_push(s: Seq<ApiEndpoint>, e: ApiEndpoint, t: Seq<char>)
    ensures
        s.push(e).filter(has_tag(t)) == (if tag_of(e) == t {
            s.filter(has_tag(t)).push(e)
        } else {
            s.filter(has_tag(t))
        }),
{
    reveal(Seq::filter);
    assert(s.push(e).drop_last() =~= s);
}

/// No endpoint of `s` has the tag `t` when no group does.
proof fn lemma_filter_empty(s: Seq<ApiEndpoint>, groups: Seq<(Seq<char>, Seq<ApiEndpoint>)>, t: Seq<char>)
    requires
        forall|j: int| 0 <= j < s.len() ==> #[trigger] tag_listed(groups, tag_of(s[j])),
        forall|k: int| 0 <= k < groups.len() ==> groups[k].0 != t,
    ensures
        s.filter(has_tag(t)).len() == 0,
{
    let f = s.filter(has_tag(t));
    if f.len() > 0 {
        s.lemma_filter_pred(has_tag(t), 0);
        assert(f.contains(f[0]));
        s.lemma_filter_contains_rev(has_tag(t), f[0]);
        let j = choose|j: int| 0 <= j < s.len() && s[j] == f[0];
        assert(0 <= j < s.len() && s[j] == f[0]);
        assert(tag_listed(groups, tag_of(s[j])));
        let k = choose|k: int| 0 <= k < groups.len() && groups[k].0 == tag_of(s[j]);
        assert(groups[k].0 == t);
    }
}

/// Whether the character sequences in `a` are in strictly increasing order.
pub open spec fn strictly_sorted(a: Seq<Seq<char>>) -> bool {
    forall|i: int, j: int| 0 <= i < j < a.len() ==> lex_lt(a[i], a[j])
}

/// Two strictly sorted sequences with the same elements are equal.
proof fn lemma_sorted_unique(a: Seq<Seq<char>>, b: Seq<Seq<char>>)
    requires
        strictly_sorted(a),
        strictly_sorted(b),
        forall|x: Seq<char>| a.contains(x) <==> b.contains(x),
    ensures
        a == b,
    decreases a.len(),
{
    if a.len() == 0 {
        if b.len() > 0 {
            assert(b.contains(b[0]));
        }
        assert(a =~= b);
    } else if b.len() == 0 {
        assert(a.contains(a[0]));
    } else {
        assert(a.contains(a[0]));
        assert(b.contains(b[0]));
        let j = choose|j: int| 0 <= j < b.len() && b[j] == a[0];
        let i = choose|i: int| 0 <= i < a.len() && a[i] == b[0];
        lemma_lex_order(a[0], b[0], a[0]);
        if j > 0 {
            assert(lex_lt(b[0], b[j]));
            if i > 0 {
                assert(lex_lt(a[0], a[i]));
            }
        }
        assert(a[0] == b[0]);
        let a1 = a.drop_first();
        let b1 = b.drop_first();
        assert forall|x: Seq<char>| a1.contains(x) <==> b1.contains(x) by {
            if a1.contains(x) {
                let p = choose|p: int| 0 <= p < a1.len() && a1[p] == x;
                assert(a[p + 1] == x);
                assert(lex_lt(a[0], a[p + 1]));
                lemma_lex_order(a[0], a[0], a[0]);
                assert(b.contains(x));
                let q = choose|q: int| 0 <= q < b.len() && b[q] == x;
                assert(q != 0);
                assert(b1[q - 1] == x);
            }
            if b1.contains(x) {
                let p = choose|p: int| 0 <= p < b1.len() && b1[p] == x;
                assert(b[p + 1] == x);
                assert(lex_lt(b[0], b[p + 1]));
                lemma_lex_order(b[0], b[0], b[0]);
                assert(a.contains(x));
                let q = choose|q: int| 0 <= q < a.len() && a[q] == x;
                assert(q != 0);
                assert(a1[q - 1] == x);
            }
        }
        lemma_sorted_unique(a1, b1);
        assert(a =~= seq![a[0]] + a1);
        assert(b =~= seq![b[0]] + b1);
    }
}

/// The tags of the groups, in order.
pub open spec fn group_tags(groups: Seq<(Seq<char>, Seq<ApiEndpoint>)>) -> Seq<Seq<char>> {
    groups.map_values(|p: (Seq<char>, Seq<ApiEndpoint>)| p.0)
}

/// Every tag of a grouping is the tag of one of the endpoints, and every endpoint's tag
/// is a tag of the grouping.
proof fn lemma_group_tags(eps: Seq<ApiEndpoint>, g: Seq<(Seq<char>, Seq<ApiEndpoint>)>, x: Seq<char>)
    requires
        grouped_by_tag(eps, g),
    ensures
        group_tags(g).contains(x) <==> exists|j: int| 0 <= j < eps.len() && tag_of(eps[j]) == x,
{
    let tags = group_tags(g);
    if tags.contains(x) {
        let k = choose|k: int| 0 <= k < tags.len() && tags[k] == x;
        let f = eps.filter(has_tag(x));
        assert(g[k].0 == x);
        assert(f.len() > 0);
        eps.lemma_filter_pred(has_tag(x), 0);
        assert(f.contains(f[0]));
        eps.lemma_filter_contains_rev(has_tag(x), f[0]);
        let j = choose|j: int| 0 <= j < eps.len() && eps[j] == f[0];
        assert(tag_of(eps[j]) == x);
    }
    if exists|j: int| 0 <= j < eps.len() && tag_of(eps[j]) == x {
        let j = choose|j: int| 0 <= j < eps.len() && tag_of(eps[j]) == x;
        assert(tag_listed(g, tag_of(eps[j])));
        let k = choose|k: int| 0 <= k < g.len() && g[k].0 == x;
        assert(tags[k] == x);
    }
}

/// The grouping of endpoints by tag is unique.
pub proof fn lemma_grouping_unique(
    eps: Seq<ApiEndpoint>,
    g1: Seq<(Seq<char>, Seq<ApiEndpoint>)>,
    g2: Seq<(Seq<char>, Seq<ApiEndpoint>)>,
)
    requires
        grouped_by_tag(eps, g1),
        grouped_by_tag(eps, g2),
    ensures
        g1 == g2,
{
    let t1 = group_tags(g1);
    let t2 = group_tags(g2);
    assert forall|x: Seq<char>| t1.contains(x) <==> t2.contains(x) by {
        lemma_group_tags(eps, g1, x);
        lemma_group_tags(eps, g2, x);
    }
    lemma_sorted_unique(t1, t2);
    assert(t1.len() == t2.len());
    assert forall|k: int| 0 <= k < g1.len() implies g1[k] == g2[k] by {
        assert(t1[k] == t2[k]);
    }
    assert(g1 =~= g2);
}

/// The endpoints grouped by tag (see `grouped_by_tag`, which determines it).
pub open spec fn tag_groups(eps: Seq<ApiEndpoint>) -> Seq<(Seq<char>, Seq<ApiEndpoint>)> {
    choose|g: Seq<(Seq<char>, Seq<ApiEndpoint>)>| grouped_by_tag(eps, g)
}

/// The first position from `i` on whose group's tag is not below `t`.
pub open spec fn first_not_below(gv: Seq<(Seq<char>, Seq<ApiEndpoint>)>, t: Seq<char>, i: int) -> int
    decreases gv.len() - i,
{
    if i >= gv.len() || i < 0 {
        gv.len() as int
    } else if lex_lt(gv[i].0, t) {
        first_not_below(gv, t, i + 1)
    } else {
        i
    }
}

proof fn lemma_first_not_below(gv: Seq<(Seq<char>, Seq<ApiEndpoint>)>, t: Seq<char>, i: int)
    requires
        0 <= i <= gv.len(),
    ensures
        i <= first_not_below(gv, t, i) <= gv.len(),
        forall|m: int| i <= m < first_not_below(gv, t, i) ==> lex_lt(#[trigger] gv[m].0, t),
        first_not_below(gv, t, i) < gv.len() ==> !lex_lt(gv[first_not_below(gv, t, i)].0, t),
    decreases gv.len() - i,
{
    if i < gv.len() && lex_lt(gv[i].0, t) {
        lemma_first_not_below(gv, t, i + 1);
    }
}

/// A grouping by tag of `prev` becomes one of `prev` followed by `ep`: `ep` joins the
/// group of its tag, or a new group at the place its tag takes in the order.
proof fn lemma_grouping_step(prev: Seq<ApiEndpoint>, ep: ApiEndpoint, gv: Seq<(Seq<char>, Seq<ApiEndpoint>)>)
    requires
        grouped_by_tag(prev, gv),
    ensures
        exists|g2: Seq<(Seq<char>, Seq<ApiEndpoint>)>| grouped_by_tag(prev.push(ep), g2),
{
    let t = tag_of(ep);
    let next = prev.push(ep);
    let i = prev.len();
    lemma_first_not_below(gv, t, 0);
    let k = first_not_below(gv, t, 0);
    if k < gv.len() && gv[k].0 == t {
        let gv2 = gv.update(k, (t, gv[k].1.push(ep)));
        assert forall|a: int| 0 <= a < gv2.len() && a != k implies gv2[a].0 != t by {
            lemma_lex_order(gv[a].0, t, t);
            if a < k {
                lemma_lex_order(gv[a].0, gv[k].0, t);
            } else {
                lemma_lex_order(gv[k].0, gv[a].0, t);
            }
        }
        assert forall|a: int| 0 <= a < gv2.len() implies gv2[a].1 == next.filter(has_tag(gv2[a].0))
            && gv2[a].1.len() > 0 by {
            lemma_filter_push(prev, ep, gv2[a].0);
        }
        assert forall|j: int| 0 <= j < next.len() implies #[trigger] tag_listed(gv2, tag_of(next[j])) by {
            if j < i {
                assert(next[j] == prev[j]);
                assert(tag_listed(gv, tag_of(prev[j])));
                let a = choose|a: int| 0 <= a < gv.len() && gv[a].0 == tag_of(prev[j]);
                assert(gv2[a].0 == gv[a].0);
            } else {
                assert(gv2[k].0 == tag_of(next[j]));
            }
        }
        assert(grouped_by_tag(next, gv2));
    } else {
        let gv2 = gv.insert(k, (t, seq![ep]));
        if k < gv.len() {
            lemma_lex_order(gv[k].0, t, t);
        }
        assert forall|a: int| 0 <= a < gv.len() implies gv[a].0 != t && (a < k ==> lex_lt(gv[a].0, t)) && (a
            >= k ==> lex_lt(t, gv[a].0)) by {
            lemma_lex_order(gv[a].0, t, t);
            if a > k {
                lemma_lex_order(t, gv[k].0, gv[a].0);
            }
        }
        lemma_filter_empty(prev, gv, t);
        assert forall|a: int, b: int| 0 <= a < b < gv2.len() implies lex_lt(gv2[a].0, gv2[b].0) by {
            if a < k && b > k {
                lemma_lex_order(gv[a].0, t, gv[b - 1].0);
            }
        }
        assert forall|a: int| 0 <= a < gv2.len() implies gv2[a].1 == next.filter(has_tag(gv2[a].0))
            && gv2[a].1.len() > 0 by {
            lemma_filter_push(prev, ep, gv2[a].0);
            if a == k {
                assert(prev.filter(has_tag(t)) =~= Seq::<ApiEndpoint>::empty());
            }
        }
        assert forall|j: int| 0 <= j < next.len() implies #[trigger] tag_listed(gv2, tag_of(next[j])) by {
            if j < i {
                assert(next[j] == prev[j]);
                assert(tag_listed(gv, tag_of(prev[j])));
                let a = choose|a: int| 0 <= a < gv.len() && gv[a].0 == tag_of(prev[j]);
                if a < k {
                    assert(gv2[a].0 == gv[a].0);
                } else {
                    assert(gv2[a + 1].0 == gv[a].0);
                }
            } else {
                assert(gv2[k].0 == tag_of(next[j]));
            }
        }
        assert(grouped_by_tag(next, gv2));
    }
}

/// Any endpoints can be grouped by tag, so `tag_groups` is their grouping.
pub proof fn lemma_tag_groups_grouped(eps: Seq<ApiEndpoint>)
    ensures
        grouped_by_tag(eps, tag_groups(eps)),
    decreases eps.len(),
{
    if eps.len() == 0 {
        assert(grouped_by_tag(eps, Seq::<(Seq<char>, Seq<ApiEndpoint>)>::empty()));
    } else {
        let prev = eps.drop_last();
        lemma_tag_groups_grouped(prev);
        lemma_grouping_step(prev, eps.last(), tag_groups(prev));
        assert(prev.push(eps.last()) =~= eps);
    }
}

/// The tag of `ep`, as a new string.
fn endpoint_tag(ep: &ApiEndpoint) -> (r: String)
    ensures
        r@ == tag_of(*ep),
{
    if ep.tags.len() > 0 {
        ep.tags[0].clone()
    } else {
        String::from_str(UNTAGGED)
    }
}

/// Group endpoints by their first tag (or "Untagged"), in increasing order of tags.
/// Each tag heads one group only: the result is a map from tags to endpoint lists.
pub fn group_endpoints_by_tag(endpoints: &[ApiEndpoint]) -> (r: Vec<(String, Vec<&ApiEndpoint>)>)
    ensures
        grouped_by_tag(endpoints@, group_views(r@)),
        group_views(r@) == tag_groups(endpoints@),
        forall|a: int, b: int| 0 <= a < b < r@.len() ==> r@[a].0@ != r@[b].0@,
{
    let mut groups: Vec<(String, Vec<&ApiEndpoint>)> = Vec::new();
    let mut i: usize = 0;
    while i < endpoints.len()
        invariant
            i <= endpoints@.len(),
            grouped_by_tag(endpoints@.take(i as int), group_views(groups@)),
        decreases endpoints@.len() - i,
    {
        let ep = &endpoints[i];
        let tag = endpoint_tag(ep);
        let tag_chars = chars_of(tag.as_str());
        let ghost t = tag@;
        let ghost gv = group_views(groups@);
        let ghost prev = endpoints@.take(i as int);
        let ghost next = endpoints@.take(i + 1);
        assert(next =~= prev.push(*ep));
        let mut k: usize = 0;
        while k < groups.len() && chars_lt(&chars_of(groups[k].0.as_str()), &tag_chars)
            invariant
                k <= groups@.len(),
                gv == group_views(groups@),
                tag_chars@ == t,
                forall|m: int| 0 <= m < k ==> lex_lt(#[trigger] gv[m].0, t),
            decreases groups@.len() - k,
        {
            k = k + 1;
        }
        let found = k < groups.len() && str_eq(groups[k].0.as_str(), tag.as_str());
        if found {
            let ghost old_groups = groups@;
            let (g_tag, mut members) = groups.remove(k);
            let ghost old_members = members@;
            members.push(ep);
            proof {
                assert(deref_all(members@) =~= deref_all(old_members).push(*ep));
            }
            groups.insert(k, (g_tag, members));
            proof {
                assert(groups@ =~= old_groups.update(k as int, (g_tag, members)));
                let gv2 = group_views(groups@);
                assert(gv2 =~= gv.update(k as int, (t, gv[k as int].1.push(*ep))));
                assert forall|a: int| 0 <= a < gv2.len() && a != k implies gv2[a].0 != t by {
                    lemma_lex_order(gv[a].0, t, t);
                    if a < k {
                        lemma_lex_order(gv[a].0, gv[k as int].0, t);
                    } else {
                        lemma_lex_order(gv[k as int].0, gv[a].0, t);
                    }
                }
                assert forall|a: int| 0 <= a < gv2.len() implies gv2[a].1 == next.filter(
                    has_tag(gv2[a].0),
                ) && gv2[a].1.len() > 0 by {
                    lemma_filter_push(prev, *ep, gv2[a].0);
                }
                assert forall|j: int| 0 <= j < next.len() implies #[trigger] tag_listed(
                    gv2,
                    tag_of(next[j]),
                ) by {
                    if j < i {
                        assert(next[j] == prev[j]);
                        assert(tag_listed(gv, tag_of(prev[j])));
                        let a = choose|a: int| 0 <= a < gv.len() && gv[a].0 == tag_of(prev[j]);
                        assert(gv2[a].0 == gv[a].0);
                    } else {
                        assert(gv2[k as int].0 == tag_of(next[j]));
                    }
                }
            }
        } else {
            let members: Vec<&ApiEndpoint> = vec![ep];
            groups.insert(k, (tag, members));
            proof {
                let gv2 = group_views(groups@);
                assert(deref_all(members@) =~= seq![*ep]);
                assert(gv2 =~= gv.insert(k as int, (t, seq![*ep])));
                if k < gv.len() {
                    lemma_lex_order(gv[k as int].0, t, t);
                }
                assert forall|a: int| 0 <= a < gv.len() implies gv[a].0 != t && (a < k ==> lex_lt(
                    gv[a].0,
                    t,
                )) && (a >= k ==> lex_lt(t, gv[a].0)) by {
                    lemma_lex_order(gv[a].0, t, t);
                    if a > k {
                        lemma_lex_order(t, gv[k as int].0, gv[a].0);
                    }
                }
                lemma_filter_empty(prev, gv, t);
                assert forall|a: int, b: int| 0 <= a < b < gv2.len() implies lex_lt(
                    gv2[a].0,
                    gv2[b].0,
                ) by {
                    if a < k && b > k {
                        lemma_lex_order(gv[a].0, t, gv[b - 1].0);
                    }
                }
                assert forall|a: int| 0 <= a < gv2.len() implies gv2[a].1 == next.filter(
                    has_tag(gv2[a].0),
                ) && gv2[a].1.len() > 0 by {
                    lemma_filter_push(prev, *ep, gv2[a].0);
                    if a == k {
                        assert(prev.filter(has_tag(t)) =~= Seq::<ApiEndpoint>::empty());
                    }
                }
                assert forall|j: int| 0 <= j < next.len() implies #[trigger] tag_listed(
                    gv2,
                    tag_of(next[j]),
                ) by {
                    if j < i {
                        assert(next[j] == prev[j]);
                        assert(tag_listed(gv, tag_of(prev[j])));
                        let a = choose|a: int| 0 <= a < gv.len() && gv[a].0 == tag_of(prev[j]);
                        if a < k {
                            assert(gv2[a].0 == gv[a].0);
                        } else {
                            assert(gv2[a + 1].0 == gv[a].0);
                        }
                    } else {
                        assert(gv2[k as int].0 == tag_of(next[j]));
                    }
                }
            }
        }
        i = i + 1;
    }
    assert(endpoints@.take(i as int) =~= endpoints@);
    proof {
        lemma_grouping_unique(endpoints@, group_views(groups@), tag_groups(endpoints@));
        assert forall|a: int, b: int| 0 <= a < b < groups@.len() implies groups@[a].0@ != groups@[b].0@ by {
            assert(group_views(groups@)[a].0 == groups@[a].0@);
            assert(group_views(groups@)[b].0 == groups@[b].0@);
            lemma_lex_order(groups@[a].0@, groups@[b].0@, groups@[b].0@);
        }
    }
    groups
}

// ---------------------------------------------------------------------------
// Slugs
// ---------------------------------------------------------------------------

/// `s` without its leading occurrences of `c`.
pub open spec fn trim_start_char(s: Seq<char>, c: char) -> Seq<char>
    decreases s.len(),
{
    if s.len() > 0 && s[0] == c {
        trim_start_char(s.drop_first(), c)
    } else {
        s
    }
}

/// What a path character becomes in a slug: `/` becomes `-`, braces are dropped.
pub open spec fn slug_char(c: char) -> Seq<char> {
    if c == '/' {
        seq!['-']
    } else if c == '{' || c == '}' {
        Seq::<char>::empty()
    } else {
        seq![c]
    }
}

/// The path as it stands in a slug: without leading `/`, with `/` as `-` and no braces.
pub open spec fn clean_path(path: Seq<char>) -> Seq<char> {
    concat_map(trim_start_char(path, '/'), |c: char| slug_char(c))
}

/// The slug of an endpoint page: `<prefix>/<lowercase method>-<clean path>`.
pub open spec fn slug_with_prefix(ep: ApiEndpoint, prefix: Seq<char>) -> Seq<char> {
    prefix + "/"@ + lowercase_of(ep.method@) + "-"@ + clean_path(ep.path@)
}

/// Whether `s` holds no `/` and no braces.
pub open spec fn slug_safe(s: Seq<char>) -> bool {
    forall|i: int| 0 <= i < s.len() ==> s[i] != '/' && s[i] != '{' && s[i] != '}'
}

/// A cleaned path holds no `/` and no braces.
pub proof fn lemma_clean_path_chars(path: Seq<char>)
    ensures
        slug_safe(clean_path(path)),
{
    lemma_slug_chars(trim_start_char(path, '/'));
}

proof fn lemma_slug_chars(s: Seq<char>)
    ensures
        slug_safe(concat_map(s, |c: char| slug_char(c))),
    decreases s.len(),
{
    if s.len() > 0 {
        lemma_slug_chars(s.drop_last());
        let a = concat_map(s.drop_last(), |c: char| slug_char(c));
        let b = slug_char(s.last());
        assert(concat_map(s, |c: char| slug_char(c)) == a + b);
        assert forall|i: int| 0 <= i < (a + b).len() implies (a + b)[i] != '/' && (a + b)[i] != '{'
            && (a + b)[i] != '}' by {
            if i >= a.len() {
                assert((a + b)[i] == b[i - a.len()]);
            } else {
                assert((a + b)[i] == a[i]);
            }
        }
    }
}

fn push_clean_path(out: &mut String, path: &str)
    ensures
        final(out)@ == old(out)@ + clean_path(path@),
{
    let chars = chars_of(path);
    let mut start: usize = 0;
    assert(chars@.skip(0) =~= chars@);
    while start < chars.len() && chars[start] == '/'
        invariant
            start <= chars@.len(),
            chars@ == path@,
            trim_start_char(chars@.skip(start as int), '/') == trim_start_char(path@, '/'),
        decreases chars@.len() - start,
    {
        assert(chars@.skip(start as int).drop_first() =~= chars@.skip(start + 1));
        start = start + 1;
    }
    let ghost rest = chars@.skip(start as int);
    let ghost f = |c: char| slug_char(c);
    let ghost base = out@;
    let mut i: usize = start;
    while i < chars.len()
        invariant
            start <= i <= chars@.len(),
            rest == chars@.skip(start as int),
            f == (|c: char| slug_char(c)),
            out@ == base + concat_map(rest.take(i - start), f),
        decreases chars@.len() - i,
    {
        let c = chars[i];
        if c == '/' {
            push_char(out, '-');
        } else if c != '{' && c != '}' {
            push_char(out, c);
        }
        proof {
            lemma_concat_map_step(rest, f, i - start);
            assert(rest[i - start] == c);
        }
        i = i + 1;
    }
    assert(rest.take(i - start) =~= rest);
}

/// Generate the slug for an API endpoint page with a custom prefix.
pub fn endpoint_slug_with_prefix(ep: &ApiEndpoint, prefix: &str) -> (r: String)
    ensures
        r@ == slug_with_prefix(*ep, prefix@),
{
    let mut slug = String::from_str(prefix);
    slug.append("/");
    let method = str_to_lowercase(ep.method.as_str());
    slug.append(method.as_str());
    slug.append("-");
    push_clean_path(&mut slug, ep.path.as_str());
    slug
}

/// Generate the slug for an API endpoint page (default "api" prefix).
pub fn endpoint_slug(ep: &ApiEndpoint) -> (r: String)
    ensures
        r@ == slug_with_prefix(*ep, "api"@),
{
    endpoint_slug_with_prefix(ep, "api")
}

// ---------------------------------------------------------------------------
// Sidebar groups
// ---------------------------------------------------------------------------

/// The title of an endpoint's page: its summary, else its operation id, else
/// `<method> <path>`.
pub open spec fn endpoint_title(ep: ApiEndpoint) -> Seq<char> {
    match ep.summary {
        Some(s) => s@,
        None => match ep.operation_id {
            Some(o) => o@,
            None => ep.method@ + " "@ + ep.path@,
        },
    }
}

pub(crate) fn endpoint_title_exec(ep: &ApiEndpoint) -> (r: String)
    ensures
        r@ == endpoint_title(*ep),
{
    match &ep.summary {
        Some(s) => s.clone(),
        None => match &ep.operation_id {
            Some(o) => o.clone(),
            None => {
                let mut t = ep.method.clone();
                t.append(" ");
                t.append(ep.path.as_str());
                t
            },
        },
    }
}

/// The sidebar entry of an endpoint listed under `tag`.
pub open spec fn is_endpoint_page(p: PageEntry, ep: ApiEndpoint, tag: Seq<char>, prefix: Seq<char>) -> bool {
    &&& p.title@ == endpoint_title(ep)
    &&& p.short_title@ == endpoint_title(ep)
    &&& p.slug@ == slug_with_prefix(ep, prefix)
    &&& p.file_path@ == Seq::<char>::empty()
    &&& p.group matches Some(g) && g@ == tag
}

/// The sidebar group of one tag's endpoints, titled `title`.
pub open spec fn is_endpoint_group(
    n: NavGroup,
    group: (Seq<char>, Seq<ApiEndpoint>),
    title: Seq<char>,
    prefix: Seq<char>,
) -> bool {
    &&& n.title@ == title
    &&& n.pages@.len() == group.1.len()
    &&& forall|m: int|
        0 <= m < group.1.len() ==> is_endpoint_page(#[trigger] n.pages@[m], group.1[m], group.0, prefix)
}

/// The title of a tag's sidebar group: `group_title` when there is one tag, else the tag.
pub open spec fn api_group_title(groups: Seq<(Seq<char>, Seq<ApiEndpoint>)>, k: int, group_title: Seq<char>) -> Seq<char> {
    if groups.len() == 1 {
        group_title
    } else {
        groups[k].0
    }
}

/// Generate NavGroups for API endpoints to merge into the site sidebar: one group per
/// tag, in increasing order of the tags, each with one page per endpoint of that tag,
/// in the order of `endpoints`.
pub fn generate_api_nav_groups(endpoints: &[ApiEndpoint], group_title: &str, prefix: &str) -> (r: Vec<NavGroup>)
    ensures
        grouped_by_tag(endpoints@, tag_groups(endpoints@)),
        r@.len() == tag_groups(endpoints@).len(),
        forall|k: int|
            0 <= k < r@.len() ==> is_endpoint_group(
                #[trigger] r@[k],
                tag_groups(endpoints@)[k],
                api_group_title(tag_groups(endpoints@), k, group_title@),
                prefix@,
            ),
{
    let by_tag = group_endpoints_by_tag(endpoints);
    let ghost gs = group_views(by_tag@);
    let mut nav_groups: Vec<NavGroup> = Vec::new();
    let mut k: usize = 0;
    while k < by_tag.len()
        invariant
            k <= by_tag@.len(),
            gs == group_views(by_tag@),
            gs == tag_groups(endpoints@),
            nav_groups@.len() == k,
            forall|a: int|
                0 <= a < k ==> is_endpoint_group(
                    #[trigger] nav_groups@[a],
                    gs[a],
                    api_group_title(gs, a, group_title@),
                    prefix@,
                ),
        decreases by_tag@.len() - k,
    {
        let tag = &by_tag[k].0;
        let eps = &by_tag[k].1;
        let title = if by_tag.len() == 1 {
            String::from_str(group_title)
        } else {
            tag.clone()
        };
        let mut pages: Vec<PageEntry> = Vec::new();
        let mut m: usize = 0;
        while m < eps.len()
            invariant
                m <= eps@.len(),
                gs[k as int].1 == deref_all(eps@),
                gs[k as int].0 == tag@,
                pages@.len() == m,
                forall|b: int|
                    0 <= b < m ==> is_endpoint_page(#[trigger] pages@[b], gs[k as int].1[b], tag@, prefix@),
            decreases eps@.len() - m,
        {
            let ep: &ApiEndpoint = eps[m];
            let ep_title = endpoint_title_exec(ep);
            let page = PageEntry {
                short_title: ep_title.clone(),
                title: ep_title,
                slug: endpoint_slug_with_prefix(ep, prefix),
                file_path: String::new(),
                group: Some(tag.clone()),
            };
            pages.push(page);
            m = m + 1;
        }
        nav_groups.push(NavGroup { title, pages });
        k = k + 1;
    }
    nav_groups
}

/// Shared rendering context passed to API page builders.
pub struct ApiBuildContext<'a> {
    pub config: &'a OxidocConfig,
    pub assets: &'a AssetConfig<'a>,
    pub search_provider: &'a SearchProvider,
}

} // verus!
