//! `<meta>` tags that a page's own head block overrides: the keys a head fragment
//! sets, and the removal of the default tags with those keys.
use vstd::prelude::*;

use crate::text::{chars_match_at, chars_of, dedup, string_from_chars, sub_chars};
use crate::versioning::string_views;

verus! {

broadcast use vstd::string::group_string_axioms;

/// Whether `pat` occurs in `s` at position `i`.
pub open spec fn occurs_at(s: Seq<char>, pat: Seq<char>, i: int) -> bool {
    0 <= i && i + pat.len() <= s.len() && s.subrange(i, i + pat.len()) == pat
}

/// The first position at or after `i` where `pat` occurs in `s`.
pub open spec fn find_from(s: Seq<char>, pat: Seq<char>, i: nat) -> Option<nat>
    decreases s.len() + 1 - i,
{
    if i + pat.len() > s.len() {
        None
    } else if occurs_at(s, pat, i as int) {
        Some(i)
    } else {
        find_from(s, pat, i + 1)
    }
}

/// The first position at or after `i` where `c` occurs in `s`.
pub open spec fn find_char_from(s: Seq<char>, c: char, i: nat) -> Option<nat>
    decreases s.len() - i,
{
    if i >= s.len() {
        None
    } else if s[i as int] == c {
        Some(i)
    } else {
        find_char_from(s, c, i + 1)
    }
}

/// `find_from` finds the first occurrence.
pub proof fn lemma_find_from(s: Seq<char>, pat: Seq<char>, i: nat)
    ensures
        find_from(s, pat, i) matches Some(p) ==> i <= p && occurs_at(s, pat, p as int),
        find_from(s, pat, i) is None ==> forall|q: int| i <= q ==> !occurs_at(s, pat, q),
    decreases s.len() + 1 - i,
{
    if i + pat.len() <= s.len() && !occurs_at(s, pat, i as int) {
        lemma_find_from(s, pat, i + 1);
        assert forall|q: int| i <= q && find_from(s, pat, i) is None implies !occurs_at(s, pat, q) by {
            if q == i {
            }
        }
    }
}

/// `find_char_from` finds the first occurrence.
pub proof fn lemma_find_char_from(s: Seq<char>, c: char, i: nat)
    ensures
        find_char_from(s, c, i) matches Some(p) ==> i <= p < s.len() && s[p as int] == c,
        find_char_from(s, c, i) is None ==> forall|q: int| i <= q < s.len() ==> s[q] != c,
    decreases s.len() - i,
{
    if i < s.len() && s[i as int] != c {
        lemma_find_char_from(s, c, i + 1);
    }
}

/// The marker that opens the value of `attr`: `attr="`.
pub open spec fn attr_marker(attr: Seq<char>) -> Seq<char> {
    attr + "=\""@
}

/// The keys `attr:value` of the attributes `attr="value"` of `s` at or after `i`, in
/// order: each value runs from its marker to the next `"`; the scan stops at a value
/// without a closing quote.
pub open spec fn keys_from(s: Seq<char>, attr: Seq<char>, i: nat) -> Seq<Seq<char>>
    decreases s.len() + 1 - i,
{
    match find_from(s, attr_marker(attr), i) {
        None => Seq::<Seq<char>>::empty(),
        Some(p) => {
            let vstart = p + attr_marker(attr).len();
            match find_char_from(s, '"', vstart) {
                None => Seq::<Seq<char>>::empty(),
                Some(e) => {
                    proof {
                        lemma_find_from(s, attr_marker(attr), i);
                        lemma_find_char_from(s, '"', vstart);
                    }
                    seq![attr + ":"@ + s.subrange(vstart as int, e as int)] + keys_from(s, attr, e + 1)
                },
            }
        },
    }
}

/// The keys of the `property` and then of the `name` attributes of a fragment.
pub open spec fn meta_keys(fragment: Seq<char>) -> Seq<Seq<char>> {
    dedup(keys_from(fragment, "property"@, 0) + keys_from(fragment, "name"@, 0))
}

// ---------------------------------------------------------------------------
// Executable scanning
// ---------------------------------------------------------------------------

pub(crate) fn find_from_exec(s: &[char], pat: &[char], i: usize) -> (r: Option<usize>)
    requires
        i <= s@.len(),
    ensures
        r matches Some(q) ==> find_from(s@, pat@, i as nat) == Some(q as nat),
        r is None ==> find_from(s@, pat@, i as nat) is None,
{
    let mut j: usize = i;
    while pat.len() <= s.len() - j
        invariant
            i <= j <= s@.len(),
            find_from(s@, pat@, i as nat) == find_from(s@, pat@, j as nat),
        decreases s@.len() + 1 - j,
    {
        proof {
            if pat@.len() == 0 {
                assert(s@.subrange(j as int, j as int) =~= pat@);
            }
        }
        if chars_match_at(s, j, pat) {
            return Some(j);
        }
        j = j + 1;
    }
    None
}

fn find_char_from_exec(s: &[char], c: char, i: usize) -> (r: Option<usize>)
    ensures
        r matches Some(q) ==> find_char_from(s@, c, i as nat) == Some(q as nat),
        r is None ==> find_char_from(s@, c, i as nat) is None,
{
    let mut j: usize = i;
    while j < s.len()
        invariant
            i <= j,
            find_char_from(s@, c, i as nat) == find_char_from(s@, c, j as nat),
        decreases s@.len() - j,
    {
        if s[j] == c {
            return Some(j);
        }
        j = j + 1;
    }
    None
}

fn push_keys(keys: &mut Vec<Vec<char>>, s: &[char], attr: &str)
    ensures
        char_views(final(keys)@) == char_views(old(keys)@) + keys_from(s@, attr@, 0),
{
    let mut marker = chars_of(attr);
    marker.push('=');
    marker.push('"');
    proof {
        reveal_strlit("=\"");
        assert(marker@ =~= attr_marker(attr@));
    }
    let ghost start = char_views(keys@);
    let slen = s.len();
    let mut i: usize = 0;
    assert(char_views(keys@) =~= start + Seq::<Seq<char>>::empty());
    loop
        invariant
            i <= s@.len(),
            slen == s@.len(),
            marker@ == attr_marker(attr@),
            start == char_views(old(keys)@),
            start + keys_from(s@, attr@, 0) == char_views(keys@) + keys_from(s@, attr@, i as nat),
        decreases s@.len() + 1 - i,
    {
        let p = match find_from_exec(s, &marker, i) {
            Some(p) => p,
            None => {
                assert(char_views(keys@) + keys_from(s@, attr@, i as nat) =~= char_views(keys@));
                return;
            },
        };
        proof {
            lemma_find_from(s@, marker@, i as nat);
            assert(find_from(s@, marker@, i as nat) == Some(p as nat));
            assert(occurs_at(s@, marker@, p as int));
        }
        let vstart = p + marker.len();
        let e = match find_char_from_exec(s, '"', vstart) {
            Some(e) => e,
            None => {
                assert(char_views(keys@) + keys_from(s@, attr@, i as nat) =~= char_views(keys@));
                return;
            },
        };
        proof {
            lemma_find_char_from(s@, '"', vstart as nat);
            assert(find_char_from(s@, '"', vstart as nat) == Some(e as nat));
        }
        let mut key = chars_of(attr);
        key.push(':');
        let value = sub_chars(s, vstart, e);
        let ghost before = key@;
        let mut k: usize = 0;
        while k < value.len()
            invariant
                k <= value@.len(),
                key@ == before + value@.take(k as int),
            decreases value@.len() - k,
        {
            key.push(value[k]);
            k = k + 1;
            assert(value@.take(k as int) =~= value@.take(k - 1).push(value@[k - 1]));
        }
        proof {
            reveal_strlit(":");
            assert(value@.take(k as int) =~= value@);
            assert(key@ =~= attr@ + ":"@ + s@.subrange(vstart as int, e as int));
        }
        let ghost old_views = char_views(keys@);
        keys.push(key);
        proof {
            assert(char_views(keys@) =~= old_views.push(key@));
            assert(keys_from(s@, attr@, i as nat) =~= seq![key@] + keys_from(s@, attr@, (e + 1) as nat));
            assert(old_views + keys_from(s@, attr@, i as nat) =~= char_views(keys@) + keys_from(
                s@,
                attr@,
                (e + 1) as nat,
            ));
        }
        i = e + 1;
    }
}

/// The characters of each vector.
pub open spec fn char_views(v: Seq<Vec<char>>) -> Seq<Seq<char>> {
    v.map_values(|x: Vec<char>| x@)
}

fn contains_chars(v: &Vec<Vec<char>>, x: &Vec<char>) -> (r: bool)
    ensures
        r == char_views(v@).contains(x@),
{
    let mut i: usize = 0;
    while i < v.len()
        invariant
            i <= v@.len(),
            forall|j: int| 0 <= j < i ==> v@[j]@ != x@,
        decreases v@.len() - i,
    {
        if crate::text::chars_eq(&v[i], x) {
            assert(char_views(v@)[i as int] == x@);
            return true;
        }
        i = i + 1;
    }
    assert forall|j: int| 0 <= j < char_views(v@).len() implies char_views(v@)[j] != x@ by {
        assert(v@[j]@ != x@);
    }
    false
}

fn dedup_keys(keys: &Vec<Vec<char>>) -> (r: Vec<Vec<char>>)
    ensures
        char_views(r@) == dedup(char_views(keys@)),
{
    let mut r: Vec<Vec<char>> = Vec::new();
    let mut i: usize = 0;
    while i < keys.len()
        invariant
            i <= keys@.len(),
            char_views(r@) == dedup(char_views(keys@).take(i as int)),
        decreases keys@.len() - i,
    {
        let ghost t = char_views(keys@).take(i + 1);
        assert(t.drop_last() =~= char_views(keys@).take(i as int));
        assert(t.last() == keys@[i as int]@);
        if !contains_chars(&r, &keys[i]) {
            let ghost before = char_views(r@);
            r.push(keys[i].clone());
            assert(char_views(r@) =~= before.push(keys@[i as int]@));
        }
        i = i + 1;
    }
    assert(char_views(keys@).take(i as int) =~= char_views(keys@));
    r
}

fn meta_key_chars(fragment: &str) -> (r: Vec<Vec<char>>)
    ensures
        char_views(r@) == meta_keys(fragment@),
{
    let s = chars_of(fragment);
    let mut keys: Vec<Vec<char>> = Vec::new();
    assert(char_views(keys@) =~= Seq::<Seq<char>>::empty());
    push_keys(&mut keys, &s, "property");
    push_keys(&mut keys, &s, "name");
    assert(Seq::<Seq<char>>::empty() + keys_from(s@, "property"@, 0) =~= keys_from(s@, "property"@, 0));
    dedup_keys(&keys)
}

/// Collect all `property:value` and `name:value` keys from a `<meta>` HTML fragment,
/// each once, in the order in which they first occur (`property` keys first).
pub fn collect_meta_keys(fragment: &str) -> (r: Vec<String>)
    ensures
        string_views(r@) == meta_keys(fragment@),
{
    let keys = meta_key_chars(fragment);
    let mut r: Vec<String> = Vec::new();
    let mut i: usize = 0;
    while i < keys.len()
        invariant
            i <= keys@.len(),
            string_views(r@) == char_views(keys@).take(i as int),
        decreases keys@.len() - i,
    {
        let ghost before = string_views(r@);
        r.push(string_from_chars(&keys[i]));
        assert(string_views(r@) =~= before.push(keys@[i as int]@));
        assert(char_views(keys@).take(i + 1) =~= char_views(keys@).take(i as int).push(keys@[i as int]@));
        i = i + 1;
    }
    assert(char_views(keys@).take(i as int) =~= char_views(keys@));
    r
}

// ---------------------------------------------------------------------------
// Removing overridden tags
// ---------------------------------------------------------------------------

/// The start of the default tag for a key `attr:value`: `<meta attr="value"`.
pub open spec fn meta_needle(key: Seq<char>, colon: nat) -> Seq<char> {
    "<meta "@ + key.take(colon as int) + "=\""@ + key.skip(colon + 1int) + "\""@
}

/// `h` without the first tag that starts with the key's needle, up to its `>` and one
/// newline right after it; `h` as it is when there is no such tag (or no `:` in the key).
pub open spec fn remove_meta_tag(h: Seq<char>, key: Seq<char>) -> Seq<char> {
    match find_char_from(key, ':', 0) {
        None => h,
        Some(colon) => match find_from(h, meta_needle(key, colon), 0) {
            None => h,
            Some(start) => match find_char_from(h, '>', start) {
                None => h,
                Some(gt) => {
                    let end = gt + 1;
                    let remove_end = if end < h.len() && h[end as int] == '\n' {
                        end + 1
                    } else {
                        end
                    };
                    h.take(start as int) + h.skip(remove_end as int)
                },
            },
        },
    }
}

/// `h` with the tags of all `keys` removed, one key after the other.
pub open spec fn remove_meta_tags(h: Seq<char>, keys: Seq<Seq<char>>) -> Seq<char>
    decreases keys.len(),
{
    if keys.len() == 0 {
        h
    } else {
        remove_meta_tag(remove_meta_tags(h, keys.drop_last()), keys.last())
    }
}

pub(crate) fn push_all(v: &mut Vec<char>, w: &[char])
    ensures
        final(v)@ == old(v)@ + w@,
{
    let ghost start = v@;
    let mut i: usize = 0;
    while i < w.len()
        invariant
            i <= w@.len(),
            v@ == start + w@.take(i as int),
        decreases w@.len() - i,
    {
        v.push(w[i]);
        i = i + 1;
        assert(w@.take(i as int) =~= w@.take(i - 1).push(w@[i - 1]));
    }
    assert(w@.take(i as int) =~= w@);
}

fn remove_meta_tag_exec(h: &Vec<char>, key: &Vec<char>) -> (r: Vec<char>)
    ensures
        r@ == remove_meta_tag(h@, key@),
{
    let colon = match find_char_from_exec(key, ':', 0) {
        Some(c) => c,
        None => {
            return h.clone();
        },
    };
    let klen = key.len();
    let hlen = h.len();
    proof {
        lemma_find_char_from(key@, ':', 0);
        assert(colon < klen);
    }
    let mut needle = chars_of("<meta ");
    push_all(&mut needle, &sub_chars(key, 0, colon));
    push_all(&mut needle, &chars_of("=\""));
    push_all(&mut needle, &sub_chars(key, colon + 1, key.len()));
    push_all(&mut needle, &chars_of("\""));
    assert(needle@ =~= meta_needle(key@, colon as nat));
    let start = match find_from_exec(h, &needle, 0) {
        Some(p) => p,
        None => {
            return h.clone();
        },
    };
    proof {
        lemma_find_from(h@, needle@, 0);
    }
    let gt = match find_char_from_exec(h, '>', start) {
        Some(g) => g,
        None => {
            return h.clone();
        },
    };
    proof {
        lemma_find_char_from(h@, '>', start as nat);
        assert(gt < hlen);
    }
    let end = gt + 1;
    let remove_end = if end < h.len() && h[end] == '\n' {
        end + 1
    } else {
        end
    };
    let mut r = sub_chars(h, 0, start);
    push_all(&mut r, &sub_chars(h, remove_end, h.len()));
    assert(h@.subrange(0, start as int) =~= h@.take(start as int));
    assert(h@.subrange(remove_end as int, h@.len() as int) =~= h@.skip(remove_end as int));
    r
}

/// Remove default `<meta>` tags from `html` that are overridden by tags in `extra_head`.
pub fn remove_overridden_meta_tags(html: String, extra_head: &str) -> (r: String)
    ensures
        r@ == remove_meta_tags(html@, meta_keys(extra_head@)),
{
    let keys = meta_key_chars(extra_head);
    if keys.len() == 0 {
        return html;
    }
    let mut result = chars_of(html.as_str());
    let mut i: usize = 0;
    while i < keys.len()
        invariant
            i <= keys@.len(),
            char_views(keys@) == meta_keys(extra_head@),
            result@ == remove_meta_tags(html@, char_views(keys@).take(i as int)),
        decreases keys@.len() - i,
    {
        result = remove_meta_tag_exec(&result, &keys[i]);
        i = i + 1;
        assert(char_views(keys@).take(i as int).drop_last() =~= char_views(keys@).take(i - 1));
    }
    assert(char_views(keys@).take(i as int) =~= char_views(keys@));
    string_from_chars(&result)
}

} // verus!
