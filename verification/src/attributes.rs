//! The attributes of a page's components: their values, how components read them,
//! and how they are written as HTML attributes and as JSON.
use vstd::prelude::*;

use crate::template::page::{json_string, json_string_of};
use crate::text::{chars_eq, chars_lt, chars_of, lex_lt, string_from_chars};

verus! {

broadcast use vstd::string::group_string_axioms;

/// The value of a component attribute.
#[derive(Debug)]
pub enum AttrValue {
    Null,
    Bool(bool),
    /// A number, as written in JSON.
    Number(String),
    Str(String),
    /// An array or an object, as its compact JSON text.
    Json(String),
    /// A variable reference, by its path.
    Variable(String),
}

/// The characters of a string attribute, as components read it: a string, or a
/// variable written `${path}`; nothing for other values.
pub open spec fn value_str(v: AttrValue) -> Option<Seq<char>> {
    match v {
        AttrValue::Str(s) => Some(s@),
        AttrValue::Variable(p) => Some("${"@ + p@ + "}"@),
        _ => None,
    }
}

/// The index of the value of attribute `key`: its last occurrence.
pub open spec fn attr_index(attrs: Seq<(String, AttrValue)>, key: Seq<char>) -> Option<nat>
    decreases attrs.len(),
{
    if attrs.len() == 0 {
        None
    } else if attrs.last().0@ == key {
        Some((attrs.len() - 1) as nat)
    } else {
        attr_index(attrs.drop_last(), key)
    }
}

/// The value of attribute `key`: that of its last occurrence.
pub open spec fn attr_get(attrs: Seq<(String, AttrValue)>, key: Seq<char>) -> Option<AttrValue> {
    match attr_index(attrs, key) {
        Some(i) => Some(attrs[i as int].1),
        None => None,
    }
}

/// Attribute `key` as a string, if it is one.
pub open spec fn prop_str(attrs: Seq<(String, AttrValue)>, key: Seq<char>) -> Option<Seq<char>> {
    match attr_get(attrs, key) {
        Some(v) => value_str(v),
        None => None,
    }
}

/// Attribute `key` as a boolean, if it is one.
pub open spec fn prop_bool(attrs: Seq<(String, AttrValue)>, key: Seq<char>) -> Option<bool> {
    match attr_get(attrs, key) {
        Some(AttrValue::Bool(b)) => Some(b),
        _ => None,
    }
}

/// An optional string, or `d`.
pub open spec fn or_else(o: Option<Seq<char>>, d: Seq<char>) -> Seq<char> {
    match o {
        Some(s) => s,
        None => d,
    }
}

/// The JSON of an attribute value.
pub open spec fn attr_json(v: AttrValue) -> Seq<char> {
    match v {
        AttrValue::Null => "null"@,
        AttrValue::Bool(b) => if b {
            "true"@
        } else {
            "false"@
        },
        AttrValue::Number(n) => n@,
        AttrValue::Str(s) => json_string_of(s@),
        AttrValue::Json(j) => j@,
        AttrValue::Variable(p) => json_string_of("${"@ + p@ + "}"@),
    }
}

/// The text of an attribute value in an HTML attribute (before escaping).
pub open spec fn attr_text(v: AttrValue) -> Seq<char> {
    match v {
        AttrValue::Null => Seq::<char>::empty(),
        AttrValue::Bool(b) => if b {
            "true"@
        } else {
            "false"@
        },
        AttrValue::Number(n) => n@,
        AttrValue::Str(s) => s@,
        AttrValue::Json(j) => j@,
        AttrValue::Variable(p) => "${"@ + p@ + "}"@,
    }
}

/// `entries` (keys in increasing order, each with the index of its value) with key
/// `k` set to the value at index `i`: replaced where `k` is there, else inserted in
/// its place.
pub open spec fn insert_entry(entries: Seq<(Seq<char>, nat)>, k: Seq<char>, i: nat) -> Seq<(Seq<char>, nat)>
    decreases entries.len(),
{
    if entries.len() == 0 {
        seq![(k, i)]
    } else if entries[0].0 == k {
        seq![(k, i)] + entries.drop_first()
    } else if lex_lt(k, entries[0].0) {
        seq![(k, i)] + entries
    } else {
        seq![entries[0]] + insert_entry(entries.drop_first(), k, i)
    }
}

/// The attributes as a map: each key once, in increasing order, with the index of its
/// last value.
pub open spec fn attr_entries(attrs: Seq<(String, AttrValue)>) -> Seq<(Seq<char>, nat)>
    decreases attrs.len(),
{
    if attrs.len() == 0 {
        Seq::empty()
    } else {
        insert_entry(attr_entries(attrs.drop_last()), attrs.last().0@, (attrs.len() - 1) as nat)
    }
}

/// The members of a JSON object for `entries`, separated by commas.
pub open spec fn members_json(attrs: Seq<(String, AttrValue)>, entries: Seq<(Seq<char>, nat)>) -> Seq<char>
    decreases entries.len(),
{
    if entries.len() == 0 {
        Seq::<char>::empty()
    } else {
        let e = entries.last();
        let member = json_string_of(e.0) + ":"@ + attr_json(attrs[e.1 as int].1);
        if entries.len() == 1 {
            member
        } else {
            members_json(attrs, entries.drop_last()) + ","@ + member
        }
    }
}

/// The attributes as a JSON object: each key once, with its last value, keys in
/// increasing order as `serde_json` writes a map.
pub open spec fn attrs_json(attrs: Seq<(String, AttrValue)>) -> Seq<char> {
    "{"@ + members_json(attrs, attr_entries(attrs)) + "}"@
}

proof fn lemma_insert_entry_indices(es: Seq<(Seq<char>, nat)>, k: Seq<char>, i: nat, bound: nat)
    requires
        forall|m: int| 0 <= m < es.len() ==> #[trigger] es[m].1 < bound,
        i < bound,
    ensures
        forall|m: int| 0 <= m < insert_entry(es, k, i).len() ==> #[trigger] insert_entry(es, k, i)[m].1 < bound,
    decreases es.len(),
{
    if es.len() > 0 && es[0].0 != k && !lex_lt(k, es[0].0) {
        let rest = es.drop_first();
        assert forall|m: int| 0 <= m < rest.len() implies #[trigger] rest[m].1 < bound by {
            assert(rest[m] == es[m + 1]);
        }
        lemma_insert_entry_indices(rest, k, i, bound);
        let r = insert_entry(es, k, i);
        assert forall|m: int| 0 <= m < r.len() implies #[trigger] r[m].1 < bound by {
            if m > 0 {
                assert(r[m] == insert_entry(rest, k, i)[m - 1]);
            }
        }
    } else if es.len() > 0 {
        let r = insert_entry(es, k, i);
        assert forall|m: int| 0 <= m < r.len() implies #[trigger] r[m].1 < bound by {
            if m > 0 {
                if es[0].0 == k {
                    assert(r[m] == es[m]);
                } else {
                    assert(r[m] == es[m - 1]);
                }
            }
        }
    }
}

fn insert_entry_exec(entries: &mut Vec<(Vec<char>, usize)>, k: Vec<char>, i: usize)
    ensures
        entry_views(final(entries)@) == insert_entry(entry_views(old(entries)@), k@, i as nat),
{
    let ghost es = entry_views(entries@);
    let mut j: usize = 0;
    assert(es.skip(0) =~= es);
    while j < entries.len()
        invariant
            j <= entries@.len(),
            es == entry_views(entries@),
            es == entry_views(old(entries)@),
            insert_entry(es, k@, i as nat) == es.take(j as int) + insert_entry(es.skip(j as int), k@, i as nat),
        decreases entries@.len() - j,
    {
        let ghost rest = es.skip(j as int);
        assert(rest[0] == es[j as int]);
        assert(es[j as int] == (entries@[j as int].0@, entries@[j as int].1 as nat));
        if chars_eq(entries[j].0.as_slice(), k.as_slice()) {
            let ghost kv = k@;
            entries.set(j, (k, i));
            proof {
                assert(rest[0].0 == kv);
                assert(insert_entry(rest, kv, i as nat) == seq![(kv, i as nat)] + rest.drop_first());
                assert(rest.drop_first() =~= es.skip(j + 1));
                assert(entry_views(entries@) =~= es.take(j as int) + (seq![(kv, i as nat)] + rest.drop_first()));
            }
            return;
        }
        if chars_lt(k.as_slice(), entries[j].0.as_slice()) {
            let ghost kv = k@;
            entries.insert(j, (k, i));
            proof {
                assert(rest[0].0 != kv);
                assert(insert_entry(rest, kv, i as nat) == seq![(kv, i as nat)] + rest);
                assert(entry_views(entries@) =~= es.take(j as int) + (seq![(kv, i as nat)] + rest));
            }
            return;
        }
        proof {
            assert(rest.drop_first() =~= es.skip(j + 1));
            assert(es.take(j as int) + (seq![rest[0]] + insert_entry(rest.drop_first(), k@, i as nat))
                =~= es.take(j + 1) + insert_entry(es.skip(j + 1), k@, i as nat));
        }
        j = j + 1;
    }
    let ghost kv = k@;
    entries.push((k, i));
    proof {
        assert(es.skip(j as int) =~= Seq::<(Seq<char>, nat)>::empty());
        assert(es.take(j as int) =~= es);
        assert(entry_views(entries@) =~= es + seq![(kv, i as nat)]);
    }
}

/// The views of map entries.
pub open spec fn entry_views(v: Seq<(Vec<char>, usize)>) -> Seq<(Seq<char>, nat)> {
    v.map_values(|e: (Vec<char>, usize)| (e.0@, e.1 as nat))
}

pub fn push_attr_json(out: &mut String, v: &AttrValue)
    ensures
        final(out)@ == old(out)@ + attr_json(*v),
{
    match v {
        AttrValue::Null => out.append("null"),
        AttrValue::Bool(b) => out.append(if *b { "true" } else { "false" }),
        AttrValue::Number(n) => out.append(n.as_str()),
        AttrValue::Str(s) => out.append(json_string(s.as_str()).as_str()),
        AttrValue::Json(j) => out.append(j.as_str()),
        AttrValue::Variable(p) => {
            let mut t = String::from_str("${");
            t.append(p.as_str());
            t.append("}");
            out.append(json_string(t.as_str()).as_str());
        },
    }
}

/// Appends the text of an attribute value (before escaping) to `out`.
pub fn push_attr_text(out: &mut String, v: &AttrValue)
    ensures
        final(out)@ == old(out)@ + attr_text(*v),
{
    match v {
        AttrValue::Null => {},
        AttrValue::Bool(b) => out.append(if *b { "true" } else { "false" }),
        AttrValue::Number(n) => out.append(n.as_str()),
        AttrValue::Str(s) => out.append(s.as_str()),
        AttrValue::Json(j) => out.append(j.as_str()),
        AttrValue::Variable(p) => {
            out.append("${");
            out.append(p.as_str());
            out.append("}");
        },
    }
}

/// The attributes as a JSON object: each key once, with its last value, keys in
/// increasing order.
pub fn attrs_json_exec(attrs: &Vec<(String, AttrValue)>) -> (r: String)
    ensures
        r@ == attrs_json(attrs@),
{
    let mut entries: Vec<(Vec<char>, usize)> = Vec::new();
    let mut i: usize = 0;
    assert(entry_views(entries@) =~= attr_entries(attrs@.take(0)));
    while i < attrs.len()
        invariant
            i <= attrs@.len(),
            entry_views(entries@) == attr_entries(attrs@.take(i as int)),
            forall|m: int| 0 <= m < entries@.len() ==> #[trigger] entry_views(entries@)[m].1 < i,
        decreases attrs@.len() - i,
    {
        proof {
            let t = attrs@.take(i + 1);
            assert(t.drop_last() =~= attrs@.take(i as int));
            assert(t.last() == attrs@[i as int]);
        }
        let ghost before = entry_views(entries@);
        let key = chars_of(attrs[i].0.as_str());
        let ghost kv = key@;
        insert_entry_exec(&mut entries, key, i);
        proof {
            lemma_insert_entry_indices(before, kv, i as nat, (i + 1) as nat);
        }
        i = i + 1;
    }
    assert(attrs@.take(i as int) =~= attrs@);
    let mut out = String::from_str("{");
    let ghost start = out@;
    let mut j: usize = 0;
    while j < entries.len()
        invariant
            j <= entries@.len(),
            entry_views(entries@) == attr_entries(attrs@),
            forall|m: int| 0 <= m < entries@.len() ==> #[trigger] entry_views(entries@)[m].1 < attrs@.len(),
            out@ == start + members_json(attrs@, entry_views(entries@).take(j as int)),
        decreases entries@.len() - j,
    {
        if j > 0 {
            out.append(",");
        }
        let idx = entries[j].1;
        assert(entry_views(entries@)[j as int].1 == idx);
        out.append(json_string(string_from_chars(entries[j].0.as_slice()).as_str()).as_str());
        out.append(":");
        push_attr_json(&mut out, &attrs[idx].1);
        j = j + 1;
        proof {
            let t = entry_views(entries@).take(j as int);
            assert(t.drop_last() =~= entry_views(entries@).take(j - 1));
            if j == 1 {
                assert(members_json(attrs@, entry_views(entries@).take(0)) =~= Seq::<char>::empty());
            }
        }
    }
    assert(entry_views(entries@).take(j as int) =~= entry_views(entries@));
    out.append("}");
    out
}

/// The index of the value of attribute `key`: its last occurrence.
pub fn attr_index_exec(attrs: &Vec<(String, AttrValue)>, key: &str) -> (r: Option<usize>)
    ensures
        r matches Some(i) ==> i < attrs@.len() && attr_index(attrs@, key@) == Some(i as nat),
        r is None ==> attr_index(attrs@, key@) is None,
{
    let mut n: usize = attrs.len();
    assert(attrs@.take(n as int) =~= attrs@);
    while n > 0
        invariant
            n <= attrs@.len(),
            attr_index(attrs@, key@) == attr_index(attrs@.take(n as int), key@),
        decreases n,
    {
        let t = Ghost(attrs@.take(n as int));
        assert(t@.last() == attrs@[n - 1]);
        if crate::text::str_eq(attrs[n - 1].0.as_str(), key) {
            return Some(n - 1);
        }
        assert(t@.drop_last() =~= attrs@.take(n - 1));
        n = n - 1;
    }
    None
}

/// Attribute `key` as a string, if it is one.
pub fn prop_str_exec(attrs: &Vec<(String, AttrValue)>, key: &str) -> (r: Option<String>)
    ensures
        match prop_str(attrs@, key@) {
            Some(s) => r matches Some(t) && t@ == s,
            None => r is None,
        },
{
    match attr_index_exec(attrs, key) {
        Some(i) => match &attrs[i].1 {
            AttrValue::Str(s) => Some(s.clone()),
            AttrValue::Variable(p) => {
                let mut t = String::from_str("${");
                t.append(p.as_str());
                t.append("}");
                Some(t)
            },
            _ => None,
        },
        None => None,
    }
}

/// Attribute `key` as a boolean, if it is one.
pub fn prop_bool_exec(attrs: &Vec<(String, AttrValue)>, key: &str) -> (r: Option<bool>)
    ensures
        r == prop_bool(attrs@, key@),
{
    match attr_index_exec(attrs, key) {
        Some(i) => match &attrs[i].1 {
            AttrValue::Bool(b) => Some(*b),
            _ => None,
        },
        None => None,
    }
}

} // verus!
