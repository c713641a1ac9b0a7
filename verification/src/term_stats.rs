//! Term statistics of tokenized documents, the counts from which the lexical
//! search index scores its postings.
use vstd::prelude::*;

use crate::text::str_eq;

verus! {

broadcast use vstd::string::group_string_axioms;

/// One distinct term of a document: how often it occurs and at which token positions.
#[derive(Debug, Clone)]
pub struct TermStats {
    pub term: String,
    pub count: u32,
    pub positions: Vec<u32>,
}

/// The positions, in increasing order, at which `t` occurs among `tokens`.
pub open spec fn positions_of(tokens: Seq<Seq<char>>, t: Seq<char>) -> Seq<u32>
    decreases tokens.len(),
{
    if tokens.len() == 0 {
        Seq::<u32>::empty()
    } else {
        positions_of(tokens.drop_last(), t) + if tokens.last() == t {
            seq![(tokens.len() - 1) as u32]
        } else {
            Seq::<u32>::empty()
        }
    }
}

/// The distinct terms among `tokens`, in the order of their first occurrence.
pub open spec fn distinct_terms(tokens: Seq<Seq<char>>) -> Seq<Seq<char>>
    decreases tokens.len(),
{
    if tokens.len() == 0 {
        Seq::<Seq<char>>::empty()
    } else {
        let p = distinct_terms(tokens.drop_last());
        if p.contains(tokens.last()) {
            p
        } else {
            p.push(tokens.last())
        }
    }
}

/// The tokens as character sequences.
pub open spec fn token_views(tokens: Seq<String>) -> Seq<Seq<char>> {
    tokens.map_values(|t: String| t@)
}

/// `r` holds the statistics of each distinct term of `tokens`, in the order of first
/// occurrence.
pub open spec fn term_stats_of(r: Seq<TermStats>, tokens: Seq<Seq<char>>) -> bool {
    &&& r.len() == distinct_terms(tokens).len()
    &&& forall|k: int|
        0 <= k < r.len() ==> {
            &&& (#[trigger] r[k]).term@ == distinct_terms(tokens)[k]
            &&& r[k].positions@ == positions_of(tokens, r[k].term@)
            &&& r[k].count == positions_of(tokens, r[k].term@).len()
        }
}

proof fn lemma_absent_no_positions(tokens: Seq<Seq<char>>, t: Seq<char>)
    requires
        !distinct_terms(tokens).contains(t),
    ensures
        positions_of(tokens, t) == Seq::<u32>::empty(),
    decreases tokens.len(),
{
    if tokens.len() > 0 {
        let p = distinct_terms(tokens.drop_last());
        if p.contains(tokens.last()) {
            lemma_absent_no_positions(tokens.drop_last(), t);
        } else {
            assert(distinct_terms(tokens) == p.push(tokens.last()));
            if tokens.last() == t {
                assert(p.push(tokens.last())[p.len() as int] == t);
            }
            assert forall|i: int| 0 <= i < p.len() implies p[i] != t by {
                assert(p.push(tokens.last())[i] == p[i]);
            }
            lemma_absent_no_positions(tokens.drop_last(), t);
        }
    }
}

proof fn lemma_distinct_terms_unique(tokens: Seq<Seq<char>>)
    ensures
        forall|a: int, b: int|
            0 <= a < b < distinct_terms(tokens).len() ==> distinct_terms(tokens)[a] != distinct_terms(tokens)[b],
    decreases tokens.len(),
{
    if tokens.len() > 0 {
        lemma_distinct_terms_unique(tokens.drop_last());
        let p = distinct_terms(tokens.drop_last());
        if !p.contains(tokens.last()) {
            let q = p.push(tokens.last());
            assert forall|a: int, b: int| 0 <= a < b < q.len() implies q[a] != q[b] by {
                if b == p.len() {
                    assert(q[a] == p[a]);
                } else {
                    assert(q[a] == p[a] && q[b] == p[b]);
                }
            }
        }
    }
}

proof fn lemma_positions_bounded(tokens: Seq<Seq<char>>, t: Seq<char>)
    requires
        tokens.len() <= u32::MAX,
    ensures
        positions_of(tokens, t).len() <= tokens.len(),
    decreases tokens.len(),
{
    if tokens.len() > 0 {
        lemma_positions_bounded(tokens.drop_last(), t);
    }
}

/// Counts the terms of a tokenized document: each distinct token, in the order of its
/// first occurrence, with the number of its occurrences and their positions.
pub fn count_terms(tokens: &Vec<String>) -> (r: Vec<TermStats>)
    requires
        tokens@.len() <= u32::MAX,
    ensures
        term_stats_of(r@, token_views(tokens@)),
{
    let ghost all = token_views(tokens@);
    let mut stats: Vec<TermStats> = Vec::new();
    let mut i: usize = 0;
    while i < tokens.len()
        invariant
            i <= tokens@.len(),
            tokens@.len() <= u32::MAX,
            all == token_views(tokens@),
            term_stats_of(stats@, all.take(i as int)),
        decreases tokens@.len() - i,
    {
        let ghost prev = all.take(i as int);
        let ghost next = all.take(i + 1);
        let ghost tok = all[i as int];
        proof {
            assert(next.drop_last() =~= prev);
            assert(next.last() == tok);
            assert(tok == tokens@[i as int]@);
        }
        let token = &tokens[i];
        let mut j: usize = 0;
        let mut found = false;
        while j < stats.len()
            invariant_except_break
                j <= stats@.len(),
                !found,
                forall|a: int| 0 <= a < j ==> stats@[a].term@ != tok,
            invariant
                j <= stats@.len(),
                token@ == tok,
            ensures
                found ==> j < stats@.len() && stats@[j as int].term@ == tok,
                !found ==> forall|a: int| 0 <= a < stats@.len() ==> stats@[a].term@ != tok,
            decreases stats@.len() - j,
        {
            if str_eq(stats[j].term.as_str(), token.as_str()) {
                found = true;
                break;
            }
            j = j + 1;
        }
        let ghost ds = distinct_terms(prev);
        let ghost old_stats = stats@;
        if found {
            proof {
                assert(ds[j as int] == tok);
                assert(ds.contains(tok));
                assert(distinct_terms(next) == ds);
                lemma_positions_bounded(prev, tok);
                lemma_distinct_terms_unique(prev);
            }
            let mut e = stats.remove(j);
            e.positions.push(i as u32);
            e.count = e.count + 1;
            stats.insert(j, e);
            proof {
                assert forall|k: int| 0 <= k < stats@.len() implies {
                    &&& (#[trigger] stats@[k]).term@ == distinct_terms(next)[k]
                    &&& stats@[k].positions@ == positions_of(next, stats@[k].term@)
                    &&& stats@[k].count == positions_of(next, stats@[k].term@).len()
                } by {
                    if k != j {
                        assert(stats@[k] == old_stats[k]);
                        assert(old_stats[k].term@ == ds[k]);
                        assert(old_stats[j as int].term@ == ds[j as int]);
                        assert(ds[k] != ds[j as int]);
                    }
                }
            }
        } else {
            proof {
                assert(forall|a: int| 0 <= a < old_stats.len() ==> (#[trigger] old_stats[a]).term@ != tok);
                assert forall|a: int| 0 <= a < ds.len() implies ds[a] != tok by {
                    assert(old_stats[a].term@ == ds[a]);
                }
                assert(!ds.contains(tok));
                assert(distinct_terms(next) == ds.push(tok));
                lemma_absent_no_positions(prev, tok);
            }
            let mut positions: Vec<u32> = Vec::new();
            positions.push(i as u32);
            stats.push(TermStats { term: token.clone(), count: 1, positions });
            proof {
                assert forall|k: int| 0 <= k < stats@.len() implies {
                    &&& (#[trigger] stats@[k]).term@ == distinct_terms(next)[k]
                    &&& stats@[k].positions@ == positions_of(next, stats@[k].term@)
                    &&& stats@[k].count == positions_of(next, stats@[k].term@).len()
                } by {
                    if k < old_stats.len() {
                        assert(stats@[k] == old_stats[k]);
                        assert(old_stats[k].term@ != tok);
                    } else {
                        assert(positions_of(next, tok) =~= seq![i as u32]);
                    }
                }
            }
        }
        i = i + 1;
    }
    proof {
        assert(all.take(i as int) =~= all);
    }
    stats
}

/// The tokenized documents as sequences of character sequences.
pub open spec fn corpus_views(docs: Seq<Vec<String>>) -> Seq<Seq<Seq<char>>> {
    docs.map_values(|d: Vec<String>| token_views(d@))
}

/// In how many of `docs` the term `t` occurs.
pub open spec fn doc_frequency(docs: Seq<Seq<Seq<char>>>, t: Seq<char>) -> nat
    decreases docs.len(),
{
    if docs.len() == 0 {
        0
    } else {
        doc_frequency(docs.drop_last(), t) + if docs.last().contains(t) {
            1nat
        } else {
            0nat
        }
    }
}

/// The distinct terms of each document, one document after the other.
pub open spec fn corpus_terms(docs: Seq<Seq<Seq<char>>>) -> Seq<Seq<char>>
    decreases docs.len(),
{
    if docs.len() == 0 {
        Seq::<Seq<char>>::empty()
    } else {
        corpus_terms(docs.drop_last()) + distinct_terms(docs.last())
    }
}

proof fn lemma_distinct_terms_contains(tokens: Seq<Seq<char>>, t: Seq<char>)
    ensures
        distinct_terms(tokens).contains(t) <==> tokens.contains(t),
    decreases tokens.len(),
{
    if tokens.len() > 0 {
        lemma_distinct_terms_contains(tokens.drop_last(), t);
        let p = distinct_terms(tokens.drop_last());
        let q = p.push(tokens.last());
        if tokens.contains(t) {
            let i = choose|i: int| 0 <= i < tokens.len() && tokens[i] == t;
            if i < tokens.len() - 1 {
                assert(tokens.drop_last()[i] == t);
            }
            if !p.contains(tokens.last()) {
                if p.contains(t) {
                    let k = choose|k: int| 0 <= k < p.len() && p[k] == t;
                    assert(q[k] == t);
                } else {
                    assert(q[p.len() as int] == t);
                }
            }
        }
        if distinct_terms(tokens).contains(t) {
            if p.contains(t) {
                let k = choose|k: int| 0 <= k < tokens.drop_last().len() && tokens.drop_last()[k] == t;
                assert(tokens[k] == t);
            } else {
                let k = choose|k: int| 0 <= k < q.len() && q[k] == t;
                if k < p.len() {
                    assert(q[k] == p[k]);
                }
                assert(tokens[tokens.len() - 1] == t);
            }
        }
    }
}

proof fn lemma_doc_frequency_bounded(docs: Seq<Seq<Seq<char>>>, t: Seq<char>)
    ensures
        doc_frequency(docs, t) <= docs.len(),
    decreases docs.len(),
{
    if docs.len() > 0 {
        lemma_doc_frequency_bounded(docs.drop_last(), t);
    }
}

/// `r` holds, for each term of `docs` in the order of its first occurrence, the number
/// of documents in which it occurs.
pub open spec fn doc_frequencies_of(r: Seq<(String, u32)>, docs: Seq<Seq<Seq<char>>>) -> bool {
    &&& r.len() == distinct_terms(corpus_terms(docs)).len()
    &&& forall|k: int|
        0 <= k < r.len() ==> {
            &&& (#[trigger] r[k]).0@ == distinct_terms(corpus_terms(docs))[k]
            &&& r[k].1 == doc_frequency(docs, r[k].0@)
        }
}

/// Counts, for each term of the tokenized documents, in how many of them it occurs.
pub fn document_frequencies(docs: &Vec<Vec<String>>) -> (r: Vec<(String, u32)>)
    requires
        docs@.len() <= u32::MAX,
        forall|d: int| 0 <= d < docs@.len() ==> (#[trigger] docs@[d])@.len() <= u32::MAX,
    ensures
        doc_frequencies_of(r@, corpus_views(docs@)),
{
    let ghost all = corpus_views(docs@);
    let mut freqs: Vec<(String, u32)> = Vec::new();
    let mut i: usize = 0;
    while i < docs.len()
        invariant
            i <= docs@.len(),
            docs@.len() <= u32::MAX,
            forall|d: int| 0 <= d < docs@.len() ==> (#[trigger] docs@[d])@.len() <= u32::MAX,
            all == corpus_views(docs@),
            doc_frequencies_of(freqs@, all.take(i as int)),
        decreases docs@.len() - i,
    {
        let ghost done = all.take(i as int);
        let ghost doc = all[i as int];
        let ghost ds = distinct_terms(doc);
        let stats = count_terms(&docs[i]);
        proof {
            assert(doc == token_views(docs@[i as int]@));
            lemma_distinct_terms_unique(doc);
        }
        let mut j: usize = 0;
        while j < stats.len()
            invariant
                j <= stats@.len(),
                i < docs@.len(),
                docs@.len() <= u32::MAX,
                term_stats_of(stats@, doc),
                ds == distinct_terms(doc),
                forall|a: int, b: int| 0 <= a < b < ds.len() ==> ds[a] != ds[b],
                freqs@.len() == distinct_terms(corpus_terms(done) + ds.take(j as int)).len(),
                forall|k: int|
                    0 <= k < freqs@.len() ==> {
                        &&& (#[trigger] freqs@[k]).0@ == distinct_terms(corpus_terms(done) + ds.take(j as int))[k]
                        &&& freqs@[k].1 == doc_frequency(done, freqs@[k].0@) + if ds.take(j as int).contains(
                            freqs@[k].0@,
                        ) {
                            1nat
                        } else {
                            0nat
                        }
                    },
                done.len() == i,
            decreases stats@.len() - j,
        {
            let ghost seen = corpus_terms(done) + ds.take(j as int);
            let ghost next = corpus_terms(done) + ds.take(j + 1);
            let ghost u = ds[j as int];
            let ghost old_freqs = freqs@;
            proof {
                assert(next.drop_last() =~= seen);
                assert(next.last() == u);
                assert(stats@[j as int].term@ == u);
                assert(ds.take(j + 1) =~= ds.take(j as int).push(u));
                assert(!ds.take(j as int).contains(u)) by {
                    if ds.take(j as int).contains(u) {
                        let a = choose|a: int| 0 <= a < j && ds.take(j as int)[a] == u;
                        assert(ds[a] == ds[j as int]);
                    }
                }
            }
            let term = &stats[j].term;
            let mut k: usize = 0;
            let mut found = false;
            while k < freqs.len()
                invariant_except_break
                    k <= freqs@.len(),
                    !found,
                    forall|a: int| 0 <= a < k ==> freqs@[a].0@ != u,
                invariant
                    k <= freqs@.len(),
                    term@ == u,
                ensures
                    found ==> k < freqs@.len() && freqs@[k as int].0@ == u,
                    !found ==> forall|a: int| 0 <= a < freqs@.len() ==> freqs@[a].0@ != u,
                decreases freqs@.len() - k,
            {
                if str_eq(freqs[k].0.as_str(), term.as_str()) {
                    found = true;
                    break;
                }
                k = k + 1;
            }
            let ghost dseen = distinct_terms(seen);
            if found {
                proof {
                    assert(dseen[k as int] == u);
                    assert(dseen.contains(u));
                    assert(distinct_terms(next) == dseen);
                    lemma_doc_frequency_bounded(done, u);
                    lemma_distinct_terms_unique(seen);
                }
                let (t, c) = freqs.remove(k);
                freqs.insert(k, (t, c + 1));
                proof {
                    assert forall|m: int| 0 <= m < freqs@.len() implies {
                        &&& (#[trigger] freqs@[m]).0@ == distinct_terms(next)[m]
                        &&& freqs@[m].1 == doc_frequency(done, freqs@[m].0@) + if ds.take(j + 1).contains(
                            freqs@[m].0@,
                        ) {
                            1nat
                        } else {
                            0nat
                        }
                    } by {
                        if m != k {
                            assert(freqs@[m] == old_freqs[m]);
                            assert(old_freqs[m].0@ == dseen[m]);
                            assert(dseen[m] != dseen[k as int]);
                            lemma_push_contains(ds.take(j as int), u, freqs@[m].0@);
                        } else {
                            lemma_push_contains(ds.take(j as int), u, u);
                        }
                    }
                }
            } else {
                proof {
                    assert(forall|a: int| 0 <= a < old_freqs.len() ==> (#[trigger] old_freqs[a]).0@ != u);
                    assert forall|a: int| 0 <= a < dseen.len() implies dseen[a] != u by {
                        assert(old_freqs[a].0@ == dseen[a]);
                    }
                    assert(!dseen.contains(u));
                    assert(distinct_terms(next) == dseen.push(u));
                    lemma_distinct_terms_contains(seen, u);
                    lemma_distinct_terms_contains(corpus_terms(done), u);
                    assert(!corpus_terms(done).contains(u)) by {
                        if corpus_terms(done).contains(u) {
                            let a = choose|a: int| 0 <= a < corpus_terms(done).len() && corpus_terms(done)[a] == u;
                            assert(seen[a] == u);
                        }
                    }
                    lemma_absent_frequency(done, u);
                }
                freqs.push((term.clone(), 1));
                proof {
                    assert forall|m: int| 0 <= m < freqs@.len() implies {
                        &&& (#[trigger] freqs@[m]).0@ == distinct_terms(next)[m]
                        &&& freqs@[m].1 == doc_frequency(done, freqs@[m].0@) + if ds.take(j + 1).contains(
                            freqs@[m].0@,
                        ) {
                            1nat
                        } else {
                            0nat
                        }
                    } by {
                        if m < old_freqs.len() {
                            assert(freqs@[m] == old_freqs[m]);
                            assert(old_freqs[m].0@ != u);
                            lemma_push_contains(ds.take(j as int), u, freqs@[m].0@);
                        } else {
                            lemma_push_contains(ds.take(j as int), u, u);
                        }
                    }
                }
            }
            j = j + 1;
        }
        proof {
            let after = all.take(i + 1);
            assert(after.drop_last() =~= done);
            assert(after.last() == doc);
            assert(ds.take(j as int) =~= ds);
            assert(corpus_terms(after) == corpus_terms(done) + ds);
            assert forall|m: int| 0 <= m < freqs@.len() implies doc_frequency(after, (#[trigger] freqs@[m]).0@)
                == doc_frequency(done, freqs@[m].0@) + if ds.contains(freqs@[m].0@) {
                1nat
            } else {
                0nat
            } by {
                lemma_distinct_terms_contains(doc, freqs@[m].0@);
            }
        }
        i = i + 1;
    }
    proof {
        assert(all.take(i as int) =~= all);
    }
    freqs
}

proof fn lemma_push_contains(s: Seq<Seq<char>>, u: Seq<char>, x: Seq<char>)
    ensures
        s.push(u).contains(x) <==> (s.contains(x) || x == u),
{
    let q = s.push(u);
    if q.contains(x) {
        let a = choose|a: int| 0 <= a < q.len() && #[trigger] q[a] == x;
        if a < s.len() {
            assert(s[a] == x);
        }
    }
    if s.contains(x) {
        let a = choose|a: int| 0 <= a < s.len() && #[trigger] s[a] == x;
        assert(q[a] == x);
    }
    if x == u {
        assert(q[s.len() as int] == u);
    }
}

proof fn lemma_absent_frequency(docs: Seq<Seq<Seq<char>>>, t: Seq<char>)
    requires
        !corpus_terms(docs).contains(t),
    ensures
        doc_frequency(docs, t) == 0,
    decreases docs.len(),
{
    if docs.len() > 0 {
        let c = corpus_terms(docs.drop_last());
        let d = distinct_terms(docs.last());
        assert(!c.contains(t)) by {
            if c.contains(t) {
                let a = choose|a: int| 0 <= a < c.len() && c[a] == t;
                assert((c + d)[a] == t);
            }
        }
        assert(!d.contains(t)) by {
            if d.contains(t) {
                let a = choose|a: int| 0 <= a < d.len() && d[a] == t;
                assert((c + d)[c.len() + a] == t);
            }
        }
        lemma_distinct_terms_contains(docs.last(), t);
        lemma_absent_frequency(docs.drop_last(), t);
    }
}

} // verus!
