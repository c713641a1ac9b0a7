//! How a text is laid out from pieces: a head, one piece per element of a list in
//! the list's order, then a tail. The laws of the generated pages and files are
//! stated with it.
use vstd::prelude::*;

use crate::text::concat_map;

verus! {

/// The total length of the pieces `f(x)` for the elements `x` of `s`.
pub open spec fn pieces_len<T>(s: Seq<T>, f: spec_fn(T) -> Seq<char>) -> nat
    decreases s.len(),
{
    if s.len() == 0 {
        0
    } else {
        pieces_len(s.drop_last(), f) + f(s.last()).len()
    }
}

/// Whether `r` holds `piece` at position `at`.
pub open spec fn holds_at(r: Seq<char>, at: int, piece: Seq<char>) -> bool {
    0 <= at && at + piece.len() <= r.len() && r.subrange(at, at + piece.len()) == piece
}

/// Whether `r` contains `piece` somewhere.
pub open spec fn contains_text(r: Seq<char>, piece: Seq<char>) -> bool {
    exists|at: int| holds_at(r, at, piece)
}

/// Whether `r` begins with `head`, followed by the pieces `f(s[0])`, ..., `f(s[n-1])`
/// one after the other in that order, followed by `tail`: the piece of `s[k]` starts
/// right after the head and the pieces of `s[0..k]`.
pub open spec fn starts_with_pieces<T>(
    r: Seq<char>,
    head: Seq<char>,
    s: Seq<T>,
    f: spec_fn(T) -> Seq<char>,
    tail: Seq<char>,
) -> bool {
    &&& holds_at(r, 0, head)
    &&& forall|k: int|
        #![trigger s[k]]
        0 <= k < s.len() ==> holds_at(r, (head.len() + pieces_len(s.take(k), f)) as int, f(s[k]))
    &&& holds_at(r, (head.len() + pieces_len(s, f)) as int, tail)
}

/// Whether `r` is exactly `head`, the pieces of `s` in order, and `tail`: nothing
/// else, nothing left out.
pub open spec fn laid_out<T>(
    r: Seq<char>,
    head: Seq<char>,
    s: Seq<T>,
    f: spec_fn(T) -> Seq<char>,
    tail: Seq<char>,
) -> bool {
    &&& starts_with_pieces(r, head, s, f, tail)
    &&& r.len() == head.len() + pieces_len(s, f) + tail.len()
}

pub proof fn lemma_concat_map_len<T>(s: Seq<T>, f: spec_fn(T) -> Seq<char>)
    ensures
        concat_map(s, f).len() == pieces_len(s, f),
    decreases s.len(),
{
    if s.len() > 0 {
        lemma_concat_map_len(s.drop_last(), f);
    }
}

pub proof fn lemma_concat_map_prefix<T>(s: Seq<T>, f: spec_fn(T) -> Seq<char>, j: int)
    requires
        0 <= j <= s.len(),
    ensures
        concat_map(s.take(j), f).len() <= concat_map(s, f).len(),
        concat_map(s, f).subrange(0, concat_map(s.take(j), f).len() as int) == concat_map(s.take(j), f),
    decreases s.len(),
{
    if j == s.len() {
        assert(s.take(j) =~= s);
        assert(concat_map(s, f).subrange(0, concat_map(s, f).len() as int) =~= concat_map(s, f));
    } else {
        let d = s.drop_last();
        assert(d.take(j) =~= s.take(j));
        lemma_concat_map_prefix(d, f, j);
        let c = concat_map(d, f);
        let p = concat_map(s.take(j), f);
        assert((c + f(s.last())).subrange(0, p.len() as int) =~= c.subrange(0, p.len() as int));
    }
}

pub proof fn lemma_concat_map_append<T>(a: Seq<T>, b: Seq<T>, f: spec_fn(T) -> Seq<char>)
    ensures
        concat_map(a + b, f) == concat_map(a, f) + concat_map(b, f),
    decreases b.len(),
{
    if b.len() == 0 {
        assert(a + b =~= a);
        assert(concat_map(a, f) + concat_map(b, f) =~= concat_map(a, f));
    } else {
        assert((a + b).drop_last() =~= a + b.drop_last());
        assert((a + b).last() == b.last());
        lemma_concat_map_append(a, b.drop_last(), f);
        assert(concat_map(a + b, f) =~= concat_map(a, f) + concat_map(b, f));
    }
}

/// `head`, the pieces of `s` joined in order, and `tail`, followed by anything, begin
/// with the pieces of `s` in order.
pub proof fn lemma_starts_with_pieces<T>(
    head: Seq<char>,
    s: Seq<T>,
    f: spec_fn(T) -> Seq<char>,
    tail: Seq<char>,
    rest: Seq<char>,
)
    ensures
        starts_with_pieces(head + concat_map(s, f) + tail + rest, head, s, f, tail),
{
    let c = concat_map(s, f);
    let r = head + c + tail + rest;
    lemma_concat_map_len(s, f);
    assert(r.subrange(0, head.len() as int) =~= head);
    assert(r.subrange((head.len() + c.len()) as int, (head.len() + c.len() + tail.len()) as int) =~= tail);
    assert forall|k: int|
        #![trigger s[k]]
        0 <= k < s.len() implies holds_at(r, (head.len() + pieces_len(s.take(k), f)) as int, f(s[k])) by {
        lemma_concat_map_prefix(s, f, k + 1);
        crate::text::lemma_concat_map_step(s, f, k);
        lemma_concat_map_len(s.take(k), f);
        let pk = concat_map(s.take(k), f);
        let pk1 = concat_map(s.take(k + 1), f);
        let at = (head.len() + pk.len()) as int;
        assert(c.subrange(0, pk1.len() as int) == pk1);
        assert(pk1 == pk + f(s[k]));
        assert(r.subrange(at, at + f(s[k]).len()) =~= c.subrange(pk.len() as int, pk1.len() as int));
        assert(c.subrange(pk.len() as int, pk1.len() as int) =~= pk1.subrange(pk.len() as int, pk1.len() as int));
        assert(pk1.subrange(pk.len() as int, pk1.len() as int) =~= f(s[k]));
    }
}

/// `head`, the pieces of `s` joined in order, and `tail` are laid out from them.
pub proof fn lemma_laid_out<T>(head: Seq<char>, s: Seq<T>, f: spec_fn(T) -> Seq<char>, tail: Seq<char>)
    ensures
        laid_out(head + concat_map(s, f) + tail, head, s, f, tail),
{
    lemma_starts_with_pieces(head, s, f, tail, Seq::<char>::empty());
    assert(head + concat_map(s, f) + tail + Seq::<char>::empty() =~= head + concat_map(s, f) + tail);
    lemma_concat_map_len(s, f);
}

/// A text that holds `outer` at `at`, where `outer` holds `inner` at `i`, holds
/// `inner` at `at + i`.
pub proof fn lemma_holds_within(r: Seq<char>, at: int, outer: Seq<char>, i: int, inner: Seq<char>)
    requires
        holds_at(r, at, outer),
        holds_at(outer, i, inner),
    ensures
        holds_at(r, at + i, inner),
{
    assert(r.subrange(at + i, at + i + inner.len()) =~= outer.subrange(i, i + inner.len()));
}

} // verus!
