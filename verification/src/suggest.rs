//! Levenshtein distance-based suggestion for unknown config keys.
//!
//! Returns the best matching candidate if its distance is within the threshold.
//! The distance is the Levenshtein distance over characters: the least number of
//! single-character insertions, deletions and substitutions; it is used to suggest the
//! intended name of a misspelled configuration key.
use vstd::prelude::*;

use crate::text::chars_of;

verus! {

broadcast use vstd::string::group_string_axioms;

/// The character at position `i` of `s`, if there is one.
pub open spec fn char_at(s: Seq<char>, i: int) -> Option<char> {
    if 0 <= i < s.len() {
        Some(s[i])
    } else {
        None
    }
}

pub open spec fn min_nat(x: nat, y: nat) -> nat {
    if x <= y {
        x
    } else {
        y
    }
}

/// The edit-distance table entry for the first `i` positions of `a` and the first `j`
/// positions of `b`.
pub open spec fn lev(a: Seq<char>, b: Seq<char>, i: nat, j: nat) -> nat
    decreases i + j,
{
    if i == 0 {
        j
    } else if j == 0 {
        i
    } else {
        let cost: nat = if char_at(a, i - 1) == char_at(b, j - 1) {
            0
        } else {
            1
        };
        min_nat(
            min_nat(lev(a, b, (i - 1) as nat, j) + 1, lev(a, b, i, (j - 1) as nat) + 1),
            lev(a, b, (i - 1) as nat, (j - 1) as nat) + cost,
        )
    }
}

/// The Levenshtein distance between two strings: the table entry at their lengths in
/// characters.
pub open spec fn str_distance(a: Seq<char>, b: Seq<char>) -> nat {
    lev(a, b, a.len(), b.len())
}

proof fn lemma_lev_bound(a: Seq<char>, b: Seq<char>, i: nat, j: nat)
    ensures
        lev(a, b, i, j) <= if i >= j {
            i
        } else {
            j
        },
    decreases i + j,
{
    if i > 0 && j > 0 {
        lemma_lev_bound(a, b, (i - 1) as nat, (j - 1) as nat);
    }
}

/// A string is at distance zero from itself.
pub proof fn lemma_lev_self(a: Seq<char>, i: nat)
    ensures
        lev(a, a, i, i) == 0,
    decreases i,
{
    if i > 0 {
        lemma_lev_self(a, (i - 1) as nat);
    }
}

/// The distance does not depend on the order of its arguments.
pub proof fn lemma_lev_symmetric(a: Seq<char>, b: Seq<char>, i: nat, j: nat)
    ensures
        lev(a, b, i, j) == lev(b, a, j, i),
    decreases i + j,
{
    if i > 0 && j > 0 {
        lemma_lev_symmetric(a, b, (i - 1) as nat, j);
        lemma_lev_symmetric(a, b, i, (j - 1) as nat);
        lemma_lev_symmetric(a, b, (i - 1) as nat, (j - 1) as nat);
    }
}

/// The distance between a string and itself is zero, and the distance is symmetric.
pub proof fn lemma_str_distance_laws(a: Seq<char>, b: Seq<char>)
    ensures
        str_distance(a, a) == 0,
        str_distance(a, b) == str_distance(b, a),
{
    lemma_lev_self(a, a.len());
    lemma_lev_symmetric(a, b, a.len(), b.len());
}

fn char_at_exec(v: &Vec<char>, i: usize) -> (r: Option<char>)
    ensures
        r == char_at(v@, i as int),
{
    if i < v.len() {
        Some(v[i])
    } else {
        None
    }
}

/// Calculate the Levenshtein distance between two strings.
pub fn levenshtein_distance(s1: &str, s2: &str) -> (r: usize)
    requires
        s1@.len() < usize::MAX,
        s2@.len() < usize::MAX,
    ensures
        r == str_distance(s1@, s2@),
{
    let c1 = chars_of(s1);
    let c2 = chars_of(s2);
    let len1 = c1.len();
    let len2 = c2.len();
    let ghost a = s1@;
    let ghost b = s2@;
    // Row 0 of the table.
    let mut prev: Vec<usize> = Vec::new();
    let mut j: usize = 0;
    while j <= len2
        invariant
            j <= len2 + 1,
            len2 < usize::MAX,
            prev@.len() == j,
            forall|k: int| 0 <= k < j ==> prev@[k] == lev(a, b, 0, k as nat),
        decreases len2 + 1 - j,
    {
        prev.push(j);
        j = j + 1;
    }
    let mut i: usize = 1;
    while i <= len1
        invariant
            1 <= i <= len1 + 1,
            len1 < usize::MAX,
            len2 < usize::MAX,
            c1@ == a,
            c2@ == b,
            prev@.len() == len2 + 1,
            forall|k: int| 0 <= k <= len2 ==> prev@[k] == lev(a, b, (i - 1) as nat, k as nat),
        decreases len1 + 1 - i,
    {
        let mut cur: Vec<usize> = Vec::new();
        cur.push(i);
        let mut j: usize = 1;
        while j <= len2
            invariant
                1 <= i <= len1,
                1 <= j <= len2 + 1,
                len1 < usize::MAX,
                len2 < usize::MAX,
                c1@ == a,
                c2@ == b,
                prev@.len() == len2 + 1,
                forall|k: int| 0 <= k <= len2 ==> prev@[k] == lev(a, b, (i - 1) as nat, k as nat),
                cur@.len() == j,
                forall|k: int| 0 <= k < j ==> cur@[k] == lev(a, b, i as nat, k as nat),
            decreases len2 + 1 - j,
        {
            proof {
                lemma_lev_bound(a, b, (i - 1) as nat, j as nat);
                lemma_lev_bound(a, b, i as nat, (j - 1) as nat);
                lemma_lev_bound(a, b, (i - 1) as nat, (j - 1) as nat);
            }
            let cost: usize = if char_at_exec(&c1, i - 1) == char_at_exec(&c2, j - 1) {
                0
            } else {
                1
            };
            let del = prev[j] + 1;
            let ins = cur[j - 1] + 1;
            let sub = prev[j - 1] + cost;
            let m1 = if del <= ins {
                del
            } else {
                ins
            };
            let m = if m1 <= sub {
                m1
            } else {
                sub
            };
            cur.push(m);
            j = j + 1;
        }
        prev = cur;
        i = i + 1;
    }
    prev[len2]
}

/// The best suggestion among `candidates`: the first one with the smallest distance,
/// among those at distance at most 2, with its distance.
pub open spec fn best_suggestion(input: Seq<char>, candidates: Seq<Seq<char>>) -> Option<
    (Seq<char>, nat),
>
    decreases candidates.len(),
{
    if candidates.len() == 0 {
        None
    } else {
        let prev = best_suggestion(input, candidates.drop_last());
        let c = candidates.last();
        let d = str_distance(input, c);
        if d <= 2 {
            match prev {
                Some((s, bd)) => if d < bd {
                    Some((c, d))
                } else {
                    prev
                },
                None => Some((c, d)),
            }
        } else {
            prev
        }
    }
}

/// A suggestion exists exactly when some candidate is within distance 2; it is one of
/// the candidates, and no candidate is closer to the input.
pub proof fn lemma_best_suggestion(input: Seq<char>, candidates: Seq<Seq<char>>)
    ensures
        best_suggestion(input, candidates) is Some <==> exists|k: int|
            0 <= k < candidates.len() && str_distance(input, #[trigger] candidates[k]) <= 2,
        best_suggestion(input, candidates) matches Some((s, d)) ==> {
            &&& candidates.contains(s)
            &&& d == str_distance(input, s)
            &&& d <= 2
            &&& forall|k: int|
                0 <= k < candidates.len() ==> d <= str_distance(input, #[trigger] candidates[k])
        },
    decreases candidates.len(),
{
    if candidates.len() > 0 {
        let init = candidates.drop_last();
        lemma_best_suggestion(input, init);
        let last = candidates.len() - 1;
        let c = candidates.last();
        let dc = str_distance(input, c);
        assert(candidates[last] == c);
        assert forall|k: int| 0 <= k < init.len() implies #[trigger] candidates[k] == init[k] by {}
        let prev = best_suggestion(input, init);
        if prev is Some {
            let k = choose|k: int| 0 <= k < init.len() && str_distance(input, #[trigger] init[k]) <= 2;
            assert(candidates[k] == init[k]);
        }
        if dc <= 2 {
            assert(str_distance(input, candidates[last]) <= 2);
        } else if prev is None {
            assert forall|k: int| 0 <= k < candidates.len() implies !(str_distance(input, #[trigger] candidates[k]) <= 2) by {
                if k < init.len() {
                    assert(candidates[k] == init[k]);
                }
            }
        }
        match prev {
            Some((ps, pd)) => {
                let k0 = choose|k: int| 0 <= k < init.len() && init[k] == ps;
                assert(candidates[k0] == ps);
                assert forall|k: int| 0 <= k < candidates.len() implies (if dc <= 2 && dc < pd { dc } else { pd }) <= str_distance(input, #[trigger] candidates[k]) by {
                    if k < init.len() {
                        assert(candidates[k] == init[k]);
                    }
                }
            },
            None => {
                if dc <= 2 {
                    assert forall|k: int| 0 <= k < candidates.len() implies dc <= str_distance(input, #[trigger] candidates[k]) by {
                        if k < init.len() {
                            assert(candidates[k] == init[k]);
                            assert(!(str_distance(input, init[k]) <= 2));
                        }
                    }
                }
            },
        }
    }
}

/// Find the best suggestion from candidates within a reasonable distance (at most 2):
/// the first candidate with the smallest distance to `input`.
pub fn find_suggestion(input: &str, candidates: &[&str]) -> (r: Option<String>)
    requires
        input@.len() < usize::MAX,
        forall|k: int| 0 <= k < candidates@.len() ==> (#[trigger] candidates@[k])@.len() < usize::MAX,
    ensures
        match best_suggestion(input@, candidates@.map_values(|c: &str| c@)) {
            Some((s, _)) => r matches Some(t) && t@ == s,
            None => r is None,
        },
{
    let ghost cands = candidates@.map_values(|c: &str| c@);
    let mut best: Option<(String, usize)> = None;
    let mut i: usize = 0;
    while i < candidates.len()
        invariant
            i <= candidates@.len(),
            cands == candidates@.map_values(|c: &str| c@),
            input@.len() < usize::MAX,
            forall|k: int| 0 <= k < candidates@.len() ==> (#[trigger] candidates@[k])@.len() < usize::MAX,
            match best_suggestion(input@, cands.take(i as int)) {
                Some((s, d)) => best matches Some(p) && p.0@ == s && p.1 == d,
                None => best is None,
            },
        decreases candidates@.len() - i,
    {
        let candidate = candidates[i];
        assert(cands[i as int] == candidate@);
        assert(cands.take(i + 1).drop_last() =~= cands.take(i as int));
        assert(cands.take(i + 1).last() == candidate@);
        let dist = levenshtein_distance(input, candidate);
        if dist <= 2 {
            let replace = match &best {
                Some(p) => dist < p.1,
                None => true,
            };
            if replace {
                best = Some((String::from_str(candidate), dist));
            }
        }
        i = i + 1;
    }
    assert(cands.take(i as int) =~= cands);
    match best {
        Some(p) => Some(p.0),
        None => None,
    }
}

} // verus!
