//! Escaping, heading anchors and code-highlighting helpers.
use vstd::prelude::*;

use crate::text::{
    append_chars, chars_eq, chars_of, dedup, is_ascii_alnum, join, join_chars, lemma_dedup,
    push_char, split_chars,
    split_on, sub_chars, trim, trim_chars, views,
};

verus! {

broadcast use vstd::string::group_string_axioms;

/// What `c` becomes when escaped; `'` is escaped only when `single_quotes` holds.
pub open spec fn escape_char(c: char, single_quotes: bool) -> Seq<char> {
    if c == '&' {
        "&amp;"@
    } else if c == '<' {
        "&lt;"@
    } else if c == '>' {
        "&gt;"@
    } else if c == '"' {
        "&quot;"@
    } else if c == '\'' && single_quotes {
        "&apos;"@
    } else {
        seq![c]
    }
}

/// `s` with every character escaped by `escape_char`.
pub open spec fn escape_seq(s: Seq<char>, single_quotes: bool) -> Seq<char>
    decreases s.len(),
{
    if s.len() == 0 {
        Seq::<char>::empty()
    } else {
        escape_seq(s.drop_last(), single_quotes) + escape_char(s.last(), single_quotes)
    }
}

/// `s` with each `'` written `&apos;`.
pub open spec fn escape_apos(s: Seq<char>) -> Seq<char>
    decreases s.len(),
{
    if s.len() == 0 {
        Seq::<char>::empty()
    } else {
        escape_apos(s.drop_last()) + (if s.last() == '\'' {
            "&apos;"@
        } else {
            seq![s.last()]
        })
    }
}

proof fn lemma_escape_apos_append(a: Seq<char>, b: Seq<char>)
    ensures
        escape_apos(a + b) == escape_apos(a) + escape_apos(b),
    decreases b.len(),
{
    if b.len() == 0 {
        assert(a + b =~= a);
        assert(escape_apos(a) + escape_apos(b) =~= escape_apos(a));
    } else {
        lemma_escape_apos_append(a, b.drop_last());
        assert((a + b).drop_last() =~= a + b.drop_last());
        assert((a + b).last() == b.last());
    }
}

proof fn lemma_escape_apos_plain(s: Seq<char>)
    requires
        forall|i: int| 0 <= i < s.len() ==> s[i] != '\'',
    ensures
        escape_apos(s) == s,
    decreases s.len(),
{
    if s.len() > 0 {
        lemma_escape_apos_plain(s.drop_last());
        assert(s.drop_last().push(s.last()) =~= s);
    }
}

/// Escaping for XML is escaping for HTML with each `'` then written `&apos;`.
pub proof fn lemma_xml_escape_is_html_escape_with_apos(s: Seq<char>)
    ensures
        escape_seq(s, true) == escape_apos(escape_seq(s, false)),
    decreases s.len(),
{
    if s.len() > 0 {
        lemma_xml_escape_is_html_escape_with_apos(s.drop_last());
        let c = s.last();
        lemma_escape_apos_append(escape_seq(s.drop_last(), false), escape_char(c, false));
        if c == '\'' {
            let one = seq![c];
            assert(one.drop_last() =~= Seq::<char>::empty());
            assert(one.last() == '\'');
            assert(escape_apos(one.drop_last()) == Seq::<char>::empty());
            assert(escape_apos(one) == Seq::<char>::empty() + "&apos;"@);
            assert(Seq::<char>::empty() + "&apos;"@ =~= "&apos;"@);
        } else {
            reveal_strlit("&amp;");
            reveal_strlit("&lt;");
            reveal_strlit("&gt;");
            reveal_strlit("&quot;");
            lemma_escape_apos_plain(escape_char(c, false));
        }
    }
}

/// Whether `s` holds none of the characters that end or open markup: `<`, `>`, `"`,
/// and also `'` when `single_quotes` holds.
pub open spec fn markup_free(s: Seq<char>, single_quotes: bool) -> bool {
    forall|i: int|
        0 <= i < s.len() ==> s[i] != '<' && s[i] != '>' && s[i] != '"' && (single_quotes
            ==> s[i] != '\'')
}

proof fn lemma_escape_char_markup_free(c: char, single_quotes: bool)
    ensures
        markup_free(escape_char(c, single_quotes), single_quotes),
{
    reveal_strlit("&amp;");
    reveal_strlit("&lt;");
    reveal_strlit("&gt;");
    reveal_strlit("&quot;");
    reveal_strlit("&apos;");
}

/// Escaped text never holds a raw `<`, `>` or `"` (nor `'` for XML), so it cannot open
/// or close a tag or an attribute value.
pub proof fn lemma_escape_markup_free(s: Seq<char>, single_quotes: bool)
    ensures
        markup_free(escape_seq(s, single_quotes), single_quotes),
    decreases s.len(),
{
    if s.len() > 0 {
        lemma_escape_markup_free(s.drop_last(), single_quotes);
        lemma_escape_char_markup_free(s.last(), single_quotes);
        let a = escape_seq(s.drop_last(), single_quotes);
        let b = escape_char(s.last(), single_quotes);
        assert forall|i: int| 0 <= i < (a + b).len() implies (a + b)[i] != '<' && (a
            + b)[i] != '>' && (a + b)[i] != '"' && (single_quotes ==> (a + b)[i] != '\'') by {
            if i < a.len() {
                assert((a + b)[i] == a[i]);
            } else {
                assert((a + b)[i] == b[i - a.len()]);
            }
        }
    }
}

/// Text without special characters is left as it is by escaping.
pub proof fn lemma_escape_plain_identity(s: Seq<char>, single_quotes: bool)
    requires
        forall|i: int|
            0 <= i < s.len() ==> s[i] != '&' && s[i] != '<' && s[i] != '>' && s[i] != '"' && (
            single_quotes ==> s[i] != '\''),
    ensures
        escape_seq(s, single_quotes) == s,
    decreases s.len(),
{
    if s.len() > 0 {
        lemma_escape_plain_identity(s.drop_last(), single_quotes);
        assert(s.drop_last().push(s.last()) =~= s);
    }
}

fn push_escaped_char(out: &mut String, c: char, single_quotes: bool)
    ensures
        final(out)@ == old(out)@ + escape_char(c, single_quotes),
{
    if c == '&' {
        out.append("&amp;");
    } else if c == '<' {
        out.append("&lt;");
    } else if c == '>' {
        out.append("&gt;");
    } else if c == '"' {
        out.append("&quot;");
    } else if c == '\'' && single_quotes {
        out.append("&apos;");
    } else {
        push_char(out, c);
    }
}

/// Appends the escaped form of `text` to `out`.
pub fn push_escaped_seq(out: &mut String, text: &str, single_quotes: bool)
    ensures
        final(out)@ == old(out)@ + escape_seq(text@, single_quotes),
{
    let chars = chars_of(text);
    let ghost start = out@;
    let mut i: usize = 0;
    while i < chars.len()
        invariant
            chars@ == text@,
            i <= chars@.len(),
            out@ == start + escape_seq(chars@.take(i as int), single_quotes),
        decreases chars@.len() - i,
    {
        push_escaped_char(out, chars[i], single_quotes);
        i = i + 1;
        assert(chars@.take(i as int).drop_last() =~= chars@.take(i - 1));
    }
    assert(chars@.take(i as int) =~= chars@);
}

fn escape_text(text: &str, escape_single_quotes: bool) -> (r: String)
    ensures
        r@ == escape_seq(text@, escape_single_quotes),
{
    let mut out = String::new();
    push_escaped_seq(&mut out, text, escape_single_quotes);
    out
}

/// Escape text for safe HTML insertion.
pub fn html_escape(text: &str) -> (r: String)
    ensures
        r@ == escape_seq(text@, false),
        markup_free(r@, false),
{
    proof {
        lemma_escape_markup_free(text@, false);
    }
    escape_text(text, false)
}

/// Escape text for safe XML insertion (includes single quote escaping).
pub fn xml_escape(text: &str) -> (r: String)
    ensures
        r@ == escape_seq(text@, true),
        r@ == escape_apos(escape_seq(text@, false)),
        markup_free(r@, true),
{
    proof {
        lemma_xml_escape_is_html_escape_with_apos(text@);
        lemma_escape_markup_free(text@, true);
    }
    escape_text(text, true)
}

/// Appends the HTML-escaped `text` to `out`.
pub fn push_escaped(text: &str, out: &mut String)
    ensures
        final(out)@ == old(out)@ + escape_seq(text@, false),
{
    push_escaped_seq(out, text, false);
}

// ---------------------------------------------------------------------------
// Heading anchors
// ---------------------------------------------------------------------------

/// What `str::to_lowercase` returns for a string with the characters `s`.
pub uninterp spec fn lowercase_of(s: Seq<char>) -> Seq<char>;

/// The ASCII lowercase of `c` (other characters are unchanged).
pub open spec fn ascii_lower(c: char) -> char {
    if 'A' <= c && c <= 'Z' {
        ((c as u32) + 32) as char
    } else {
        c
    }
}

/// Whether every character of `s` is ASCII.
pub open spec fn all_ascii(s: Seq<char>) -> bool {
    forall|i: int| 0 <= i < s.len() ==> (s[i] as u32) < 128
}

/// Whether `c` is an ASCII uppercase letter.
pub open spec fn is_ascii_upper(c: char) -> bool {
    'A' <= c && c <= 'Z'
}

/// Calls `str::to_lowercase`. Its result is named `lowercase_of`; the facts stated of
/// it are two of the Unicode lowercase mapping: ASCII text has `A`..`Z` mapped to
/// `a`..`z` and every other ASCII character left as it is, and no lowercase mapping
/// gives `A`..`Z` (those letters map to `a`..`z`, and characters without a mapping
/// are kept, which `A`..`Z` are not).
#[verifier::external_body]
pub(crate) fn str_to_lowercase(s: &str) -> (r: String)
    ensures
        r@ == lowercase_of(s@),
        all_ascii(s@) ==> r@ == s@.map_values(|c: char| ascii_lower(c)),
        forall|i: int| 0 <= i < r@.len() ==> !is_ascii_upper(#[trigger] r@[i]),
{
    s.to_lowercase()
}

/// The state after scanning `s` for an anchor: the anchor built so far, and whether a
/// separator was seen since its last letter or digit.
pub open spec fn anchor_state(s: Seq<char>) -> (Seq<char>, bool)
    decreases s.len(),
{
    if s.len() == 0 {
        (Seq::<char>::empty(), false)
    } else {
        let (o, pending) = anchor_state(s.drop_last());
        let c = s.last();
        if is_ascii_alnum(c) {
            (if pending && o.len() > 0 {
                o.push('-')
            } else {
                o
            }.push(c), false)
        } else {
            (o, true)
        }
    }
}

/// The anchor of already-lowercased text: its maximal runs of ASCII letters and digits,
/// joined by single hyphens.
pub open spec fn anchor_of(s: Seq<char>) -> Seq<char> {
    anchor_state(s).0
}

/// Whether `s` is in anchor form: ASCII letters, digits and hyphens only, with no
/// hyphen at either end and no two hyphens in a row.
pub open spec fn is_anchor_form(s: Seq<char>) -> bool {
    &&& forall|i: int| 0 <= i < s.len() ==> is_ascii_alnum(#[trigger] s[i]) || s[i] == '-'
    &&& s.len() > 0 ==> is_ascii_alnum(s[0]) && is_ascii_alnum(s.last())
    &&& forall|i: int| 0 <= i < s.len() - 1 ==> !(#[trigger] s[i] == '-' && s[i + 1] == '-')
}

proof fn lemma_anchor_state_form(s: Seq<char>)
    ensures
        is_anchor_form(anchor_state(s).0),
    decreases s.len(),
{
    if s.len() > 0 {
        lemma_anchor_state_form(s.drop_last());
        let (o, pending) = anchor_state(s.drop_last());
        let c = s.last();
        if is_ascii_alnum(c) {
            let m = if pending && o.len() > 0 {
                o.push('-')
            } else {
                o
            };
            let r = m.push(c);
            assert forall|i: int| 0 <= i < r.len() implies is_ascii_alnum(#[trigger] r[i])
                || r[i] == '-' by {
                if i < o.len() {
                    assert(r[i] == o[i]);
                }
            }
            assert forall|i: int| 0 <= i < r.len() - 1 implies !(#[trigger] r[i] == '-' && r[i
                + 1] == '-') by {
                if i + 1 < o.len() {
                    assert(r[i] == o[i] && r[i + 1] == o[i + 1]);
                } else if i + 1 == o.len() {
                    assert(r[i] == o.last());
                }
            }
            if o.len() > 0 {
                assert(r[0] == o[0]);
            }
        }
    }
}

/// Whether `t` can begin a string in anchor form: letters, digits and hyphens, no
/// hyphen first and no two hyphens in a row (a trailing hyphen is allowed).
pub open spec fn is_anchor_prefix(t: Seq<char>) -> bool {
    &&& forall|i: int| 0 <= i < t.len() ==> is_ascii_alnum(#[trigger] t[i]) || t[i] == '-'
    &&& t.len() > 0 ==> is_ascii_alnum(t[0])
    &&& forall|i: int| 0 <= i < t.len() - 1 ==> !(#[trigger] t[i] == '-' && t[i + 1] == '-')
}

proof fn lemma_anchor_state_of_prefix(t: Seq<char>)
    requires
        is_anchor_prefix(t),
    ensures
        anchor_state(t) == (if t.len() > 0 && t.last() == '-' {
            (t.drop_last(), true)
        } else {
            (t, false)
        }),
    decreases t.len(),
{
    if t.len() > 0 {
        let u = t.drop_last();
        assert(is_anchor_prefix(u)) by {
            assert forall|i: int| 0 <= i < u.len() - 1 implies !(#[trigger] u[i] == '-' && u[i
                + 1] == '-') by {
                assert(u[i] == t[i] && u[i + 1] == t[i + 1]);
            }
            assert forall|i: int| 0 <= i < u.len() implies is_ascii_alnum(#[trigger] u[i])
                || u[i] == '-' by {
                assert(u[i] == t[i]);
            }
            if u.len() > 0 {
                assert(u[0] == t[0]);
            }
        }
        lemma_anchor_state_of_prefix(u);
        let c = t.last();
        if is_ascii_alnum(c) {
            if u.len() > 0 && u.last() == '-' {
                assert(u.len() >= 2) by {
                    assert(u[0] == t[0]);
                }
                assert(u.drop_last().push('-').push(c) =~= t);
            } else {
                assert(u.push(c) =~= t);
            }
        } else {
            assert(c == '-');
            if u.len() == 0 {
                assert(t[0] == t.last());
            }
            assert(u.last() != '-') by {
                assert(t[t.len() - 2] == u.last());
            }
        }
    }
}

/// Building an anchor from text that is already an anchor gives it back unchanged.
pub proof fn lemma_anchor_idempotent(s: Seq<char>)
    ensures
        anchor_of(anchor_of(s)) == anchor_of(s),
{
    lemma_anchor_state_form(s);
    let o = anchor_of(s);
    lemma_anchor_state_of_prefix(o);
}

/// Every anchor is in anchor form.
pub proof fn lemma_anchor_form(s: Seq<char>)
    ensures
        is_anchor_form(anchor_of(s)),
{
    lemma_anchor_state_form(s);
}

/// The characters of an anchor: hyphens, and letters and digits of the text.
proof fn lemma_anchor_chars(s: Seq<char>)
    ensures
        forall|i: int|
            0 <= i < anchor_of(s).len() ==> #[trigger] anchor_of(s)[i] == '-' || (is_ascii_alnum(
                anchor_of(s)[i],
            ) && s.contains(anchor_of(s)[i])),
    decreases s.len(),
{
    if s.len() > 0 {
        let u = s.drop_last();
        lemma_anchor_chars(u);
        let (o, pending) = anchor_state(u);
        let c = s.last();
        if is_ascii_alnum(c) {
            let m = if pending && o.len() > 0 {
                o.push('-')
            } else {
                o
            };
            let r = m.push(c);
            assert forall|i: int| 0 <= i < r.len() implies #[trigger] r[i] == '-' || (
            is_ascii_alnum(r[i]) && s.contains(r[i])) by {
                if i < o.len() {
                    assert(r[i] == o[i]);
                    assert(anchor_of(u)[i] == o[i]);
                    if o[i] != '-' {
                        assert(u.contains(o[i]));
                        let k = choose|k: int| 0 <= k < u.len() && u[k] == o[i];
                        assert(s[k] == u[k]);
                    }
                } else if i == r.len() - 1 {
                    assert(s[s.len() - 1] == c);
                }
            }
        } else {
            assert forall|i: int| 0 <= i < o.len() implies #[trigger] o[i] == '-' || (
            is_ascii_alnum(o[i]) && s.contains(o[i])) by {
                assert(anchor_of(u)[i] == o[i]);
                if o[i] != '-' {
                    assert(u.contains(o[i]));
                    let k = choose|k: int| 0 <= k < u.len() && u[k] == o[i];
                    assert(s[k] == u[k]);
                }
            }
        }
    }
}

/// An anchor is empty exactly when the text has no ASCII letter or digit.
proof fn lemma_anchor_empty(s: Seq<char>)
    ensures
        anchor_of(s).len() == 0 <==> forall|i: int| 0 <= i < s.len() ==> !is_ascii_alnum(#[trigger] s[i]),
    decreases s.len(),
{
    if s.len() > 0 {
        let u = s.drop_last();
        lemma_anchor_empty(u);
        if is_ascii_alnum(s.last()) {
            assert(is_ascii_alnum(s[s.len() - 1]));
        } else {
            if forall|i: int| 0 <= i < s.len() ==> !is_ascii_alnum(#[trigger] s[i]) {
                assert forall|i: int| 0 <= i < u.len() implies !is_ascii_alnum(#[trigger] u[i]) by {
                    assert(u[i] == s[i]);
                }
            }
            if forall|i: int| 0 <= i < u.len() ==> !is_ascii_alnum(#[trigger] u[i]) {
                assert forall|i: int| 0 <= i < s.len() implies !is_ascii_alnum(#[trigger] s[i]) by {
                    if i < u.len() {
                        assert(u[i] == s[i]);
                    }
                }
            }
        }
    }
}

/// The anchors of heading text: lowercase ASCII letters, digits and single inner
/// hyphens; empty exactly when the lowercased text has no ASCII letter or digit; and
/// fixed points: built again from an anchor, as ASCII text, it gives itself back.
pub proof fn lemma_lower_anchor(lower: Seq<char>)
    requires
        forall|i: int| 0 <= i < lower.len() ==> !is_ascii_upper(#[trigger] lower[i]),
    ensures
        is_anchor_form(anchor_of(lower)),
        forall|i: int|
            0 <= i < anchor_of(lower).len() ==> #[trigger] is_lower_anchor_char(anchor_of(lower)[i]),
        anchor_of(lower).len() == 0 <==> forall|i: int|
            0 <= i < lower.len() ==> !is_ascii_alnum(#[trigger] lower[i]),
        all_ascii(anchor_of(lower)),
        anchor_of(anchor_of(lower).map_values(|c: char| ascii_lower(c))) == anchor_of(lower),
{
    let r = anchor_of(lower);
    lemma_anchor_state_form(lower);
    lemma_anchor_chars(lower);
    lemma_anchor_empty(lower);
    lemma_anchor_idempotent(lower);
    assert forall|i: int| 0 <= i < r.len() implies #[trigger] is_lower_anchor_char(r[i]) by {
        if r[i] != '-' {
            let k = choose|k: int| 0 <= k < lower.len() && lower[k] == r[i];
            assert(!is_ascii_upper(lower[k]));
        }
    }
    assert forall|i: int| 0 <= i < r.len() implies (#[trigger] r[i] as u32) < 128 by {
        assert(is_lower_anchor_char(r[i]));
    }
    assert(r.map_values(|c: char| ascii_lower(c)) =~= r) by {
        assert forall|i: int| 0 <= i < r.len() implies ascii_lower(#[trigger] r[i]) == r[i] by {
            assert(is_lower_anchor_char(r[i]));
        }
    }
}

/// Whether `c` may stand in a heading anchor: `a`..`z`, `0`..`9` or `-`.
pub open spec fn is_lower_anchor_char(c: char) -> bool {
    ('a' <= c && c <= 'z') || ('0' <= c && c <= '9') || c == '-'
}

/// The anchor of `lower`, text that was already lowercased: ASCII letters and digits
/// are kept, every other character separates words, and the non-empty words are
/// joined with `-`.
pub fn anchor_from_lowercase(lower: &str) -> (r: String)
    ensures
        r@ == anchor_of(lower@),
        is_anchor_form(r@),
{
    proof {
        lemma_anchor_state_form(lower@);
    }
    let chars = chars_of(lower);
    let mut out = String::new();
    let mut pending = false;
    let mut nonempty = false;
    let mut i: usize = 0;
    while i < chars.len()
        invariant
            chars@ == lower@,
            i <= chars@.len(),
            (out@, pending) == anchor_state(chars@.take(i as int)),
            nonempty == (out@.len() > 0),
        decreases chars@.len() - i,
    {
        let c = chars[i];
        assert(chars@.take(i + 1).drop_last() =~= chars@.take(i as int));
        if ('a' <= c && c <= 'z') || ('A' <= c && c <= 'Z') || ('0' <= c && c <= '9') {
            if pending && nonempty {
                push_char(&mut out, '-');
            }
            push_char(&mut out, c);
            nonempty = true;
            pending = false;
        } else {
            pending = true;
        }
        i = i + 1;
    }
    assert(chars@.take(i as int) =~= chars@);
    out
}

/// Generate a URL-safe anchor from heading text: the text is lowercased
/// (`str::to_lowercase`) and its runs of ASCII letters and digits are joined by `-`.
///
/// The anchor holds only `a`..`z`, `0`..`9` and single inner hyphens, is empty exactly
/// when the lowercased text has no ASCII letter or digit, and is its own anchor: as
/// ASCII text it is lowercased to itself (last clause), so a second call gives it back.
pub fn heading_anchor(text: &str) -> (r: String)
    ensures
        r@ == anchor_of(lowercase_of(text@)),
        all_ascii(text@) ==> r@ == anchor_of(text@.map_values(|c: char| ascii_lower(c))),
        is_anchor_form(r@),
        forall|i: int| 0 <= i < r@.len() ==> #[trigger] is_lower_anchor_char(r@[i]),
        r@.len() == 0 <==> forall|i: int|
            0 <= i < lowercase_of(text@).len() ==> !is_ascii_alnum(#[trigger] lowercase_of(text@)[i]),
        all_ascii(r@),
        anchor_of(r@.map_values(|c: char| ascii_lower(c))) == r@,
{
    let lower = str_to_lowercase(text);
    proof {
        lemma_lower_anchor(lower@);
    }
    anchor_from_lowercase(lower.as_str())
}

// ---------------------------------------------------------------------------
// Highlighted line ranges
// ---------------------------------------------------------------------------

pub open spec fn is_digit(c: char) -> bool {
    '0' <= c && c <= '9'
}

pub open spec fn digit_value(c: char) -> nat {
    ((c as u32) - ('0' as u32)) as nat
}

/// The value of a sequence of decimal digits.
pub open spec fn digits_value(d: Seq<char>) -> nat
    decreases d.len(),
{
    if d.len() == 0 {
        0
    } else {
        digits_value(d.drop_last()) * 10 + digit_value(d.last())
    }
}

/// The digits of an unsigned number: `s` without one leading `+`.
pub open spec fn unsigned_digits(s: Seq<char>) -> Seq<char> {
    if s.len() > 0 && s[0] == '+' {
        s.drop_first()
    } else {
        s
    }
}

/// What `usize::from_str` gives for `s`: an optional `+` followed by one or more
/// decimal digits whose value fits in a `usize`.
pub open spec fn parse_usize(s: Seq<char>) -> Option<usize> {
    let d = unsigned_digits(s);
    if d.len() > 0 && (forall|i: int| 0 <= i < d.len() ==> is_digit(#[trigger] d[i]))
        && digits_value(d) <= usize::MAX {
        Some(digits_value(d) as usize)
    } else {
        None
    }
}

proof fn lemma_digits_value_monotone(d: Seq<char>, j: int)
    requires
        0 <= j <= d.len(),
    ensures
        digits_value(d.take(j)) <= digits_value(d),
    decreases d.len() - j,
{
    if j < d.len() {
        lemma_digits_value_monotone(d.drop_last(), j);
        assert(d.drop_last().take(j) =~= d.take(j));
        let v = digits_value(d.drop_last());
        assert(v * 10 >= v) by (nonlinear_arith);
    } else {
        assert(d.take(j) =~= d);
    }
}

fn parse_usize_chars(s: &[char]) -> (r: Option<usize>)
    ensures
        r == parse_usize(s@),
{
    let start: usize = if s.len() > 0 && s[0] == '+' {
        1
    } else {
        0
    };
    let ghost d = unsigned_digits(s@);
    assert(d =~= s@.subrange(start as int, s@.len() as int));
    if start == s.len() {
        return None;
    }
    let mut acc: usize = 0;
    let mut i: usize = start;
    while i < s.len()
        invariant
            start <= i <= s@.len(),
            d =~= s@.subrange(start as int, s@.len() as int),
            d == unsigned_digits(s@),
            forall|j: int| 0 <= j < i - start ==> is_digit(#[trigger] d[j]),
            acc == digits_value(d.take(i - start)),
        decreases s@.len() - i,
    {
        let c = s[i];
        assert(c == d[i - start]);
        if !('0' <= c && c <= '9') {
            assert(!is_digit(d[i - start]));
            return None;
        }
        let v = (c as u32 - '0' as u32) as usize;
        assert(d.take(i - start + 1).drop_last() =~= d.take(i - start));
        assert(d.take(i - start + 1).last() == c);
        assert(digits_value(d.take(i - start + 1)) == acc * 10 + v);
        let m = acc.checked_mul(10);
        if m.is_none() {
            proof {
                lemma_digits_value_monotone(d, i - start + 1);
            }
            return None;
        }
        let nxt = m.unwrap().checked_add(v);
        if nxt.is_none() {
            proof {
                lemma_digits_value_monotone(d, i - start + 1);
            }
            return None;
        }
        acc = nxt.unwrap();
        i = i + 1;
    }
    assert(d.take(i - start) =~= d);
    Some(acc)
}

/// The index of the first `c` in `s`, if any.
pub open spec fn find_char(s: Seq<char>, c: char) -> Option<int>
    decreases s.len(),
{
    if s.len() == 0 {
        None
    } else if s[0] == c {
        Some(0)
    } else {
        match find_char(s.drop_first(), c) {
            Some(k) => Some(k + 1),
            None => None,
        }
    }
}

proof fn lemma_find_char(s: Seq<char>, c: char, i: int)
    requires
        0 <= i <= s.len(),
        forall|j: int| 0 <= j < i ==> s[j] != c,
    ensures
        i < s.len() && s[i] == c ==> find_char(s, c) == Some(i),
        i == s.len() ==> find_char(s, c) is None,
    decreases i,
{
    if i > 0 {
        lemma_find_char(s.drop_first(), c, i - 1);
    }
}

pub(crate) fn find_char_exec(s: &[char], c: char) -> (r: Option<usize>)
    ensures
        match find_char(s@, c) {
            Some(k) => r == Some(k as usize) && 0 <= k < s@.len(),
            None => r is None,
        },
{
    let mut i: usize = 0;
    while i < s.len()
        invariant
            i <= s@.len(),
            forall|j: int| 0 <= j < i ==> s@[j] != c,
        decreases s@.len() - i,
    {
        if s[i] == c {
            proof {
                lemma_find_char(s@, c, i as int);
            }
            return Some(i);
        }
        i = i + 1;
    }
    proof {
        lemma_find_char(s@, c, i as int);
    }
    None
}

/// The numbers `a..=b` (nothing when `a > b`).
pub open spec fn range_seq(a: usize, b: usize) -> Seq<usize> {
    if a <= b {
        Seq::new((b - a + 1) as nat, |k: int| (a + k) as usize)
    } else {
        Seq::<usize>::empty()
    }
}

/// The line numbers that one trimmed part of a range list stands for: `n`, or
/// `a-b` for `a..=b`; anything that does not parse stands for none.
pub open spec fn part_lines(part: Seq<char>) -> Seq<usize> {
    if part.len() == 0 {
        Seq::<usize>::empty()
    } else {
        match find_char(part, '-') {
            Some(k) => match (
                parse_usize(trim(part.subrange(0, k))),
                parse_usize(trim(part.subrange(k + 1, part.len() as int))),
            ) {
                (Some(a), Some(b)) => range_seq(a, b),
                _ => Seq::<usize>::empty(),
            },
            None => match parse_usize(part) {
                Some(n) => seq![n],
                None => Seq::<usize>::empty(),
            },
        }
    }
}

/// The line numbers of all comma-separated parts, in order.
pub open spec fn ranges_lines(parts: Seq<Seq<char>>) -> Seq<usize>
    decreases parts.len(),
{
    if parts.len() == 0 {
        Seq::<usize>::empty()
    } else {
        ranges_lines(parts.drop_last()) + part_lines(trim(parts.last()))
    }
}

fn push_range(out: &mut Vec<usize>, a: usize, b: usize)
    ensures
        final(out)@ == old(out)@ + range_seq(a, b),
{
    if a > b {
        assert(range_seq(a, b) =~= Seq::<usize>::empty());
        return;
    }
    let ghost start = out@;
    let mut n: usize = a;
    loop
        invariant_except_break
            a <= n <= b,
            out@ =~= start + Seq::new((n - a) as nat, |k: int| (a + k) as usize),
        ensures
            out@ =~= start + range_seq(a, b),
        decreases b - n,
    {
        out.push(n);
        if n == b {
            break;
        }
        n = n + 1;
    }
}

fn push_part_lines(out: &mut Vec<usize>, part: &[char])
    ensures
        final(out)@ == old(out)@ + part_lines(part@),
{
    if part.len() == 0 {
        assert(part_lines(part@) =~= Seq::<usize>::empty());
        return;
    }
    match find_char_exec(part, '-') {
        Some(k) => {
            let left_raw = sub_chars(part, 0, k);
            let right_raw = sub_chars(part, k + 1, part.len());
            let left = trim_chars(left_raw.as_slice());
            let right = trim_chars(right_raw.as_slice());
            let a = parse_usize_chars(left.as_slice());
            let b = parse_usize_chars(right.as_slice());
            match (a, b) {
                (Some(a), Some(b)) => push_range(out, a, b),
                _ => {
                    assert(part_lines(part@) =~= Seq::<usize>::empty());
                },
            }
        },
        None => {
            match parse_usize_chars(part) {
                Some(n) => {
                    out.push(n);
                },
                None => {
                    assert(part_lines(part@) =~= Seq::<usize>::empty());
                },
            }
        },
    }
}

/// The numbers of `v`, each once, where it first occurs.
fn dedup_numbers(v: &Vec<usize>) -> (r: Vec<usize>)
    ensures
        r@ == dedup(v@),
{
    let mut r: Vec<usize> = Vec::new();
    let mut i: usize = 0;
    while i < v.len()
        invariant
            i <= v@.len(),
            r@ == dedup(v@.take(i as int)),
        decreases v@.len() - i,
    {
        let ghost t = v@.take(i + 1);
        assert(t.drop_last() =~= v@.take(i as int));
        assert(t.last() == v@[i as int]);
        if !slice_contains(r.as_slice(), v[i]) {
            r.push(v[i]);
        }
        i = i + 1;
    }
    assert(v@.take(i as int) =~= v@);
    r
}

/// Parse a highlight range string like "1,2,3,5-10,15" into the set of line numbers it
/// lists: each comma-separated part, trimmed, is a number or a range `a-b` (itself
/// trimmed around `-`); parts that do not parse are skipped. Each number is kept once,
/// in the order in which it is first listed.
pub fn parse_highlight_ranges(s: &str) -> (r: Vec<usize>)
    ensures
        r@ == dedup(ranges_lines(split_on(s@, ','))),
        r@.no_duplicates(),
        forall|n: usize| r@.contains(n) <==> ranges_lines(split_on(s@, ',')).contains(n),
{
    let chars = chars_of(s);
    let parts = split_chars(chars.as_slice(), ',');
    let mut lines: Vec<usize> = Vec::new();
    let mut i: usize = 0;
    while i < parts.len()
        invariant
            chars@ == s@,
            parts@.len() == split_on(s@, ',').len(),
            forall|k: int| 0 <= k < parts@.len() ==> #[trigger] parts@[k]@ == split_on(s@, ',')[k],
            i <= parts@.len(),
            lines@ == ranges_lines(split_on(s@, ',').take(i as int)),
        decreases parts@.len() - i,
    {
        let part = trim_chars(parts[i].as_slice());
        push_part_lines(&mut lines, part.as_slice());
        i = i + 1;
        assert(split_on(s@, ',').take(i as int).drop_last() =~= split_on(s@, ',').take(i - 1));
    }
    assert(split_on(s@, ',').take(i as int) =~= split_on(s@, ','));
    proof {
        lemma_dedup(lines@);
    }
    dedup_numbers(&lines)
}

// ---------------------------------------------------------------------------
// Highlight comments and line wrapping
// ---------------------------------------------------------------------------

/// `p` without one trailing carriage return.
pub open spec fn strip_cr(p: Seq<char>) -> Seq<char> {
    if p.len() > 0 && p.last() == '\r' {
        p.drop_last()
    } else {
        p
    }
}

/// The lines of `s` as `str::lines` yields them: split at `\n`, a `\r` before a `\n`
/// removed, and no empty line after a final line ending.
pub open spec fn lines_of(s: Seq<char>) -> Seq<Seq<char>> {
    let pieces = split_on(s, '\n');
    let terminated = pieces.take(pieces.len() - 1).map_values(|p: Seq<char>| strip_cr(p));
    if pieces.last().len() == 0 {
        terminated
    } else {
        terminated.push(pieces.last())
    }
}

fn lines_chars(s: &[char]) -> (r: Vec<Vec<char>>)
    ensures
        views(r@) == lines_of(s@),
{
    let pieces = split_chars(s, '\n');
    proof {
        crate::text::lemma_split_on_nonempty(s@, '\n');
    }
    let ghost ps = split_on(s@, '\n');
    let n = pieces.len();
    let mut r: Vec<Vec<char>> = Vec::new();
    let mut i: usize = 0;
    while i + 1 < n
        invariant
            n == pieces@.len() == ps.len() >= 1,
            forall|k: int| 0 <= k < pieces@.len() ==> #[trigger] pieces@[k]@ == ps[k],
            i + 1 <= n,
            views(r@) =~= ps.take(i as int).map_values(|p: Seq<char>| strip_cr(p)),
        decreases n - i,
    {
        let p = &pieces[i];
        let mut q: Vec<char> = Vec::new();
        let plen = p.len();
        if plen > 0 && p[plen - 1] == '\r' {
            q = sub_chars(p.as_slice(), 0, plen - 1);
            assert(q@ =~= p@.drop_last());
        } else {
            q = sub_chars(p.as_slice(), 0, plen);
            assert(q@ =~= p@);
        }
        r.push(q);
        i = i + 1;
        assert(ps.take(i as int).map_values(|p: Seq<char>| strip_cr(p)) =~= ps.take(i - 1).map_values(
            |p: Seq<char>| strip_cr(p),
        ).push(strip_cr(ps[i - 1])));
    }
    let last = &pieces[n - 1];
    if last.len() > 0 {
        let copy = sub_chars(last.as_slice(), 0, last.len());
        assert(copy@ =~= last@);
        r.push(copy);
    }
    r
}

pub open spec fn is_next_marker(t: Seq<char>) -> bool {
    t == "// highlight-next-line"@ || t == "# highlight-next-line"@ || t
        == "<!-- highlight-next-line -->"@
}

pub open spec fn is_start_marker(t: Seq<char>) -> bool {
    t == "// highlight-start"@ || t == "# highlight-start"@ || t == "<!-- highlight-start -->"@
}

pub open spec fn is_end_marker(t: Seq<char>) -> bool {
    t == "// highlight-end"@ || t == "# highlight-end"@ || t == "<!-- highlight-end -->"@
}

fn is_one_of(t: &[char], a: &str, b: &str, c: &str) -> (r: bool)
    ensures
        r == (t@ == a@ || t@ == b@ || t@ == c@),
{
    let va = chars_of(a);
    let vb = chars_of(b);
    let vc = chars_of(c);
    chars_eq(t, va.as_slice()) || chars_eq(t, vb.as_slice()) || chars_eq(t, vc.as_slice())
}

/// Scanning code lines for highlight markers: the kept lines, the 1-based numbers (among
/// the kept lines) to highlight, whether the next kept line is to be highlighted, and
/// whether a highlighted block is open.
pub open spec fn highlight_scan(lines: Seq<Seq<char>>) -> (Seq<Seq<char>>, Seq<usize>, bool, bool)
    decreases lines.len(),
{
    if lines.len() == 0 {
        (Seq::<Seq<char>>::empty(), Seq::<usize>::empty(), false, false)
    } else {
        let (out, hl, next, block) = highlight_scan(lines.drop_last());
        let line = lines.last();
        let t = trim(line);
        if is_next_marker(t) {
            (out, hl, true, block)
        } else if is_start_marker(t) {
            (out, hl, next, true)
        } else if is_end_marker(t) {
            (out, hl, next, false)
        } else if next || block {
            (out.push(line), hl.push((out.len() + 1) as usize), false, block)
        } else {
            (out.push(line), hl, next, block)
        }
    }
}

/// Whether `hl` lists line numbers in strictly increasing order, all within `1..=count`.
pub open spec fn increasing_within(hl: Seq<usize>, count: nat) -> bool {
    &&& forall|i: int, j: int| 0 <= i < j < hl.len() ==> hl[i] < hl[j]
    &&& forall|i: int| 0 <= i < hl.len() ==> 1 <= #[trigger] hl[i] <= count
}

/// The highlighted line numbers are strictly increasing and each names a kept line.
pub proof fn lemma_highlight_scan_increasing(lines: Seq<Seq<char>>)
    requires
        lines.len() <= usize::MAX,
    ensures
        increasing_within(highlight_scan(lines).1, highlight_scan(lines).0.len()),
        highlight_scan(lines).0.len() <= lines.len(),
    decreases lines.len(),
{
    if lines.len() > 0 {
        lemma_highlight_scan_increasing(lines.drop_last());
        let (out, hl, next, block) = highlight_scan(lines.drop_last());
        let (out2, hl2, next2, block2) = highlight_scan(lines);
        if hl2.len() > hl.len() {
            assert(hl2 == hl.push((out.len() + 1) as usize));
            assert(out2.len() == out.len() + 1);
            assert forall|i: int, j: int| 0 <= i < j < hl2.len() implies hl2[i] < hl2[j] by {
                if j < hl.len() {
                    assert(hl2[i] == hl[i] && hl2[j] == hl[j]);
                } else {
                    assert(hl2[i] == hl[i]);
                }
            }
            assert forall|i: int| 0 <= i < hl2.len() implies 1 <= #[trigger] hl2[i] <= out2.len() by {
                if i < hl.len() {
                    assert(hl2[i] == hl[i]);
                }
            }
        }
    }
}

/// Process code to extract comment-based highlight markers.
/// Returns (cleaned code with markers stripped, 1-based line numbers to highlight).
pub fn process_highlight_comments(code: &str) -> (r: (String, Vec<usize>))
    ensures
        r.0@ == join(highlight_scan(lines_of(code@)).0, seq!['\n']),
        r.1@ == highlight_scan(lines_of(code@)).1,
        increasing_within(r.1@, highlight_scan(lines_of(code@)).0.len()),
{
    let chars = chars_of(code);
    let lines = lines_chars(chars.as_slice());
    let ghost ls = lines_of(code@);
    let mut output_lines: Vec<Vec<char>> = Vec::new();
    let mut highlight_lines: Vec<usize> = Vec::new();
    let mut highlight_next = false;
    let mut in_highlight_block = false;
    let mut i: usize = 0;
    while i < lines.len()
        invariant
            views(lines@) == ls,
            i <= lines@.len(),
            (views(output_lines@), highlight_lines@, highlight_next, in_highlight_block)
                == highlight_scan(ls.take(i as int)),
        decreases lines@.len() - i,
    {
        let line = &lines[i];
        assert(ls.take(i + 1).drop_last() =~= ls.take(i as int));
        assert(ls[i as int] == line@);
        let trimmed = trim_chars(line.as_slice());
        if is_one_of(
            trimmed.as_slice(),
            "// highlight-next-line",
            "# highlight-next-line",
            "<!-- highlight-next-line -->",
        ) {
            highlight_next = true;
        } else if is_one_of(
            trimmed.as_slice(),
            "// highlight-start",
            "# highlight-start",
            "<!-- highlight-start -->",
        ) {
            in_highlight_block = true;
        } else if is_one_of(
            trimmed.as_slice(),
            "// highlight-end",
            "# highlight-end",
            "<!-- highlight-end -->",
        ) {
            in_highlight_block = false;
        } else {
            let copy = sub_chars(line.as_slice(), 0, line.len());
            assert(copy@ =~= line@);
            let ghost before = output_lines@;
            output_lines.push(copy);
            let line_num = output_lines.len();
            assert(views(output_lines@) =~= views(before).push(line@));
            if highlight_next || in_highlight_block {
                highlight_lines.push(line_num);
                highlight_next = false;
            }
        }
        i = i + 1;
    }
    assert(ls.take(i as int) =~= ls);
    proof {
        lemma_highlight_scan_increasing(ls);
    }
    let sep = vec!['\n'];
    assert(sep@ =~= seq!['\n']);
    let cleaned = join_chars(output_lines.as_slice(), sep.as_slice());
    (cleaned, highlight_lines)
}

/// One line wrapped in its `oxidoc-line` span; `num` is its 1-based number.
pub open spec fn line_span(line: Seq<char>, num: int, highlight_lines: Seq<usize>) -> Seq<char> {
    "<span class=\""@ + (if highlight_lines.contains(num as usize) {
        "oxidoc-line highlighted"@
    } else {
        "oxidoc-line"@
    }) + "\">"@ + line + "</span>"@
}

/// All lines wrapped in their spans, in order.
pub open spec fn wrap_lines(lines: Seq<Seq<char>>, highlight_lines: Seq<usize>) -> Seq<char>
    decreases lines.len(),
{
    if lines.len() == 0 {
        Seq::<char>::empty()
    } else {
        wrap_lines(lines.drop_last(), highlight_lines) + line_span(
            lines.last(),
            lines.len() as int,
            highlight_lines,
        )
    }
}

fn slice_contains(v: &[usize], x: usize) -> (r: bool)
    ensures
        r == v@.contains(x),
{
    let mut i: usize = 0;
    while i < v.len()
        invariant
            i <= v@.len(),
            forall|j: int| 0 <= j < i ==> v@[j] != x,
        decreases v@.len() - i,
    {
        if v[i] == x {
            assert(v@[i as int] == x);
            return true;
        }
        i = i + 1;
    }
    false
}

/// Apply line highlighting to already-highlighted HTML: each `\n`-separated line is
/// wrapped in a span with class `oxidoc-line`, plus `highlighted` for the listed
/// 1-based line numbers (every line is wrapped, also when no line is listed).
pub fn wrap_lines_with_highlights(html: &str, highlight_lines: &[usize]) -> (r: String)
    ensures
        r@ == wrap_lines(split_on(html@, '\n'), highlight_lines@),
{
    let chars = chars_of(html);
    let pieces = split_chars(chars.as_slice(), '\n');
    let ghost ps = split_on(html@, '\n');
    let mut out = String::new();
    let mut i: usize = 0;
    while i < pieces.len()
        invariant
            chars@ == html@,
            pieces@.len() == ps.len(),
            forall|k: int| 0 <= k < pieces@.len() ==> #[trigger] pieces@[k]@ == ps[k],
            i <= pieces@.len(),
            out@ == wrap_lines(ps.take(i as int), highlight_lines@),
        decreases pieces@.len() - i,
    {
        let num = i + 1;
        out.append("<span class=\"");
        if slice_contains(highlight_lines, num) {
            out.append("oxidoc-line highlighted");
        } else {
            out.append("oxidoc-line");
        }
        out.append("\">");
        append_chars(&mut out, pieces[i].as_slice());
        out.append("</span>");
        i = i + 1;
        assert(ps.take(i as int).drop_last() =~= ps.take(i - 1));
        assert(ps.take(i as int).last() == ps[i - 1]);
    }
    assert(ps.take(i as int) =~= ps);
    out
}

} // verus!
