//! Text primitives over `Seq<char>`: whitespace, trimming, prefixes and the
//! pieces a separator splits a string into, each with the executable check the
//! library runs.

use vstd::prelude::*;

verus! {

/// Unicode `White_Space`, the property that `char::is_whitespace` tests and
/// that `str::trim` strips.
pub open spec fn is_whitespace(c: char) -> bool {
    ||| '\u{9}' <= c && c <= '\u{d}'
    ||| c == ' '
    ||| c == '\u{85}'
    ||| c == '\u{a0}'
    ||| c == '\u{1680}'
    ||| '\u{2000}' <= c && c <= '\u{200a}'
    ||| c == '\u{2028}'
    ||| c == '\u{2029}'
    ||| c == '\u{202f}'
    ||| c == '\u{205f}'
    ||| c == '\u{3000}'
}

/// `s` without its leading whitespace.
pub open spec fn trim_start(s: Seq<char>) -> Seq<char>
    decreases s.len(),
{
    if s.len() > 0 && is_whitespace(s[0]) {
        trim_start(s.drop_first())
    } else {
        s
    }
}

/// `s` without its trailing whitespace.
pub open spec fn trim_end(s: Seq<char>) -> Seq<char>
    decreases s.len(),
{
    if s.len() > 0 && is_whitespace(s.last()) {
        trim_end(s.drop_last())
    } else {
        s
    }
}

/// `s` with leading and trailing whitespace removed, as `str::trim` gives it.
pub open spec fn trim(s: Seq<char>) -> Seq<char> {
    trim_end(trim_start(s))
}

/// `s` begins with `p`.
pub open spec fn starts_with(s: Seq<char>, p: Seq<char>) -> bool {
    p.len() <= s.len() && s.subrange(0, p.len() as int) == p
}

/// `s` ends with `m`.
pub open spec fn ends_with(s: Seq<char>, m: Seq<char>) -> bool {
    m.len() <= s.len() && s.subrange(s.len() - m.len(), s.len() as int) == m
}

/// The pieces that `s.split(sep)` yields: the text between consecutive
/// separators, empty pieces included, and one empty piece for an empty `s`.
pub open spec fn split_on(s: Seq<char>, sep: char) -> Seq<Seq<char>>
    decreases s.len(),
{
    if s.len() == 0 {
        seq![Seq::<char>::empty()]
    } else {
        let parts = split_on(s.drop_last(), sep);
        if s.last() == sep {
            parts.push(Seq::<char>::empty())
        } else {
            parts.update(parts.len() - 1, parts.last().push(s.last()))
        }
    }
}

/// `s` with `%` on either side: a pattern that SQL `LIKE` matches against any
/// text that contains `s`.
pub open spec fn like_pattern(s: Seq<char>) -> Seq<char> {
    seq!['%'] + s + seq!['%']
}

/// Tests `char::is_whitespace`.
pub fn char_is_whitespace(c: char) -> (r: bool)
    ensures
        r == is_whitespace(c),
{
    ('\u{9}' <= c && c <= '\u{d}') || c == ' ' || c == '\u{85}' || c == '\u{a0}' || c
        == '\u{1680}' || ('\u{2000}' <= c && c <= '\u{200a}') || c == '\u{2028}' || c
        == '\u{2029}' || c == '\u{202f}' || c == '\u{205f}' || c == '\u{3000}'
}

/// Whether the characters of `s` from `from` to `to` begin with `p`.
pub fn starts_with_at(s: &str, from: usize, to: usize, p: &str) -> (r: bool)
    requires
        from <= to <= s@.len(),
    ensures
        r == starts_with(s@.subrange(from as int, to as int), p@),
{
    let plen = p.unicode_len();
    if to - from < plen {
        return false;
    }
    let mut k: usize = 0;
    while k < plen
        invariant
            plen == p@.len(),
            from + plen <= to <= s@.len(),
            k <= plen,
            forall|j: int| 0 <= j < k ==> s@[from + j] == p@[j],
        decreases plen - k,
    {
        if s.get_char(from + k) != p.get_char(k) {
            proof {
                assert(s@.subrange(from as int, to as int).subrange(0, plen as int)[k as int]
                    != p@[k as int]);
            }
            return false;
        }
        k = k + 1;
    }
    proof {
        assert(s@.subrange(from as int, to as int).subrange(0, plen as int) =~= p@);
    }
    true
}

/// `t` occurs in `s` as a contiguous run.
pub open spec fn contains_text(s: Seq<char>, t: Seq<char>) -> bool {
    exists|i: int| 0 <= i && i + t.len() <= s.len() && #[trigger] s.subrange(i, i + t.len()) == t
}

/// A field written between two pieces of fixed text can be found in the
/// result: `m`, then the field, then `n`, where `m` ends the text before it
/// and `n` begins the text after it.
pub proof fn lemma_contains_filled(
    pre: Seq<char>,
    c1: Seq<char>,
    v: Seq<char>,
    c2: Seq<char>,
    m: Seq<char>,
    n: Seq<char>,
)
    requires
        ends_with(c1, m),
        starts_with(c2, n),
    ensures
        contains_text(pre + c1 + v + c2, m + v + n),
{
    let whole = pre + c1 + v + c2;
    let t = m + v + n;
    let at = pre.len() + c1.len() - m.len();
    assert(whole.subrange(at, at + t.len()) =~= t);
}

/// What a text contains, it still contains with more text after it.
pub proof fn lemma_contains_extend(q: Seq<char>, r: Seq<char>, t: Seq<char>)
    requires
        contains_text(q, t),
    ensures
        contains_text(q + r, t),
{
    let i = choose|i: int| 0 <= i && i + t.len() <= q.len() && #[trigger] q.subrange(i, i + t.len()) == t;
    assert((q + r).subrange(i, i + t.len()) =~= q.subrange(i, i + t.len()));
}

/// `s@` with `%` before and after, the `LIKE` pattern `format!("%{}%", s)`.
pub fn make_like_pattern(s: &str) -> (r: String)
    ensures
        r@ == like_pattern(s@),
{
    let open = String::from_str("%");
    proof {
        reveal_strlit("%");
    }
    let with_text = open.concat(s);
    with_text.concat("%")
}


/// Whether `a` and `b` are the same text.
pub fn text_equals(a: &str, b: &str) -> (r: bool)
    ensures
        r == (a@ == b@),
{
    let n = a.unicode_len();
    if n != b.unicode_len() {
        return false;
    }
    let r = starts_with_at(a, 0, n, b);
    proof {
        assert(a@.subrange(0, n as int) =~= a@);
        if r {
            assert(a@.subrange(0, n as int) == b@);
        }
    }
    r
}

/// The text of an optional string, the empty string without one.
pub open spec fn text_or_empty(o: Option<String>) -> Seq<char> {
    match o {
        Some(s) => s@,
        None => Seq::<char>::empty(),
    }
}

/// `o.as_deref().unwrap_or("")`.
pub fn str_or_empty(o: &Option<String>) -> (r: &str)
    ensures
        r@ == text_or_empty(*o),
{
    match o {
        Some(s) => s.as_str(),
        None => {
            proof {
                reveal_strlit("");
            }
            ""
        },
    }
}

} // verus!
