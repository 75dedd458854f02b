//! Whitespace handling on character sequences.
use vstd::prelude::*;

verus! {

/// A character with the Unicode `White_Space` property.
pub open spec fn is_ws(c: char) -> bool {
    ('\u{9}' <= c && c <= '\u{d}') || c == ' ' || c == '\u{85}' || c == '\u{a0}'
        || c == '\u{1680}' || ('\u{2000}' <= c && c <= '\u{200a}') || c == '\u{2028}'
        || c == '\u{2029}' || c == '\u{202f}' || c == '\u{205f}' || c == '\u{3000}'
}

/// `s` without its leading whitespace.
pub open spec fn trim_start(s: Seq<char>) -> Seq<char>
    decreases s.len(),
{
    if s.len() > 0 && is_ws(s[0]) {
        trim_start(s.drop_first())
    } else {
        s
    }
}

/// `s` without its trailing whitespace.
pub open spec fn trim_end(s: Seq<char>) -> Seq<char>
    decreases s.len(),
{
    if s.len() > 0 && is_ws(s.last()) {
        trim_end(s.drop_last())
    } else {
        s
    }
}

/// `s` without whitespace at either end.
pub open spec fn trim(s: Seq<char>) -> Seq<char> {
    trim_end(trim_start(s))
}

/// Whether `c` is whitespace in the Unicode sense (as `char::is_whitespace`).
pub fn is_whitespace(c: char) -> (r: bool)
    ensures
        r == is_ws(c),
{
    ('\u{9}' <= c && c <= '\u{d}') || c == ' ' || c == '\u{85}' || c == '\u{a0}'
        || c == '\u{1680}' || ('\u{2000}' <= c && c <= '\u{200a}') || c == '\u{2028}'
        || c == '\u{2029}' || c == '\u{202f}' || c == '\u{205f}' || c == '\u{3000}'
}

/// The characters of `v` without whitespace at either end, as a string.
pub fn trimmed(v: &Vec<char>) -> (r: String)
    ensures
        r@ == trim(v@),
{
    let n = v.len();
    let mut lo: usize = 0;
    assert(v@.subrange(0, n as int) == v@);
    while lo < n && is_whitespace(v[lo])
        invariant
            n == v@.len(),
            lo <= n,
            trim_start(v@) == trim_start(v@.subrange(lo as int, n as int)),
        decreases n - lo,
    {
        assert(v@.subrange(lo as int, n as int).drop_first() == v@.subrange(lo + 1, n as int));
        lo = lo + 1;
    }
    assert(trim_start(v@) == v@.subrange(lo as int, n as int));
    let mut hi: usize = n;
    while hi > lo && is_whitespace(v[hi - 1])
        invariant
            n == v@.len(),
            lo <= hi <= n,
            trim(v@) == trim_end(v@.subrange(lo as int, hi as int)),
        decreases hi,
    {
        assert(v@.subrange(lo as int, hi as int).drop_last() == v@.subrange(lo as int, hi - 1));
        hi = hi - 1;
    }
    assert(trim(v@) == v@.subrange(lo as int, hi as int));
    let mut r = String::new();
    let mut i: usize = lo;
    while i < hi
        invariant
            lo <= i <= hi <= n,
            n == v@.len(),
            r@ == v@.subrange(lo as int, i as int),
        decreases hi - i,
    {
        assert(v@.subrange(lo as int, i + 1) == v@.subrange(lo as int, i as int).push(v[i as int]));
        push_char(&mut r, v[i]);
        i = i + 1;
    }
    r
}

/// Relies on `String::push`: appends one character at the end.
#[verifier::external_body]
pub(crate) fn push_char(s: &mut String, c: char)
    ensures
        final(s)@ == old(s)@.push(c),
{
    s.push(c)
}

/// The characters of `s` that are not whitespace, in their order.
pub open spec fn without_ws(s: Seq<char>) -> Seq<char> {
    s.filter(|c: char| !is_ws(c))
}

/// Removes every whitespace character of `s`, wherever it stands.
pub fn strip_whitespace(s: &str) -> (r: String)
    ensures
        r@ == without_ws(s@),
        forall|i: int| 0 <= i < r@.len() ==> !is_ws(#[trigger] r@[i]),
{
    let mut r = String::new();
    for c in it: s.chars()
        invariant
            it.seq() == s@,
            r@ == without_ws(s@.take(it.index() as int)),
    {
        let ghost k = it.index() as int;
        assert(c == s@[k]);
        assert(s@.take(k + 1) == s@.take(k).push(c));
        if !is_whitespace(c) {
            push_char(&mut r, c);
        }
        proof {
            assert(s@.take(k).push(c).drop_last() == s@.take(k));
            reveal(Seq::filter);
        }
    }
    proof {
        assert(s@.take(s@.len() as int) == s@);
        lemma_without_ws_has_none(s@);
    }
    r
}

/// No whitespace is left once it has been removed.
pub proof fn lemma_without_ws_has_none(s: Seq<char>)
    ensures
        forall|i: int| 0 <= i < without_ws(s).len() ==> !is_ws(#[trigger] without_ws(s)[i]),
{
    broadcast use vstd::seq_lib::group_filter_ensures;
}

} // verus!
