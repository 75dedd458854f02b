//! Reading the list of student identifiers out of the text of a file.
use vstd::prelude::*;
use crate::text::{trim, trimmed};

verus! {

/// The lines of `s`: the pieces between the `'\n'` characters, the last piece
/// included even when it is empty.
pub open spec fn split_lines(s: Seq<char>) -> Seq<Seq<char>>
    decreases s.len(),
{
    if s.len() == 0 {
        seq![Seq::empty()]
    } else {
        let before = split_lines(s.drop_last());
        if s.last() == '\n' {
            before.push(Seq::empty())
        } else {
            before.update(before.len() - 1, before.last().push(s.last()))
        }
    }
}

/// Each line trimmed, blank ones left out, in their order.
pub open spec fn nonblank_trimmed(lines: Seq<Seq<char>>) -> Seq<Seq<char>> {
    lines.map_values(|l: Seq<char>| trim(l)).filter(|l: Seq<char>| l.len() > 0)
}

/// The identifiers that a file with text `s` lists: one per non-blank line,
/// trimmed, in file order.
pub open spec fn identifiers(s: Seq<char>) -> Seq<Seq<char>> {
    nonblank_trimmed(split_lines(s))
}

/// The characters of each string.
pub open spec fn texts(v: Seq<String>) -> Seq<Seq<char>> {
    v.map_values(|x: String| x@)
}

proof fn lemma_split_lines_nonempty(s: Seq<char>)
    ensures
        split_lines(s).len() >= 1,
    decreases s.len(),
{
    if s.len() > 0 {
        lemma_split_lines_nonempty(s.drop_last());
    }
}

proof fn lemma_nonblank_trimmed_push(lines: Seq<Seq<char>>, l: Seq<char>)
    ensures
        nonblank_trimmed(lines.push(l)) == if trim(l).len() > 0 {
            nonblank_trimmed(lines).push(trim(l))
        } else {
            nonblank_trimmed(lines)
        },
{
    let f = |l: Seq<char>| trim(l);
    let p = |l: Seq<char>| l.len() > 0;
    assert(lines.push(l).map_values(f) == lines.map_values(f).push(trim(l)));
    assert(lines.map_values(f).push(trim(l)).drop_last() == lines.map_values(f));
    reveal(Seq::filter);
}

/// The lines of `s` that are not blank once trimmed, in their order.
pub open spec fn nonblank_lines(s: Seq<char>) -> Seq<Seq<char>> {
    split_lines(s).filter(|l: Seq<char>| trim(l).len() > 0)
}

proof fn lemma_trim_then_filter(lines: Seq<Seq<char>>)
    ensures
        nonblank_trimmed(lines) == lines.filter(|l: Seq<char>| trim(l).len() > 0).map_values(
            |l: Seq<char>| trim(l),
        ),
    decreases lines.len(),
{
    let p = |l: Seq<char>| trim(l).len() > 0;
    let f = |l: Seq<char>| trim(l);
    if lines.len() == 0 {
        assert(lines.map_values(f) == Seq::<Seq<char>>::empty());
        assert(lines.filter(p) == Seq::<Seq<char>>::empty()) by {
            reveal(Seq::filter);
        }
        assert(nonblank_trimmed(lines) == Seq::<Seq<char>>::empty()) by {
            reveal(Seq::filter);
        }
        assert(lines.filter(p).map_values(f) =~= Seq::<Seq<char>>::empty());
    } else {
        let init = lines.drop_last();
        lemma_trim_then_filter(init);
        assert(init.push(lines.last()) == lines);
        lemma_nonblank_trimmed_push(init, lines.last());
        assert(lines.filter(p) == if p(lines.last()) {
            init.filter(p).push(lines.last())
        } else {
            init.filter(p)
        }) by {
            reveal(Seq::filter);
        }
        if p(lines.last()) {
            assert(init.filter(p).push(lines.last()).map_values(f) =~= init.filter(p).map_values(
                f,
            ).push(trim(lines.last())));
        }
    }
}

/// A file lists one identifier for each of its non-blank lines: the line
/// with the whitespace around it removed, in the order of the lines.
pub proof fn lemma_one_identifier_per_nonblank_line(s: Seq<char>)
    ensures
        identifiers(s).len() == nonblank_lines(s).len(),
        forall|i: int|
            0 <= i < identifiers(s).len() ==> #[trigger] identifiers(s)[i] == trim(
                nonblank_lines(s)[i],
            ),
{
    lemma_trim_then_filter(split_lines(s));
}

/// The identifiers listed in the text of an identifiers file: one for each
/// line that is not blank, with the whitespace around it removed, in the
/// order of the lines.
pub fn parse_csv_file(contents: &str) -> (r: Vec<String>)
    ensures
        texts(r@) == identifiers(contents@),
{
    let mut r: Vec<String> = Vec::new();
    let mut cur: Vec<char> = Vec::new();
    for c in it: contents.chars()
        invariant
            it.seq() == contents@,
            split_lines(contents@.take(it.index() as int)).len() >= 1,
            cur@ == split_lines(contents@.take(it.index() as int)).last(),
            texts(r@) == nonblank_trimmed(
                split_lines(contents@.take(it.index() as int)).drop_last(),
            ),
    {
        let ghost k = it.index() as int;
        let ghost before = split_lines(contents@.take(k));
        proof {
            assert(contents@.take(k + 1).drop_last() == contents@.take(k));
            assert(contents@.take(k + 1).last() == c);
            lemma_split_lines_nonempty(contents@.take(k + 1));
        }
        if c == '\n' {
            proof {
                assert(before.drop_last().push(before.last()) == before);
                lemma_nonblank_trimmed_push(before.drop_last(), cur@);
                assert(before.push(Seq::empty()).drop_last() == before);
            }
            let t = trimmed(&cur);
            if !t.as_str().is_empty() {
                r.push(t);
            }
            assert(texts(r@) == nonblank_trimmed(before)) by {
                assert(texts(r@) =~= nonblank_trimmed(before));
            }
            cur = Vec::new();
        } else {
            cur.push(c);
            proof {
                assert(before.update(before.len() - 1, before.last().push(c)).drop_last()
                    == before.drop_last());
            }
        }
    }
    let ghost all = split_lines(contents@);
    proof {
        assert(contents@.take(contents@.len() as int) == contents@);
        assert(all.drop_last().push(all.last()) == all);
        lemma_nonblank_trimmed_push(all.drop_last(), cur@);
    }
    let t = trimmed(&cur);
    if !t.as_str().is_empty() {
        r.push(t);
    }
    assert(texts(r@) =~= identifiers(contents@));
    r
}

} // verus!
