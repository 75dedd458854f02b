//! Sorting students by the answer of their account lookup, and the text of
//! the two result files.
use vstd::prelude::*;
use crate::input::texts;
use crate::text::push_char;

verus! {

/// The account id that a lookup's records give: the first record's, if any.
pub open spec fn first_of(ids: Seq<u64>) -> Option<u64> {
    if ids.len() == 0 {
        None
    } else {
        Some(ids[0])
    }
}

/// The account id of a student, from the ids of the user records that the
/// lookup returned in the order the service returned them: the first one, or
/// none when the lookup matched nobody.
pub fn first_user_id(ids: &Vec<u64>) -> (r: Option<u64>)
    ensures
        r == first_of(ids@),
{
    if ids.len() == 0 {
        None
    } else {
        Some(ids[0])
    }
}

/// A student and the account id that the lookup found, if any.
pub type Lookup = (String, Option<u64>);

/// The students whose lookup found an account, in the order of `results`.
pub open spec fn found_of(results: Seq<Lookup>) -> Seq<String> {
    results.filter(|p: Lookup| p.1 is Some).map_values(|p: Lookup| p.0)
}

/// The students whose lookup found no account, in the order of `results`.
pub open spec fn not_found_of(results: Seq<Lookup>) -> Seq<String> {
    results.filter(|p: Lookup| p.1 is None).map_values(|p: Lookup| p.0)
}

/// The two lists of students, those found and those not found.
pub struct OutputSets {
    pub found: Vec<String>,
    pub not_found: Vec<String>,
}

impl OutputSets {
    /// Both lists empty.
    pub fn new() -> (r: OutputSets)
        ensures
            r.found@ == Seq::<String>::empty(),
            r.not_found@ == Seq::<String>::empty(),
    {
        OutputSets { found: Vec::new(), not_found: Vec::new() }
    }

    /// Adds `student` at the end of the list that `user_id` puts it in.
    pub fn record(&mut self, student: String, user_id: Option<u64>)
        ensures
            user_id is Some ==> final(self).found@ == old(self).found@.push(student)
                && final(self).not_found@ == old(self).not_found@,
            user_id is None ==> final(self).not_found@ == old(self).not_found@.push(student)
                && final(self).found@ == old(self).found@,
    {
        match user_id {
            Some(_) => self.found.push(student),
            None => self.not_found.push(student),
        }
    }
}

proof fn lemma_split_push(results: Seq<Lookup>, x: Lookup)
    ensures
        found_of(results.push(x)) == if x.1 is Some {
            found_of(results).push(x.0)
        } else {
            found_of(results)
        },
        not_found_of(results.push(x)) == if x.1 is None {
            not_found_of(results).push(x.0)
        } else {
            not_found_of(results)
        },
{
    let pf = |p: Lookup| p.1 is Some;
    let pn = |p: Lookup| p.1 is None;
    let name = |p: Lookup| p.0;
    assert(results.push(x).drop_last() == results);
    assert(results.push(x).filter(pf) == if pf(x) {
        results.filter(pf).push(x)
    } else {
        results.filter(pf)
    }) by {
        reveal(Seq::filter);
    }
    assert(results.push(x).filter(pn) == if pn(x) {
        results.filter(pn).push(x)
    } else {
        results.filter(pn)
    }) by {
        reveal(Seq::filter);
    }
    assert(results.filter(pf).push(x).map_values(name) =~= results.filter(pf).map_values(
        name,
    ).push(x.0));
    assert(results.filter(pn).push(x).map_values(name) =~= results.filter(pn).map_values(
        name,
    ).push(x.0));
}

/// Sorts the students of `results` into those whose lookup found an account
/// and those whose lookup did not, each list in the order of `results`.
pub fn verify_students(results: &Vec<Lookup>) -> (r: OutputSets)
    ensures
        r.found@ == found_of(results@),
        r.not_found@ == not_found_of(results@),
{
    let mut sets = OutputSets::new();
    let mut i: usize = 0;
    proof {
        reveal(Seq::filter);
        assert(found_of(results@.take(0)) =~= Seq::<String>::empty());
        assert(not_found_of(results@.take(0)) =~= Seq::<String>::empty());
    }
    while i < results.len()
        invariant
            i <= results@.len(),
            sets.found@ == found_of(results@.take(i as int)),
            sets.not_found@ == not_found_of(results@.take(i as int)),
        decreases results@.len() - i,
    {
        proof {
            assert(results@.take(i + 1) == results@.take(i as int).push(results@[i as int]));
            lemma_split_push(results@.take(i as int), results@[i as int]);
        }
        let student = results[i].0.clone();
        sets.record(student, results[i].1);
        i = i + 1;
    }
    assert(results@.take(results@.len() as int) == results@);
    sets
}

/// Every student lands in exactly one of the two lists: together they are
/// as long as the results they were sorted from.
pub proof fn lemma_each_student_in_one_list(results: Seq<Lookup>)
    ensures
        found_of(results).len() + not_found_of(results).len() == results.len(),
    decreases results.len(),
{
    if results.len() == 0 {
        reveal(Seq::filter);
    } else {
        let init = results.drop_last();
        lemma_each_student_in_one_list(init);
        assert(init.push(results.last()) == results);
        lemma_split_push(init, results.last());
    }
}

/// Each list keeps the order of the results: sorting a run of results that
/// follows another gives lists that follow those of the first run.
pub proof fn lemma_lists_keep_input_order(first: Seq<Lookup>, then: Seq<Lookup>)
    ensures
        found_of(first + then) == found_of(first) + found_of(then),
        not_found_of(first + then) == not_found_of(first) + not_found_of(then),
{
    let pf = |p: Lookup| p.1 is Some;
    let pn = |p: Lookup| p.1 is None;
    let name = |p: Lookup| p.0;
    Seq::filter_distributes_over_add(first, then, pf);
    Seq::filter_distributes_over_add(first, then, pn);
    assert((first.filter(pf) + then.filter(pf)).map_values(name) =~= first.filter(pf).map_values(
        name,
    ) + then.filter(pf).map_values(name));
    assert((first.filter(pn) + then.filter(pn)).map_values(name) =~= first.filter(pn).map_values(
        name,
    ) + then.filter(pn).map_values(name));
}

/// The text of a result file: each name followed by a line break.
pub open spec fn lines_text(names: Seq<Seq<char>>) -> Seq<char>
    decreases names.len(),
{
    if names.len() == 0 {
        Seq::empty()
    } else {
        lines_text(names.drop_last()) + names.last() + seq!['\n']
    }
}

/// The text of a result file listing `names`, one per line, in their order.
pub fn render_lines(names: &Vec<String>) -> (r: String)
    ensures
        r@ == lines_text(texts(names@)),
{
    let mut r = String::new();
    let mut i: usize = 0;
    while i < names.len()
        invariant
            i <= names@.len(),
            r@ == lines_text(texts(names@.take(i as int))),
        decreases names@.len() - i,
    {
        proof {
            let t = texts(names@.take(i + 1));
            assert(t.drop_last() == texts(names@.take(i as int)));
            assert(t.last() == names@[i as int]@);
        }
        r.append(names[i].as_str());
        push_char(&mut r, '\n');
        i = i + 1;
    }
    assert(names@.take(names@.len() as int) == names@);
    r
}

/// The texts of the two result files.
pub open spec fn files_of(results: Seq<Lookup>) -> (Seq<char>, Seq<char>) {
    (lines_text(texts(found_of(results))), lines_text(texts(not_found_of(results))))
}

/// The texts of `found.txt` and `not_found.txt` for the lookup answers
/// `results`: the students found, then those not found, one per line, each
/// list in the order of `results`. The text depends on `results` alone, so a
/// run whose lookups answer as a previous one did writes the same files.
pub fn result_files(results: &Vec<Lookup>) -> (r: (String, String))
    ensures
        r.0@ == files_of(results@).0,
        r.1@ == files_of(results@).1,
{
    let sets = verify_students(results);
    (render_lines(&sets.found), render_lines(&sets.not_found))
}

} // verus!
