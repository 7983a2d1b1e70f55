//! The header multimap: an ordered collection of name/value pairs. Names
//! compare without regard to ASCII case; duplicate names are kept, in
//! insertion order, and are never silently collapsed.

use vstd::prelude::*;
use crate::text::{eq_nocase, seq_eq_nocase};

verus! {

/// An ordered header set. Its view is the sequence of (name, value) pairs,
/// each as a sequence of characters.
pub struct Headers {
    entries: Vec<(String, String)>,
}

impl View for Headers {
    type V = Seq<(Seq<char>, Seq<char>)>;

    closed spec fn view(&self) -> Seq<(Seq<char>, Seq<char>)> {
        self.entries.deep_view()
    }
}

/// Some entry of `hs` has a name equal to `name` up to ASCII case.
pub open spec fn spec_has_name(hs: Seq<(Seq<char>, Seq<char>)>, name: Seq<char>) -> bool {
    exists|i: int| 0 <= i < hs.len() && #[trigger] seq_eq_nocase(hs[i].0, name)
}

/// The value of the first entry of `hs` whose name equals `name` up to ASCII
/// case, if one exists.
pub open spec fn spec_first_value(
    hs: Seq<(Seq<char>, Seq<char>)>,
    name: Seq<char>,
) -> Option<Seq<char>>
    decreases hs.len(),
{
    if hs.len() == 0 {
        None
    } else if seq_eq_nocase(hs[0].0, name) {
        Some(hs[0].1)
    } else {
        spec_first_value(hs.drop_first(), name)
    }
}

proof fn lemma_first_value_skip(hs: Seq<(Seq<char>, Seq<char>)>, name: Seq<char>, i: int)
    requires
        0 <= i < hs.len(),
        !seq_eq_nocase(hs[i].0, name),
    ensures
        spec_first_value(hs.skip(i), name) == spec_first_value(hs.skip(i + 1), name),
{
    assert(hs.skip(i)[0] == hs[i]);
    assert(hs.skip(i).drop_first() =~= hs.skip(i + 1));
}

proof fn lemma_first_value_found(hs: Seq<(Seq<char>, Seq<char>)>, name: Seq<char>, i: int)
    requires
        0 <= i < hs.len(),
        seq_eq_nocase(hs[i].0, name),
    ensures
        spec_first_value(hs.skip(i), name) == Some(hs[i].1),
{
    assert(hs.skip(i)[0] == hs[i]);
}

impl Headers {
    /// The empty header set.
    pub fn new() -> (h: Headers)
        ensures
            h@ =~= Seq::<(Seq<char>, Seq<char>)>::empty(),
    {
        Headers { entries: Vec::new() }
    }

    /// Builds a header set from its pairs, kept in the given order.
    pub fn from_entries(entries: Vec<(String, String)>) -> (h: Headers)
        ensures
            h@ == entries.deep_view(),
    {
        Headers { entries }
    }

    /// How many entries the set holds.
    pub fn len(&self) -> (n: usize)
        ensures
            n == self@.len(),
    {
        self.entries.len()
    }

    /// The name of the entry at `i`.
    pub fn name_at(&self, i: usize) -> (r: &String)
        requires
            i < self@.len(),
        ensures
            r@ == self@[i as int].0,
    {
        &self.entries[i].0
    }

    /// The value of the entry at `i`.
    pub fn value_at(&self, i: usize) -> (r: &String)
        requires
            i < self@.len(),
        ensures
            r@ == self@[i as int].1,
    {
        &self.entries[i].1
    }

    /// Appends a pair at the end; nothing else moves.
    pub fn append(&mut self, name: String, value: String)
        ensures
            final(self)@ =~= old(self)@.push((name@, value@)),
    {
        self.entries.push((name, value));
    }

    /// Whether some entry's name equals `name` up to ASCII case.
    pub fn has_name(&self, name: &str) -> (r: bool)
        ensures
            r == spec_has_name(self@, name@),
    {
        let n = self.entries.len();
        let mut i: usize = 0;
        while i < n
            invariant
                n == self.entries@.len(),
                self@.len() == n,
                i <= n,
                self@ == self.entries.deep_view(),
                forall|j: int| 0 <= j < i ==> !#[trigger] seq_eq_nocase(self@[j].0, name@),
            decreases n - i,
        {
            let e = &self.entries[i];
            assert(self@[i as int].0 == e.0@);
            if eq_nocase(e.0.as_str(), name) {
                assert(seq_eq_nocase(self@[i as int].0, name@));
                return true;
            }
            i = i + 1;
        }
        false
    }

    /// The value of the first entry named `name` (up to ASCII case), if any.
    pub fn first_value(&self, name: &str) -> (r: Option<String>)
        ensures
            r.deep_view() == spec_first_value(self@, name@),
    {
        let n = self.entries.len();
        let mut i: usize = 0;
        assert(self@.skip(0) =~= self@);
        while i < n
            invariant
                n == self.entries@.len(),
                self@.len() == n,
                i <= n,
                self@ == self.entries.deep_view(),
                spec_first_value(self@, name@) == spec_first_value(self@.skip(i as int), name@),
            decreases n - i,
        {
            let e = &self.entries[i];
            assert(self@[i as int] == (e.0@, e.1@));
            if eq_nocase(e.0.as_str(), name) {
                proof {
                    lemma_first_value_found(self@, name@, i as int);
                }
                return Some(e.1.clone());
            }
            proof {
                lemma_first_value_skip(self@, name@, i as int);
            }
            i = i + 1;
        }
        assert(self@.skip(n as int) =~= Seq::<(Seq<char>, Seq<char>)>::empty());
        None
    }
}

} // verus!
