//! Paths as the crate sees them: lists of names below a root.
//!
//! A path inside a tree is the list of the names that lead to an entry, the
//! outermost first; the empty list is the root of the tree. A [`Location`] is
//! a place on disk: a base as the operator or the configuration gave it, and
//! the names appended below it. Joining names to a real path is left to the
//! caller.

use vstd::prelude::*;
use crate::text::same_text;

verus! {

/// The characters of each name of a list.
pub open spec fn names_of(list: Seq<String>) -> Seq<Seq<char>> {
    Seq::new(list.len(), |i: int| list[i]@)
}

/// `names_of` commutes with appending a name.
pub proof fn names_of_push(list: Seq<String>, name: String)
    ensures
        names_of(list.push(name)) == names_of(list).push(name@),
{
    assert(names_of(list.push(name)) =~= names_of(list).push(name@));
}

/// A copy of a list of names.
pub fn clone_names(list: &Vec<String>) -> (r: Vec<String>)
    ensures
        names_of(r@) == names_of(list@),
{
    let mut out: Vec<String> = Vec::new();
    let mut i: usize = 0;
    while i < list.len()
        invariant
            i <= list.len(),
            out.len() == i,
            forall|k: int| 0 <= k < i ==> out@[k]@ == list@[k]@,
        decreases list.len() - i,
    {
        out.push(list[i].clone());
        i += 1;
    }
    assert(names_of(out@) =~= names_of(list@));
    out
}

/// Whether two lists hold the same names in the same order.
pub fn same_names(a: &Vec<String>, b: &Vec<String>) -> (r: bool)
    ensures
        r == (names_of(a@) == names_of(b@)),
{
    if a.len() != b.len() {
        assert(names_of(a@).len() != names_of(b@).len());
        return false;
    }
    let mut i: usize = 0;
    while i < a.len()
        invariant
            i <= a.len(),
            a.len() == b.len(),
            forall|k: int| 0 <= k < i ==> a@[k]@ == b@[k]@,
        decreases a.len() - i,
    {
        if !same_text(a[i].as_str(), b[i].as_str()) {
            assert(names_of(a@)[i as int] != names_of(b@)[i as int]);
            return false;
        }
        i += 1;
    }
    assert(names_of(a@) =~= names_of(b@));
    true
}

/// Whether `list` has at least `n` names and, cut after its first `n`, is
/// `other`.
pub fn prefix_is(list: &Vec<String>, n: usize, other: &Vec<String>) -> (r: bool)
    ensures
        r == (n <= list.len() && names_of(list@).take(n as int) == names_of(other@)),
{
    if n > list.len() {
        return false;
    }
    if n != other.len() {
        assert(names_of(list@).take(n as int).len() != names_of(other@).len());
        return false;
    }
    let mut i: usize = 0;
    while i < n
        invariant
            i <= n,
            n <= list.len(),
            n == other.len(),
            forall|k: int| 0 <= k < i ==> list@[k]@ == other@[k]@,
        decreases n - i,
    {
        if !same_text(list[i].as_str(), other[i].as_str()) {
            assert(names_of(list@).take(n as int)[i as int] != names_of(other@)[i as int]);
            return false;
        }
        i += 1;
    }
    assert(names_of(list@).take(n as int) =~= names_of(other@));
    true
}

/// A place on disk: a base path, and the names appended below it.
#[derive(Debug)]
pub struct Location {
    pub base: String,
    pub below: Vec<String>,
}

/// What a [`Location`] stands for.
pub struct LocationView {
    pub base: Seq<char>,
    pub below: Seq<Seq<char>>,
}

impl View for Location {
    type V = LocationView;

    open spec fn view(&self) -> LocationView {
        LocationView { base: self.base@, below: names_of(self.below@) }
    }
}

impl LocationView {
    /// The place one name further down.
    pub open spec fn join(self, name: Seq<char>) -> LocationView {
        LocationView { base: self.base, below: self.below.push(name) }
    }

    /// The place reached through all of `names`.
    pub open spec fn descend(self, names: Seq<Seq<char>>) -> LocationView {
        LocationView { base: self.base, below: self.below + names }
    }
}

impl Location {
    /// The place that `base` names, with nothing appended.
    pub fn new(base: &str) -> (r: Location)
        ensures
            r@ == (LocationView { base: base@, below: Seq::empty() }),
    {
        let r = Location { base: base.to_owned(), below: Vec::new() };
        assert(names_of(r.below@) =~= Seq::empty());
        r
    }

    /// A copy of this place.
    pub fn duplicate(&self) -> (r: Location)
        ensures
            r@ == self@,
    {
        Location { base: self.base.clone(), below: clone_names(&self.below) }
    }

    /// The place one name further down.
    pub fn join(&self, name: &str) -> (r: Location)
        ensures
            r@ == self@.join(name@),
    {
        let mut below = clone_names(&self.below);
        let owned = name.to_owned();
        proof {
            names_of_push(below@, owned);
        }
        below.push(owned);
        Location { base: self.base.clone(), below }
    }

    /// The place reached through all of `names`.
    pub fn descend(&self, names: &Vec<String>) -> (r: Location)
        ensures
            r@ == self@.descend(names_of(names@)),
    {
        let mut below = clone_names(&self.below);
        let mut i: usize = 0;
        while i < names.len()
            invariant
                i <= names.len(),
                names_of(below@) == names_of(self.below@) + names_of(names@).take(i as int),
            decreases names.len() - i,
        {
            let owned = names[i].clone();
            proof {
                names_of_push(below@, owned);
                assert(names_of(names@).take(i as int).push(owned@) =~= names_of(names@).take(
                    i as int + 1,
                ));
                assert((names_of(self.below@) + names_of(names@).take(i as int)).push(owned@)
                    =~= names_of(self.below@) + names_of(names@).take(i as int + 1));
            }
            below.push(owned);
            i += 1;
        }
        assert(names_of(names@).take(names.len() as int) =~= names_of(names@));
        Location { base: self.base.clone(), below }
    }
}

} // verus!
