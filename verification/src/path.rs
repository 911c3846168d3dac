//! Absolute filesystem paths, modelled as sequences of components.
//!
//! The orchestrator never inspects the bytes of a path beyond its component
//! structure, so a path is held as the list of its components; the view of a
//! path is the sequence of its components' character sequences.

use vstd::prelude::*;

verus! {

/// An absolute filesystem path: the sequence of its components, root first.
/// `/tc/Asteroids/logs` is held as `["tc", "Asteroids", "logs"]`.
#[derive(Debug)]
pub struct AbsPath {
    pub segs: Vec<String>,
}

impl View for AbsPath {
    type V = Seq<Seq<char>>;

    open spec fn view(&self) -> Seq<Seq<char>> {
        self.segs.deep_view()
    }
}

/// `p` lies at or below `d`: `d` is a prefix of `p`.
pub open spec fn under(p: Seq<Seq<char>>, d: Seq<Seq<char>>) -> bool {
    p.len() >= d.len() && p.take(d.len() as int) == d
}

/// `p` lies strictly below the directory `d`.
pub open spec fn strictly_under(p: Seq<Seq<char>>, d: Seq<Seq<char>>) -> bool {
    p.len() > d.len() && p.take(d.len() as int) == d
}

/// Copies a vector of path components.
pub fn clone_strings(v: &Vec<String>) -> (r: Vec<String>)
    ensures
        r.deep_view() == v.deep_view(),
{
    let mut r: Vec<String> = Vec::new();
    let mut i: usize = 0;
    while i < v.len()
        invariant
            i <= v.len(),
            r@.len() == i,
            r.deep_view() =~= v.deep_view().take(i as int),
        decreases v.len() - i,
    {
        let c = v[i].clone();
        proof {
            assert(c@ == v@[i as int]@);
            assert(v.deep_view()[i as int] == v@[i as int].deep_view());
        }
        let ghost prev: Seq<String> = r@;
        proof {
            assert(prev.len() == i);
        }
        r.push(c);
        proof {
            assert(r@ == prev.push(c));
            assert(r@.len() == i + 1);
            assert forall|j: int| 0 <= j < i + 1 implies r.deep_view()[j] == v.deep_view()[j] by {
                assert(r.deep_view()[j] == r@[j].deep_view());
                assert(v.deep_view()[j] == v@[j].deep_view());
                if j < i {
                    assert(r@[j] == prev[j]);
                    assert(prev[j].deep_view() == v.deep_view().take(i as int)[j]);
                }
            }
            assert(r.deep_view() =~= v.deep_view().take(i as int + 1));
        }
        i = i + 1;
    }
    proof {
        assert(r.deep_view() =~= v.deep_view());
    }
    r
}

impl AbsPath {
    /// Builds a path from its components.
    pub fn new(segs: Vec<String>) -> (r: AbsPath)
        ensures
            r@ == segs.deep_view(),
    {
        AbsPath { segs }
    }

    /// An identical copy of the path.
    pub fn dup(&self) -> (r: AbsPath)
        ensures
            r@ == self@,
    {
        AbsPath { segs: clone_strings(&self.segs) }
    }

    /// The path extended by one further component.
    pub fn join(&self, seg: String) -> (r: AbsPath)
        ensures
            r@ == self@.push(seg@),
    {
        let mut segs = clone_strings(&self.segs);
        segs.push(seg);
        proof {
            assert(segs.deep_view() =~= self@.push(seg@));
        }
        AbsPath { segs }
    }

    /// The path's final component, absent only for the empty path.
    pub fn base_name(&self) -> (r: Option<String>)
        ensures
            self@.len() == 0 ==> r is None,
            self@.len() > 0 ==> (r matches Some(b) && b@ == self@.last()),
    {
        if self.segs.len() == 0 {
            None
        } else {
            Some(self.segs[self.segs.len() - 1].clone())
        }
    }

    /// Whether this path lies at or below the directory `d`.
    pub fn is_under(&self, d: &AbsPath) -> (r: bool)
        ensures
            r == under(self@, d@),
    {
        if self.segs.len() < d.segs.len() {
            return false;
        }
        let n = d.segs.len();
        let mut i: usize = 0;
        while i < n
            invariant
                i <= n,
                n == d@.len(),
                n <= self@.len(),
                forall|j: int| 0 <= j < i ==> self@[j] == d@[j],
            decreases n - i,
    {
            if !(self.segs[i] == d.segs[i]) {
                proof {
                    assert(under(self@, d@) ==> self@.take(d@.len() as int)[i as int]
                        == d@[i as int]);
                    assert(!under(self@, d@));
                }
                return false;
            }
            i = i + 1;
        }
        proof {
            assert(self@.take(d@.len() as int) =~= d@);
        }
        true
    }
}

} // verus!
