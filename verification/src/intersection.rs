//! Intersection records and the ordered collection with hit selection.
//!
//! An `Intersections` value stays sorted ascending by `t` as it is built, and
//! the hit is the record with the smallest non-negative `t`.

use vstd::prelude::*;

verus! {

/// One ray/shape intersection: the ray parameter `t` (possibly negative)
/// and the shape it was computed against, carried by value.
#[derive(Clone, Copy, Debug, PartialEq, Eq)]
pub struct Intersection<S> {
    pub t: i128,
    pub object: S,
}

impl<S> Intersection<S> {
    pub fn new(t: i128, object: S) -> (r: Intersection<S>)
        ensures
            r.t == t,
            r.object == object,
    {
        Intersection { t, object }
    }
}

/// Ascending order by `t` over a sequence of intersections.
pub open spec fn sorted_by_t<S>(s: Seq<Intersection<S>>) -> bool {
    forall|i: int, j: int|
        #![trigger s[i].t, s[j].t]
        0 <= i <= j < s.len() ==> s[i].t <= s[j].t
}

/// An ordered, resizable sequence of intersections, kept sorted by `t`.
pub struct Intersections<S> {
    items: Vec<Intersection<S>>,
}

impl<S> View for Intersections<S> {
    type V = Seq<Intersection<S>>;

    closed spec fn view(&self) -> Seq<Intersection<S>> {
        self.items@
    }
}

impl<S> Intersections<S> {
    /// The collection invariant: entries ascend by `t`.
    pub open spec fn wf(&self) -> bool {
        sorted_by_t(self@)
    }

    /// An empty collection.
    pub fn new() -> (r: Intersections<S>)
        ensures
            r@.len() == 0,
            r.wf(),
    {
        Intersections { items: Vec::new() }
    }

    pub fn len(&self) -> (r: usize)
        ensures
            r == self@.len(),
    {
        self.items.len()
    }

    pub fn is_empty(&self) -> (r: bool)
        ensures
            r == (self@.len() == 0),
    {
        self.items.len() == 0
    }

    /// The record at index `i`.
    pub fn get(&self, i: usize) -> (r: &Intersection<S>)
        requires
            i < self@.len(),
        ensures
            *r == self@[i as int],
    {
        &self.items[i]
    }

    /// Inserts `x` at its sorted position, after any record with an equal `t`.
    pub fn push(&mut self, x: Intersection<S>)
        requires
            old(self).wf(),
            old(self)@.len() < usize::MAX,
        ensures
            final(self).wf(),
            exists|k: int|
                {
                    &&& 0 <= k <= old(self)@.len()
                    &&& final(self)@ == #[trigger] old(self)@.insert(k, x)
                    &&& forall|i: int| 0 <= i < k ==> #[trigger] old(self)@[i].t <= x.t
                    &&& forall|i: int|
                        k <= i < old(self)@.len() ==> #[trigger] old(self)@[i].t > x.t
                },
    {
        let ghost s0 = self@;
        let mut idx: usize = 0;
        let n: usize = self.items.len();
        while idx < n && self.items[idx].t <= x.t
            invariant
                self@ == s0,
                n == s0.len(),
                0 <= idx <= n,
                forall|i: int| 0 <= i < idx ==> #[trigger] s0[i].t <= x.t,
            decreases n - idx,
        {
            idx = idx + 1;
        }
        proof {
            if idx < n {
                assert(s0[idx as int].t > x.t);
                assert forall|i: int| idx <= i < s0.len() implies #[trigger] s0[i].t > x.t by {
                    assert(s0[idx as int].t <= s0[i].t);
                }
            }
        }
        self.items.insert(idx, x);
        proof {
            let s1 = self@;
            let k = idx as int;
            assert(s1 == s0.insert(k, x));
            assert forall|i: int, j: int|
                #![trigger s1[i].t, s1[j].t]
                0 <= i <= j < s1.len() implies s1[i].t <= s1[j].t by {
                assert(s1.len() == s0.len() + 1);
                if i < k {
                    assert(s1[i] == s0[i]);
                }
                if i > k {
                    assert(s1[i] == s0[i - 1]);
                }
                if j < k {
                    assert(s1[j] == s0[j]);
                }
                if j > k {
                    assert(s1[j] == s0[j - 1]);
                }
            }
        }
    }

    /// The hit: the record with the smallest non-negative `t`, or `None` when
    /// every record lies behind the ray origin.
    pub fn hit(&self) -> (r: Option<&Intersection<S>>)
        requires
            self.wf(),
        ensures
            match r {
                Some(h) => {
                    &&& exists|i: int| 0 <= i < self@.len() && self@[i] == *h
                    &&& h.t >= 0
                    &&& forall|j: int|
                        0 <= j < self@.len() && #[trigger] self@[j].t >= 0 ==> h.t <= self@[j].t
                },
                None => forall|j: int| 0 <= j < self@.len() ==> #[trigger] self@[j].t < 0,
            },
    {
        let n: usize = self.items.len();
        let mut idx: usize = 0;
        while idx < n && self.items[idx].t < 0
            invariant
                0 <= idx <= n,
                n == self@.len(),
                forall|i: int| 0 <= i < idx ==> #[trigger] self@[i].t < 0,
            decreases n - idx,
        {
            idx = idx + 1;
        }
        if idx < n {
            let h = &self.items[idx];
            proof {
                assert forall|j: int|
                    0 <= j < self@.len() && #[trigger] self@[j].t >= 0 implies h.t <= self@[j].t by {
                    if j < idx {
                        assert(self@[j].t < 0);
                    } else {
                        assert(self@[idx as int].t <= self@[j].t);
                    }
                }
            }
            Some(h)
        } else {
            None
        }
    }
}

impl<S> Default for Intersections<S> {
    fn default() -> (r: Intersections<S>)
        ensures
            r@.len() == 0,
            r.wf(),
    {
        Intersections::new()
    }
}

} // verus!
