//! Per-pass allocator for binding-slot indices.
//!
//! A `Bitsfield` tracks which of a fixed pool of integer slots are already
//! reserved for the current binding pass. It is created fresh for each pass
//! with a capacity taken from a queried hardware limit, and discarded when
//! the pass ends.

use vstd::prelude::*;

verus! {

/// The lowest index at which `points` is `false`, if any.
pub open spec fn first_free(points: Seq<bool>) -> Option<int>
    decreases points.len(),
{
    if points.len() == 0 {
        None
    } else if !points[0] {
        Some(0int)
    } else {
        match first_free(points.drop_first()) {
            Some(i) => Some(i + 1),
            None => None,
        }
    }
}

/// `first_free` returns exactly the lowest free index: a free index below
/// every other free index, or `None` when every slot is taken.
pub proof fn lemma_first_free(points: Seq<bool>)
    ensures
        match first_free(points) {
            Some(i) => 0 <= i < points.len() && !points[i]
                && forall|j: int| 0 <= j < i ==> points[j],
            None => forall|j: int| 0 <= j < points.len() ==> points[j],
        },
    decreases points.len(),
{
    if points.len() > 0 && points[0] {
        lemma_first_free(points.drop_first());
        match first_free(points.drop_first()) {
            Some(i) => {
                assert forall|j: int| 0 <= j < i + 1 implies points[j] by {
                    if j > 0 {
                        assert(points.drop_first()[j - 1]);
                    }
                }
            },
            None => {
                assert forall|j: int| 0 <= j < points.len() implies points[j] by {
                    if j > 0 {
                        assert(points.drop_first()[j - 1]);
                    }
                }
            },
        }
    }
}

/// A fixed-capacity set of binding-slot indices, each either reserved for the
/// current pass or free.
pub struct Bitsfield {
    used: Vec<bool>,
}

impl Bitsfield {
    /// Which slots are reserved; the sequence length is the pool capacity.
    pub closed spec fn view(&self) -> Seq<bool> {
        self.used@
    }

    /// Capacities come from `u16` hardware limits, so the pool always fits.
    pub closed spec fn wf(&self) -> bool {
        self.used@.len() <= u16::MAX
    }

    /// A fresh pool of `capacity` slots, all free.
    pub fn new(capacity: u16) -> (r: Bitsfield)
        ensures
            r@ == Seq::new(capacity as nat, |i: int| false),
            r.wf(),
    {
        let mut used: Vec<bool> = Vec::new();
        let mut i: u16 = 0;
        while i < capacity
            invariant
                i <= capacity,
                used@ =~= Seq::new(i as nat, |j: int| false),
            decreases capacity - i,
        {
            used.push(false);
            i = i + 1;
        }
        assert(used@ =~= Seq::new(capacity as nat, |i: int| false));
        Bitsfield { used }
    }

    /// How many slots the pool has.
    pub fn capacity(&self) -> (r: u16)
        requires
            self.wf(),
        ensures
            r as int == self@.len(),
    {
        self.used.len() as u16
    }

    /// Whether slot `index` is reserved for this pass.
    pub fn is_used(&self, index: u16) -> (r: bool)
        requires
            index < self@.len(),
        ensures
            r == self@[index as int],
    {
        self.used[index as usize]
    }

    /// Reserve slot `index` for this pass.
    pub fn set_used(&mut self, index: u16)
        requires
            index < old(self)@.len(),
        ensures
            final(self)@ == old(self)@.update(index as int, true),
            final(self).wf() == old(self).wf(),
    {
        self.used.set(index as usize, true);
    }

    /// The lowest free slot, or `None` when the pool is exhausted.
    pub fn get_unused(&self) -> (r: Option<u16>)
        requires
            self.wf(),
        ensures
            match r {
                Some(i) => first_free(self@) == Some(i as int),
                None => first_free(self@) is None,
            },
    {
        let mut i: usize = 0;
        while i < self.used.len()
            invariant
                i <= self.used@.len(),
                self.used@.len() <= u16::MAX,
                forall|j: int| 0 <= j < i ==> self.used@[j],
            decreases self.used@.len() - i,
        {
            if !self.used[i] {
                proof {
                    lemma_first_free(self@);
                    match first_free(self@) {
                        Some(k) => {
                            assert(!self@[k]);
                            assert(!self@[i as int]);
                            assert(k == i as int);
                        },
                        None => {
                            assert(self@[i as int]);
                        },
                    }
                }
                return Some(i as u16);
            }
            i = i + 1;
        }
        proof {
            lemma_first_free(self@);
        }
        None
    }
}

} // verus!
