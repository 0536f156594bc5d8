//! The set of targets still standing in the active level.

use vstd::prelude::*;
use vstd::set_lib::{lemma_int_range, set_int_range};

verus! {

/// Which of a level's targets are still alive, by their index in the level
/// definition. Removing a target twice is the same as removing it once.
#[derive(Debug)]
pub struct TargetSet {
    alive: Vec<bool>,
    live: usize,
}

impl View for TargetSet {
    type V = Set<int>;

    closed spec fn view(&self) -> Set<int> {
        Set::new(|t: int| 0 <= t < self.alive@.len() && self.alive@[t])
    }
}

impl TargetSet {
    /// How many targets the level started with.
    pub closed spec fn total(&self) -> nat {
        self.alive@.len()
    }

    /// The stored count agrees with the set.
    pub closed spec fn counted(&self) -> bool {
        self.live == self@.len()
    }

    /// The set is finite, holds only indices below the total, and its size
    /// is known.
    pub open spec fn wf(&self) -> bool {
        &&& self@.finite()
        &&& self.counted()
        &&& self@.len() <= self.total() <= usize::MAX
        &&& forall|t: int| self@.contains(t) ==> 0 <= t < self.total()
    }

    /// All `n` targets alive.
    pub fn full(n: usize) -> (s: TargetSet)
        ensures
            s.wf(),
            s.total() == n,
            s@ == set_int_range(0, n as int),
            s@.len() == n,
    {
        let mut alive: Vec<bool> = Vec::new();
        let mut i: usize = 0;
        while i < n
            invariant
                i <= n,
                alive@.len() == i,
                forall|t: int| 0 <= t < i ==> alive@[t],
            decreases n - i,
        {
            alive.push(true);
            i = i + 1;
        }
        let s = TargetSet { alive, live: n };
        proof {
            lemma_int_range(0, n as int);
            assert(s@ =~= set_int_range(0, n as int));
        }
        s
    }

    /// How many targets the level started with.
    pub fn capacity(&self) -> (n: usize)
        ensures
            n == self.total(),
    {
        self.alive.len()
    }

    /// Number of targets still alive.
    pub fn len(&self) -> (n: usize)
        requires
            self.wf(),
        ensures
            n == self@.len(),
    {
        self.live
    }

    /// Whether no target is left.
    pub fn is_empty(&self) -> (b: bool)
        requires
            self.wf(),
        ensures
            b == (self@.len() == 0),
            b == self@.is_empty(),
    {
        proof {
            if self@.len() == 0 {
                self@.lemma_len0_is_empty();
            }
        }
        self.live == 0
    }

    /// Whether target `t` is still alive.
    pub fn contains(&self, t: usize) -> (b: bool)
        ensures
            b == self@.contains(t as int),
    {
        t < self.alive.len() && self.alive[t]
    }

    /// Removes target `t` if it is alive, and says whether it was.
    pub fn remove(&mut self, t: usize) -> (removed: bool)
        requires
            old(self).wf(),
        ensures
            final(self).wf(),
            final(self).total() == old(self).total(),
            final(self)@ == old(self)@.remove(t as int),
            removed == old(self)@.contains(t as int),
    {
        if t < self.alive.len() && self.alive[t] {
            proof {
                assert(self@.contains(t as int));
                if self@.len() == 0 {
                    self@.lemma_len0_is_empty();
                }
            }
            self.alive.set(t, false);
            self.live = self.live - 1;
            proof {
                assert(self@ =~= old(self)@.remove(t as int));
            }
            true
        } else {
            proof {
                assert(self@ =~= old(self)@.remove(t as int));
            }
            false
        }
    }
}

} // verus!
