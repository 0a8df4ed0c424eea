//! A write-once set of field elements: the commitment registry and the
//! nullifier registry are both one of these.

use vstd::prelude::*;
use crate::uint::U256;

verus! {

pub struct Registry {
    /// The members in the order they were added, each once.
    pub entries: Vec<U256>,
}

impl View for Registry {
    type V = Set<U256>;

    open spec fn view(&self) -> Set<U256> {
        self.entries@.to_set()
    }
}

impl Registry {
    pub open spec fn wf(&self) -> bool {
        self.entries@.no_duplicates()
    }

    pub fn new() -> (r: Registry)
        ensures
            r.wf(),
            r@ == Set::<U256>::empty(),
    {
        let r = Registry { entries: Vec::new() };
        assert(r@ =~= Set::<U256>::empty());
        r
    }

    pub fn contains(&self, x: U256) -> (r: bool)
        ensures
            r == self@.contains(x),
    {
        let mut i: usize = 0;
        while i < self.entries.len()
            invariant
                i <= self.entries@.len(),
                forall|j: int| 0 <= j < i ==> self.entries@[j] != x,
            decreases self.entries@.len() - i,
        {
            if self.entries[i] == x {
                assert(self.entries@[i as int] == x);
                return true;
            }
            i = i + 1;
        }
        false
    }

    /// Adds a value that is not yet a member.
    pub fn add(&mut self, x: U256)
        requires
            old(self).wf(),
            !old(self)@.contains(x),
        ensures
            final(self).wf(),
            final(self)@ == old(self)@.insert(x),
            final(self).entries@ == old(self).entries@.push(x),
    {
        let ghost before = self.entries@;
        self.entries.push(x);
        assert(self.entries@.to_set() =~= before.to_set().insert(x)) by {
            assert forall|y: U256| #[trigger] self.entries@.contains(y) <==> before.contains(y) || y == x by {
                if self.entries@.contains(y) && y != x {
                    let j = choose|j: int| 0 <= j < self.entries@.len() && self.entries@[j] == y;
                    assert(before[j] == y);
                }
                if before.contains(y) {
                    let j = choose|j: int| 0 <= j < before.len() && before[j] == y;
                    assert(self.entries@[j] == y);
                }
                if y == x {
                    assert(self.entries@[before.len() as int] == y);
                }
            }
        }
    }

    /// The number of members.
    pub fn len(&self) -> (r: usize)
        ensures
            r == self.entries@.len(),
    {
        self.entries.len()
    }
}

} // verus!
