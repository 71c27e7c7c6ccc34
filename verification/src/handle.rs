//! The handle manager: an arena of resource records addressed by a
//! generation-checked index.  Shared access is reference-counted; a record
//! is retired exactly when its reference count drops to zero, and a retired
//! slot is reused only under a fresh generation, so a retired handle never
//! resolves again.

use vstd::prelude::*;

verus! {

/// An opaque resource handle: an arena slot and the generation under which
/// the slot was occupied.
#[derive(Clone, Copy, Debug, PartialEq, Eq, Structural)]
pub struct Handle {
    pub index: usize,
    pub generation: u64,
}

/// One arena slot: its current generation, the reference count of the
/// record it holds, and the record itself while one is live.
#[derive(Clone, Copy, Debug)]
pub struct Slot<T> {
    pub generation: u64,
    pub refs: u64,
    pub value: Option<T>,
}

/// An arena of reference-counted resource records.
pub struct Arena<T> {
    pub slots: Vec<Slot<T>>,
}

impl<T: Copy> Arena<T> {
    /// Whether `h` addresses a live record: its slot exists, is occupied,
    /// and still carries the generation the handle was minted under.
    pub open spec fn live(self, h: Handle) -> bool {
        &&& h.index < self.slots@.len()
        &&& self.slots@[h.index as int].generation == h.generation
        &&& self.slots@[h.index as int].value is Some
    }

    /// The record a live handle addresses.
    pub open spec fn get(self, h: Handle) -> T {
        self.slots@[h.index as int].value->Some_0
    }

    /// The reference count of a live handle's record.
    pub open spec fn refs(self, h: Handle) -> u64 {
        self.slots@[h.index as int].refs
    }

    /// Well-formedness: every occupied slot holds at least one reference.
    pub open spec fn wf(self) -> bool {
        forall|j: int| 0 <= j < self.slots@.len() && self.slots@[j].value is Some
            ==> (#[trigger] self.slots@[j].refs) >= 1
    }

    /// An empty arena, in which no handle is live.
    pub fn new() -> (a: Arena<T>)
        ensures
            a.wf(),
            forall|h: Handle| !a.live(h),
    {
        Arena { slots: Vec::new() }
    }

    /// Registers a record with reference count one and returns its handle.
    /// The handle is fresh, and every other live handle keeps its record and
    /// reference count.
    pub fn register(&mut self, value: T) -> (h: Handle)
        requires
            old(self).wf(),
        ensures
            final(self).wf(),
            final(self).live(h),
            final(self).get(h) == value,
            final(self).refs(h) == 1,
            !old(self).live(h),
            forall|h2: Handle| h2 != h ==> (old(self).live(h2) <==> final(self).live(h2)),
            forall|h2: Handle| h2 != h && old(self).live(h2) ==> final(self).get(h2) == old(self).get(h2) && final(self).refs(h2) == old(self).refs(h2),
    {
        let n = self.slots.len();
        let mut i: usize = 0;
        while i < n
            invariant
                i <= n,
                n == self.slots@.len(),
                *self == *old(self),
                old(self).wf(),
                forall|j: int| 0 <= j < i ==> !(self.slots@[j].value is None
                    && self.slots@[j].generation < u64::MAX),
            decreases n - i,
        {
            let free = self.slots[i].value.is_none() && self.slots[i].generation < u64::MAX;
            if free {
                let generation = self.slots[i].generation + 1;
                self.slots[i] = Slot { generation, refs: 1, value: Some(value) };
                let h = Handle { index: i, generation };
                assert(forall|h2: Handle| h2 != h && old(self).live(h2) ==> h2.index != i as int);
                proof {
                    assert forall|j: int|
                        0 <= j < self.slots@.len() && self.slots@[j].value is Some implies (
                    #[trigger] self.slots@[j].refs) >= 1 by {
                        if j != i as int {
                            assert(self.slots@[j] == old(self).slots@[j]);
                        }
                    }
                }
                return h;
            }
            i = i + 1;
        }
        self.slots.push(Slot { generation: 0, refs: 1, value: Some(value) });
        let h = Handle { index: n, generation: 0 };
        assert(forall|h2: Handle| h2 != h && old(self).live(h2) ==> final(self).live(h2)
            && final(self).get(h2) == old(self).get(h2));
        h
    }

    /// Resolves a handle back to its record, or nothing where the handle is
    /// stale or was never minted by this arena.
    pub fn resolve(&self, h: Handle) -> (r: Option<T>)
        ensures
            r == if self.live(h) {
                Some(self.get(h))
            } else {
                None::<T>
            },
    {
        if h.index < self.slots.len() {
            let slot = &self.slots[h.index];
            if slot.generation == h.generation {
                slot.value
            } else {
                None
            }
        } else {
            None
        }
    }

    /// Takes one more reference to a live record.
    pub fn add_ref(&mut self, h: Handle)
        requires
            old(self).wf(),
            old(self).live(h),
            old(self).refs(h) < u64::MAX,
        ensures
            final(self).wf(),
            final(self).live(h),
            final(self).get(h) == old(self).get(h),
            final(self).refs(h) == old(self).refs(h) + 1,
            forall|h2: Handle| h2 != h ==> (old(self).live(h2) <==> final(self).live(h2)),
            forall|h2: Handle| h2 != h && old(self).live(h2) ==> final(self).get(h2) == old(self).get(h2) && final(self).refs(h2) == old(self).refs(h2),
    {
        let mut slot = self.slots[h.index];
        slot.refs = slot.refs + 1;
        self.slots[h.index] = slot;
    }

    /// Drops one reference to a live record, and retires the record exactly
    /// when this was the last reference; the handle then never resolves
    /// again.  Every other live handle keeps its record and count.
    pub fn release(&mut self, h: Handle) -> (retired: bool)
        requires
            old(self).wf(),
            old(self).live(h),
        ensures
            final(self).wf(),
            retired == (old(self).refs(h) == 1),
            retired ==> !final(self).live(h),
            !retired ==> final(self).live(h) && final(self).get(h) == old(self).get(h) && final(self).refs(h) == old(self).refs(h) - 1,
            forall|h2: Handle| h2 != h ==> (old(self).live(h2) <==> final(self).live(h2)),
            forall|h2: Handle| h2 != h && old(self).live(h2) ==> final(self).get(h2) == old(self).get(h2) && final(self).refs(h2) == old(self).refs(h2),
    {
        let mut slot = self.slots[h.index];
        if slot.refs == 1 {
            slot.refs = 0;
            slot.value = None;
            self.slots[h.index] = slot;
            true
        } else {
            slot.refs = slot.refs - 1;
            self.slots[h.index] = slot;
            false
        }
    }
}

} // verus!
