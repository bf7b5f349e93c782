//! Generational handle registry.
//!
//! An arena of slots, each carrying a generation counter. A handle names a
//! slot together with the generation it was issued under; removing an entry
//! leaves every handle to it permanently stale, because a slot's generation
//! is bumped each time the slot is filled and never decreases. Looking a
//! stale handle up answers "not found", never another entry's value.
use vstd::prelude::*;

verus! {

/// A name for one live registry entry: slot index plus the generation the
/// slot had when the entry was inserted.
#[derive(Copy, Clone, Debug, PartialEq, Eq, Hash, Structural)]
pub struct Handle {
    /// Which slot of the arena the entry lives in
    pub index: usize,
    /// Which filling of that slot this handle names
    pub generation: u64,
}

pub(crate) struct Slot<T> {
    /// Generation of the most recent filling of this slot; 0 before the first
    pub(crate) generation: u64,
    /// The entry, while one is live here
    pub(crate) value: Option<T>,
}

/// Registry mapping generational handles to owned entries.
pub struct HandleMap<T> {
    pub(crate) slots: Vec<Slot<T>>,
    /// Indices of empty slots available for reuse
    pub(crate) free: Vec<usize>,
}

impl<T> HandleMap<T> {
    /// Handle `h` currently names a live entry.
    pub open(crate) spec fn live(self, h: Handle) -> bool {
        &&& h.index < self.slots@.len()
        &&& self.slots@[h.index as int].generation == h.generation
        &&& self.slots@[h.index as int].value is Some
    }

    /// Handle `h` was issued once and its entry has since been removed.
    /// A stale handle is never live again: generations only grow.
    pub open(crate) spec fn stale(self, h: Handle) -> bool {
        &&& h.index < self.slots@.len()
        &&& 1 <= h.generation
        &&& {
            ||| h.generation < self.slots@[h.index as int].generation
            ||| (h.generation == self.slots@[h.index as int].generation
                && self.slots@[h.index as int].value is None)
        }
    }

    /// The live entries, as a map from handle to value.
    pub open(crate) spec fn contents(self) -> Map<Handle, T> {
        Map::new(
            |h: Handle| self.live(h),
            |h: Handle| self.slots@[h.index as int].value.unwrap(),
        )
    }

    /// The free list holds exactly reusable slots: in bounds, empty, and with
    /// room left in the generation counter; no index twice.
    pub open(crate) spec fn wf(self) -> bool {
        &&& forall|k: int| 0 <= k < self.free@.len() ==> {
            &&& (#[trigger] self.free@[k]) < self.slots@.len()
            &&& self.slots@[self.free@[k] as int].value is None
            &&& self.slots@[self.free@[k] as int].generation < u64::MAX
        }
        &&& forall|k1: int, k2: int|
            0 <= k1 < k2 < self.free@.len()
                ==> #[trigger] self.free@[k1] != #[trigger] self.free@[k2]
        &&& forall|i: int| 0 <= i < self.slots@.len() && (#[trigger] self.slots@[i].value) is Some
            ==> 1 <= self.slots@[i].generation
    }

    /// An empty registry.
    pub fn new() -> (r: Self)
        ensures
            r.wf(),
            r.contents() == Map::<Handle, T>::empty(),
            forall|h: Handle| !r.live(h) && !r.stale(h),
    {
        let r = HandleMap { slots: Vec::new(), free: Vec::new() };
        proof {
            assert(r.contents() =~= Map::<Handle, T>::empty());
        }
        r
    }

    /// Store `value` and issue a handle for it. The handle is fresh: it names
    /// no entry that is live, and no handle that was ever issued before.
    pub fn insert(&mut self, value: T) -> (h: Handle)
        requires
            old(self).wf(),
        ensures
            final(self).wf(),
            final(self).live(h),
            !old(self).live(h),
            !old(self).stale(h),
            1 <= h.generation,
            final(self).contents() == old(self).contents().insert(h, value),
            forall|h2: Handle| old(self).stale(h2) ==> final(self).stale(h2),
            forall|h2: Handle| old(self).live(h2) && h2 != h ==> final(self).live(h2),
    {
        let ghost pre = *old(self);
        let h: Handle;
        match self.free.pop() {
            Some(i) => {
                let g = self.slots[i].generation;
                self.slots[i] = Slot { generation: g + 1, value: Some(value) };
                h = Handle { index: i, generation: g + 1 };
            }
            None => {
                let i = self.slots.len();
                self.slots.push(Slot { generation: 1, value: Some(value) });
                h = Handle { index: i, generation: 1 };
            }
        }
        proof {
            assert(final(self).contents() =~= pre.contents().insert(h, value));
        }
        h
    }

    /// Look a handle up; answers the entry only while the handle is live.
    pub fn get(&self, h: Handle) -> (r: Option<&T>)
        ensures
            r is Some <==> self.contents().contains_key(h),
            r matches Some(v) ==> *v == self.contents()[h],
            self.stale(h) ==> r is None,
    {
        if h.index < self.slots.len() {
            let slot = &self.slots[h.index];
            if slot.generation == h.generation {
                slot.value.as_ref()
            } else {
                None
            }
        } else {
            None
        }
    }

    /// Mutable access to a live entry.
    pub fn get_mut(&mut self, h: Handle) -> (r: Option<&mut T>)
        requires
            old(self).wf(),
        ensures
            final(self).wf(),
            r is Some <==> old(self).contents().contains_key(h),
            r matches Some(v) ==> {
                &&& *v == old(self).contents()[h]
                &&& final(self).contents() =~= old(self).contents().insert(h, *final(v))
            },
            r is None ==> *final(self) == *old(self),
            forall|h2: Handle| old(self).stale(h2) <==> final(self).stale(h2),
            forall|h2: Handle| old(self).live(h2) <==> final(self).live(h2),
    {
        let found = h.index < self.slots.len() && self.slots[h.index].generation == h.generation
            && self.slots[h.index].value.is_some();
        if found {
            let slot = &mut self.slots[h.index];
            slot.value.as_mut()
        } else {
            None
        }
    }

    /// Take a live entry out. The handle becomes stale and stays so forever.
    /// Removing with a handle that is not live changes nothing.
    pub fn remove(&mut self, h: Handle) -> (r: Option<T>)
        requires
            old(self).wf(),
        ensures
            final(self).wf(),
            old(self).contents().contains_key(h) ==> {
                &&& r == Some(old(self).contents()[h])
                &&& final(self).contents() == old(self).contents().remove(h)
                &&& final(self).stale(h)
            },
            !old(self).contents().contains_key(h) ==> r is None && *final(self) == *old(self),
            forall|h2: Handle| old(self).stale(h2) ==> final(self).stale(h2),
            forall|h2: Handle| old(self).live(h2) && h2 != h ==> final(self).live(h2),
    {
        let ghost pre = *old(self);
        if h.index < self.slots.len() {
            let slot_generation = self.slots[h.index].generation;
            if slot_generation == h.generation && self.slots[h.index].value.is_some() {
                let slot = &mut self.slots[h.index];
                let value = slot.value.take();
                if slot_generation < u64::MAX {
                    self.free.push(h.index);
                }
                proof {
                    assert(final(self).contents() =~= pre.contents().remove(h));
                }
                value
            } else {
                None
            }
        } else {
            None
        }
    }
}

impl<T> Default for HandleMap<T> {
    /// An empty registry.
    fn default() -> (r: Self)
        ensures
            r.wf(),
            r.contents() == Map::<Handle, T>::empty(),
            forall|h: Handle| !r.live(h) && !r.stale(h),
    {
        HandleMap::new()
    }
}

/// No two live handles alias: distinct live handles always name distinct
/// slots, so they never reach the same entry.
pub proof fn lemma_live_handles_distinct<T>(m: HandleMap<T>, h1: Handle, h2: Handle)
    requires
        m.live(h1),
        m.live(h2),
        h1 != h2,
    ensures
        h1.index != h2.index,
{
}

/// A stale handle is never found: once an entry is removed, every lookup of
/// its handle answers "not found", whatever was inserted since.
pub proof fn lemma_stale_not_found<T>(m: HandleMap<T>, h: Handle)
    requires
        m.stale(h),
    ensures
        !m.contents().contains_key(h),
{
}

impl<T> HandleMap<T> {
    /// The live handles in slot order: the registry's canonical drawing
    /// and iteration order.
    pub open(crate) spec fn live_handles_upto(self, n: int) -> Seq<Handle>
        decreases n,
    {
        if n <= 0 {
            Seq::empty()
        } else {
            self.live_handles_upto(n - 1) + if self.slots@[n - 1].value is Some {
                seq![
                    Handle {
                        index: (n - 1) as usize,
                        generation: self.slots@[n - 1].generation,
                    },
                ]
            } else {
                Seq::empty()
            }
        }
    }

    pub open(crate) spec fn live_handles(self) -> Seq<Handle> {
        self.live_handles_upto(self.slots@.len() as int)
    }

    /// The live entries in slot order, as handle-value pairs.
    pub open(crate) spec fn live_pairs_upto(self, n: int) -> Seq<(Handle, T)>
        decreases n,
    {
        if n <= 0 {
            Seq::empty()
        } else {
            self.live_pairs_upto(n - 1) + if self.slots@[n - 1].value is Some {
                seq![
                    (
                        Handle {
                            index: (n - 1) as usize,
                            generation: self.slots@[n - 1].generation,
                        },
                        self.slots@[n - 1].value.unwrap(),
                    ),
                ]
            } else {
                Seq::empty()
            }
        }
    }

    pub open(crate) spec fn live_pairs(self) -> Seq<(Handle, T)> {
        self.live_pairs_upto(self.slots@.len() as int)
    }

    /// The live handles, in slot order.
    pub fn iter(&self) -> (r: Vec<Handle>)
        ensures
            r@ == self.live_handles(),
    {
        let mut r: Vec<Handle> = Vec::new();
        let mut i: usize = 0;
        while i < self.slots.len()
            invariant
                i <= self.slots@.len(),
                r@ == self.live_handles_upto(i as int),
            decreases self.slots@.len() - i,
        {
            if self.slots[i].value.is_some() {
                r.push(Handle { index: i, generation: self.slots[i].generation });
            }
            proof {
                assert(r@ =~= self.live_handles_upto(i + 1));
            }
            i = i + 1;
        }
        r
    }

    /// Empty the registry, handing every live entry out with its handle,
    /// in slot order. Every handle that was live becomes stale.
    pub fn drain(&mut self) -> (r: Vec<(Handle, T)>)
        requires
            old(self).wf(),
        ensures
            final(self).wf(),
            r@ == old(self).live_pairs(),
            final(self).contents() == Map::<Handle, T>::empty(),
            forall|h: Handle| old(self).stale(h) ==> final(self).stale(h),
            forall|h: Handle| old(self).live(h) ==> final(self).stale(h),
    {
        let ghost pre = *old(self);
        let mut r: Vec<(Handle, T)> = Vec::new();
        let mut i: usize = 0;
        let n = self.slots.len();
        while i < n
            invariant
                i <= n,
                n == self.slots@.len(),
                n == pre.slots@.len(),
                self.wf(),
                r@ == pre.live_pairs_upto(i as int),
                forall|j: int| i <= j < n ==> self.slots@[j] == pre.slots@[j],
                forall|j: int|
                    0 <= j < i ==> (#[trigger] self.slots@[j]).value is None
                        && self.slots@[j].generation == pre.slots@[j].generation,
            decreases n - i,
        {
            let g = self.slots[i].generation;
            if self.slots[i].value.is_some() {
                let slot = &mut self.slots[i];
                let v = slot.value.take().unwrap();
                if g < u64::MAX {
                    self.free.push(i);
                }
                r.push((Handle { index: i, generation: g }, v));
            }
            proof {
                assert(r@ =~= pre.live_pairs_upto(i + 1));
            }
            i = i + 1;
        }
        proof {
            assert(final(self).contents() =~= Map::<Handle, T>::empty());
        }
        r
    }
}

} // verus!
