//! The allocation store.
//!
//! Real reference-counted pointers share one heap allocation that holds an
//! atomic counter followed by the payload. This crate models that shared
//! mutable state explicitly: a [`Heap`] owns every allocation, a handle holds
//! the index of its allocation, and each operation says in its contract
//! exactly how it changes the store. Aliasing that a verifier cannot track
//! through raw pointers becomes aliasing of indices into one owned structure,
//! which it can.

use crate::arc::{ArcInner, MAX_REFCOUNT};
use vstd::pervasive::VecAdditionalExecFns;
use vstd::prelude::*;

verus! {

/// The largest number of allocations one [`Heap`] will hold. Keeping slot
/// indices at or below this bound leaves one low bit free when an index is
/// packed into a tagged word, just as pointer alignment does for addresses.
pub const MAX_SLOTS: usize = usize::MAX / 2;

/// The state of one allocation as contracts see it: gone, allocated but not
/// yet initialized, or initialized with `count` owned handles outstanding.
pub enum SlotModel<T> {
    /// No allocation: never allocated, or deallocated by the last owner.
    Vacant,
    /// Allocated with an uninitialized payload slot.
    Uninit { count: nat },
    /// Allocated and initialized.
    Init { count: nat, value: T },
}

/// How many counter units the slot currently carries.
pub open spec fn slot_count<T>(s: SlotModel<T>) -> nat {
    match s {
        SlotModel::Vacant => 0,
        SlotModel::Uninit { count } => count,
        SlotModel::Init { count, .. } => count,
    }
}

/// Whether the slot is an allocation at all (initialized or not).
pub open spec fn slot_live<T>(s: SlotModel<T>) -> bool {
    !(s is Vacant)
}

/// Whether the slot holds an initialized payload.
pub open spec fn slot_init<T>(s: SlotModel<T>) -> bool {
    s is Init
}

/// The payload of an initialized slot.
pub open spec fn slot_value<T>(s: SlotModel<T>) -> T
    recommends
        slot_init(s),
{
    match s {
        SlotModel::Init { value, .. } => value,
        _ => vstd::pervasive::arbitrary(),
    }
}

/// The same slot with its counter replaced by `c`.
pub open spec fn with_count<T>(s: SlotModel<T>, c: nat) -> SlotModel<T> {
    match s {
        SlotModel::Vacant => SlotModel::Vacant,
        SlotModel::Uninit { .. } => SlotModel::Uninit { count: c },
        SlotModel::Init { value, .. } => SlotModel::Init { count: c, value },
    }
}

/// The store after one more counter unit was added to slot `i`.
pub open spec fn incr_at<T>(h: Seq<SlotModel<T>>, i: int) -> Seq<SlotModel<T>> {
    h.update(i, with_count(h[i], slot_count(h[i]) + 1))
}

/// The store after one counter unit left slot `i`: the slot survives with one
/// unit fewer, or is deallocated exactly when the last unit leaves.
pub open spec fn decr_at<T>(h: Seq<SlotModel<T>>, i: int) -> Seq<SlotModel<T>> {
    if slot_count(h[i]) <= 1 {
        h.update(i, SlotModel::Vacant)
    } else {
        h.update(i, with_count(h[i], (slot_count(h[i]) - 1) as nat))
    }
}

/// One allocation as stored: the counter/payload record, an allocated but
/// uninitialized record, or a vacant slot left behind by deallocation.
pub(crate) enum Slot<T> {
    Vacant,
    Uninit { count: usize },
    Occupied(ArcInner<T>),
}

impl<T> Slot<T> {
    pub(crate) open spec fn model(self) -> SlotModel<T> {
        match self {
            Slot::Vacant => SlotModel::Vacant,
            Slot::Uninit { count } => SlotModel::Uninit { count: count as nat },
            Slot::Occupied(inner) => SlotModel::Init {
                count: inner.count as nat,
                value: inner.data,
            },
        }
    }
}

/// The store of all allocations. It stands in for the global allocator: a
/// handle's "address" is an index into this store, and deallocated slots stay
/// vacant rather than being reused, so distinct allocations never share an
/// identity.
pub struct Heap<T> {
    slots: Vec<Slot<T>>,
}

impl<T> View for Heap<T> {
    type V = Seq<SlotModel<T>>;

    closed spec fn view(&self) -> Seq<SlotModel<T>> {
        self.slots@.map_values(|s: Slot<T>| s.model())
    }
}

impl<T> Heap<T> {
    /// A live slot always carries at least one counter unit, and the store
    /// never outgrows the index range that tagged words can carry.
    pub open spec fn wf(&self) -> bool {
        &&& self@.len() <= MAX_SLOTS
        &&& forall|i: int|
            0 <= i < self@.len() && slot_live(#[trigger] self@[i]) ==> slot_count(self@[i]) >= 1
    }

    /// An empty store with no allocations.
    pub fn new() -> (h: Heap<T>)
        ensures
            h.wf(),
            h@ == Seq::<SlotModel<T>>::empty(),
    {
        let h = Heap { slots: Vec::new() };
        proof {
            assert(h@ =~= Seq::<SlotModel<T>>::empty());
        }
        h
    }

    /// Allocate a fresh slot holding `data` with its counter at one.
    pub(crate) fn allocate(&mut self, data: T) -> (i: usize)
        requires
            old(self).wf(),
            old(self)@.len() < MAX_SLOTS,
        ensures
            final(self).wf(),
            i == old(self)@.len(),
            final(self)@ == old(self)@.push(SlotModel::Init { count: 1, value: data }),
    {
        let i = self.slots.len();
        self.slots.push(Slot::Occupied(ArcInner { count: 1, data }));
        proof {
            assert(self@ =~= old(self)@.push(SlotModel::Init { count: 1nat, value: data }));
        }
        i
    }

    /// Allocate a fresh slot with an uninitialized payload and its counter at
    /// one.
    pub(crate) fn allocate_uninit(&mut self) -> (i: usize)
        requires
            old(self).wf(),
            old(self)@.len() < MAX_SLOTS,
        ensures
            final(self).wf(),
            i == old(self)@.len(),
            final(self)@ == old(self)@.push(SlotModel::Uninit { count: 1 }),
    {
        let i = self.slots.len();
        self.slots.push(Slot::Uninit { count: 1 });
        proof {
            assert(self@ =~= old(self)@.push(SlotModel::Uninit { count: 1nat }));
        }
        i
    }

    /// Read the counter of slot `i`.
    pub(crate) fn count_of(&self, i: usize) -> (c: usize)
        requires
            i < self@.len(),
        ensures
            c == slot_count(self@[i as int]),
    {
        match &self.slots[i] {
            Slot::Vacant => 0,
            Slot::Uninit { count } => *count,
            Slot::Occupied(inner) => inner.count,
        }
    }

    /// Add one counter unit to the live slot `i`.
    pub(crate) fn incr(&mut self, i: usize)
        requires
            old(self).wf(),
            i < old(self)@.len(),
            slot_live(old(self)@[i as int]),
            slot_count(old(self)@[i as int]) <= MAX_REFCOUNT,
        ensures
            final(self).wf(),
            final(self)@ == incr_at(old(self)@, i as int),
    {
        match &mut self.slots[i] {
            Slot::Vacant => {
                proof {
                    assert(false);
                }
            },
            Slot::Uninit { count } => {
                *count = *count + 1;
            },
            Slot::Occupied(inner) => {
                inner.count = inner.count + 1;
            },
        }
        proof {
            assert(self@ =~= incr_at(old(self)@, i as int));
        }
    }

    /// Remove one counter unit from the live slot `i`; the last unit's
    /// departure deallocates the slot (and with it the payload).
    pub(crate) fn decr(&mut self, i: usize)
        requires
            old(self).wf(),
            i < old(self)@.len(),
            slot_live(old(self)@[i as int]),
        ensures
            final(self).wf(),
            final(self)@ == decr_at(old(self)@, i as int),
    {
        let c = self.count_of(i);
        if c <= 1 {
            self.slots.set(i, Slot::Vacant);
        } else {
            match &mut self.slots[i] {
                Slot::Vacant => {
                    proof {
                        assert(false);
                    }
                },
                Slot::Uninit { count } => {
                    *count = *count - 1;
                },
                Slot::Occupied(inner) => {
                    inner.count = inner.count - 1;
                },
            }
        }
        proof {
            assert(self@ =~= decr_at(old(self)@, i as int));
        }
    }

    /// Borrow the payload of the initialized slot `i`.
    pub(crate) fn read(&self, i: usize) -> (r: &T)
        requires
            i < self@.len(),
            slot_init(self@[i as int]),
        ensures
            *r == slot_value(self@[i as int]),
    {
        match &self.slots[i] {
            Slot::Occupied(inner) => &inner.data,
            _ => vstd::pervasive::unreached(),
        }
    }

    /// Store `v` as the payload of the live slot `i`, keeping its counter.
    pub(crate) fn put(&mut self, i: usize, v: T)
        requires
            old(self).wf(),
            i < old(self)@.len(),
            slot_live(old(self)@[i as int]),
        ensures
            final(self).wf(),
            final(self)@ == old(self)@.update(
                i as int,
                SlotModel::Init { count: slot_count(old(self)@[i as int]), value: v },
            ),
    {
        let c = self.count_of(i);
        self.slots.set(i, Slot::Occupied(ArcInner { count: c, data: v }));
        proof {
            assert(self@ =~= old(self)@.update(
                i as int,
                SlotModel::Init { count: slot_count(old(self)@[i as int]), value: v },
            ));
        }
    }

    /// Move the payload out of the initialized slot `i`, which must hold its
    /// last counter unit, and deallocate the slot.
    pub(crate) fn take(&mut self, i: usize) -> (v: T)
        requires
            old(self).wf(),
            i < old(self)@.len(),
            slot_init(old(self)@[i as int]),
            slot_count(old(self)@[i as int]) == 1,
        ensures
            final(self).wf(),
            v == slot_value(old(self)@[i as int]),
            final(self)@ == old(self)@.update(i as int, SlotModel::Vacant),
    {
        let mut slot = Slot::Vacant;
        self.slots.set_and_swap(i, &mut slot);
        proof {
            assert(self@ =~= old(self)@.update(i as int, SlotModel::Vacant));
        }
        match slot {
            Slot::Occupied(inner) => inner.data,
            _ => vstd::pervasive::unreached(),
        }
    }

    /// Mutably borrow the payload of the initialized slot `i`.
    pub(crate) fn data_mut(&mut self, i: usize) -> (r: &mut T)
        requires
            old(self).wf(),
            i < old(self)@.len(),
            slot_init(old(self)@[i as int]),
        ensures
            *r == slot_value(old(self)@[i as int]),
            final(self)@ == old(self)@.update(
                i as int,
                SlotModel::Init {
                    count: slot_count(old(self)@[i as int]),
                    value: *final(r),
                },
            ),
    {
        let slot = &mut self.slots[i];
        match slot {
            Slot::Occupied(inner) => &mut inner.data,
            _ => vstd::pervasive::unreached(),
        }
    }

    /// Whether slot `i` is live and initialized.
    pub(crate) fn init_at(&self, i: usize) -> (b: bool)
        requires
            i < self@.len(),
        ensures
            b == slot_init(self@[i as int]),
    {
        match &self.slots[i] {
            Slot::Occupied(..) => true,
            _ => false,
        }
    }

    /// The number of slots ever allocated, vacant ones included.
    pub fn len(&self) -> (n: usize)
        ensures
            n == self@.len(),
    {
        self.slots.len()
    }
}

} // verus!
