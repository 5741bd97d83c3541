//! The payload-direct variant.
//!
//! An [`OffsetArc`] is an owned handle whose stored word is the payload
//! address itself rather than the allocation's head — bit-identical to a
//! plain foreign pointer to the payload, which is what makes it usable in
//! foreign signatures. With raw memory the two forms differ by exactly the
//! layout engine's header offset; in the store model both name the payload by
//! its slot, so the conversions are identity on that name, and the contracts
//! state what matters: converting touches neither identity nor counter.

use crate::arc::{Arc, MemoryOrder, MAX_REFCOUNT};
use crate::heap::{
    decr_at, incr_at, slot_count, slot_init, slot_live, slot_value, with_count, Heap, SlotModel,
    MAX_SLOTS,
};
use core::marker::PhantomData;
use vstd::pervasive::cloned;
use vstd::prelude::*;

verus! {

/// An owned handle aimed straight at the payload: one counter unit, same as
/// an [`Arc`], in the representation a foreign caller expects.
#[derive(Debug)]
pub struct OffsetArc<T> {
    idx: usize,
    marker: PhantomData<T>,
}

/// A non-owning alias in the payload-direct representation.
#[derive(Clone, Copy, Debug)]
pub struct OffsetArcBorrow<T> {
    idx: usize,
    marker: PhantomData<T>,
}

impl<T> Arc<T> {
    /// Convert into the payload-direct form. Allocation identity and counter
    /// are untouched: the handle's one unit simply changes representation.
    pub fn into_raw_offset(this: Self) -> (r: OffsetArc<T>)
        ensures
            r.id() == this.id(),
    {
        OffsetArc { idx: Arc::into_raw(this), marker: PhantomData }
    }

    /// Convert a payload-direct handle back; identity and counter untouched.
    pub fn from_raw_offset(a: OffsetArc<T>) -> (r: Self)
        ensures
            r.id() == a.id(),
    {
        Arc::from_raw(a.idx)
    }

    /// View this handle through the payload-direct form for the duration of
    /// one callback, with no counter traffic at all: the callback's view is a
    /// transient handle over the same allocation, kept live by `this`.
    pub fn with_raw_offset_arc<U, F: FnOnce(&OffsetArc<T>) -> U>(this: &Self, f: F) -> (r: U)
        requires
            forall|a: OffsetArc<T>| a.id() == this.id() ==> call_requires(f, (&a,)),
        ensures
            exists|a: OffsetArc<T>| a.id() == this.id() && call_ensures(f, (&a,), r),
    {
        let transient = OffsetArc { idx: Arc::as_ptr(this), marker: PhantomData };
        proof {
            assert(transient.id() == this.id());
            assert(call_requires(f, (&transient,)));
        }
        let r = f(&transient);
        proof {
            assert(transient.id() == this.id() && call_ensures(f, (&transient,), r));
        }
        r
    }
}

impl<T> OffsetArc<T> {
    /// The identity of the allocation this handle counts toward.
    pub closed spec fn id(&self) -> int {
        self.idx as int
    }

    /// The handle points at a live allocation of `heap`.
    pub open spec fn wf(&self, heap: Heap<T>) -> bool {
        &&& 0 <= self.id() < heap@.len()
        &&& slot_live(heap@[self.id()])
    }

    /// Reconstruct a transient [`Arc`] over the same allocation and expose it
    /// to the callback, with no counter traffic: the transient view is kept
    /// live by `this`, so the hot path pays for no atomic at all.
    pub fn with_arc<U, F: FnOnce(&Arc<T>) -> U>(this: &Self, f: F) -> (r: U)
        requires
            forall|a: Arc<T>| a.id() == this.id() ==> call_requires(f, (&a,)),
        ensures
            exists|a: Arc<T>| a.id() == this.id() && call_ensures(f, (&a,), r),
    {
        let transient = Arc::from_raw(this.idx);
        proof {
            assert(transient.id() == this.id());
            assert(call_requires(f, (&transient,)));
        }
        let r = f(&transient);
        proof {
            assert(transient.id() == this.id() && call_ensures(f, (&transient,), r));
        }
        r
    }

    /// Borrow the payload.
    pub fn get<'a>(this: &Self, heap: &'a Heap<T>) -> (r: &'a T)
        requires
            this.wf(*heap),
            slot_init(heap@[this.id()]),
        ensures
            *r == slot_value(heap@[this.id()]),
    {
        Arc::get(&Arc::from_raw(this.idx), heap)
    }

    /// Clone this handle as a plain [`Arc`], adding one counter unit.
    pub fn clone_arc(this: &Self, heap: &mut Heap<T>) -> (r: Arc<T>)
        requires
            old(heap).wf(),
            this.wf(*old(heap)),
            slot_count(old(heap)@[this.id()]) <= MAX_REFCOUNT,
        ensures
            final(heap).wf(),
            r.id() == this.id(),
            final(heap)@ == incr_at(old(heap)@, this.id()),
            r.wf(*final(heap)),
            this.wf(*final(heap)),
    {
        Arc::from_raw(this.idx).clone(heap)
    }

    /// Produce a payload-direct alias; no counter change.
    pub fn borrow_arc(this: &Self) -> (r: OffsetArcBorrow<T>)
        ensures
            r.id() == this.id(),
    {
        OffsetArcBorrow { idx: this.idx, marker: PhantomData }
    }

    /// Whether this handle holds the only counter unit.
    pub fn is_unique(this: &Self, heap: &Heap<T>) -> (r: bool)
        requires
            this.wf(*heap),
        ensures
            r == (slot_count(heap@[this.id()]) == 1),
    {
        Arc::is_unique(&Arc::from_raw(this.idx), heap)
    }

    /// The current value of the allocation's reference counter.
    pub fn count(this: &Self, heap: &Heap<T>) -> (c: usize)
        requires
            this.wf(*heap),
        ensures
            c == slot_count(heap@[this.id()]),
    {
        Arc::count(&Arc::from_raw(this.idx), heap)
    }

    /// The counter as read under the given load ordering; the sequential
    /// store observes the exact counter under every ordering.
    pub fn load_count(this: &Self, heap: &Heap<T>, order: MemoryOrder) -> (c: usize)
        requires
            this.wf(*heap),
        ensures
            c == slot_count(heap@[this.id()]),
    {
        Arc::load_count(&Arc::from_raw(this.idx), heap, order)
    }

    /// Give this handle's counter unit back, freeing the allocation exactly
    /// when the last unit leaves.
    pub fn drop(self, heap: &mut Heap<T>)
        requires
            old(heap).wf(),
            self.wf(*old(heap)),
        ensures
            final(heap).wf(),
            final(heap)@ == decr_at(old(heap)@, self.id()),
    {
        Arc::from_raw(self.idx).drop(heap)
    }
}

impl<T: Clone> OffsetArc<T> {
    /// Make a mutable reference to the payload, cloning if necessary: the
    /// handle is read out of its slot, treated as a plain [`Arc`], taken
    /// through copy-on-write, and the (possibly repointed) result is written
    /// back in the payload-direct representation.
    pub fn make_mut<'a>(this: &mut OffsetArc<T>, heap: &'a mut Heap<T>) -> (r: &'a mut T)
        requires
            old(heap).wf(),
            old(this).wf(*old(heap)),
            slot_init(old(heap)@[old(this).id()]),
            slot_count(old(heap)@[old(this).id()]) == 1 || old(heap)@.len() < MAX_SLOTS,
        ensures
            final(heap).wf(),
            final(this).wf(*final(heap)),
            final(heap)@[final(this).id()] == (SlotModel::Init { count: 1, value: *final(r) }),
            cloned::<T>(slot_value(old(heap)@[old(this).id()]), *r),
            slot_count(old(heap)@[old(this).id()]) == 1 ==> {
                &&& *final(this) == *old(this)
                &&& *r == slot_value(old(heap)@[old(this).id()])
                &&& final(heap)@ == old(heap)@.update(
                    old(this).id(),
                    SlotModel::Init { count: 1, value: *final(r) },
                )
            },
            slot_count(old(heap)@[old(this).id()]) > 1 ==> {
                &&& final(this).id() == old(heap)@.len()
                &&& final(heap)@.len() == old(heap)@.len() + 1
                &&& final(heap)@[old(this).id()] == with_count(
                    old(heap)@[old(this).id()],
                    (slot_count(old(heap)@[old(this).id()]) - 1) as nat,
                )
            },
            forall|j: int|
                0 <= j < old(heap)@.len() && j != old(this).id() && j != final(this).id()
                    ==> final(heap)@[j] == old(heap)@[j],
    {
        let mut arc = Arc::from_raw(this.idx);
        let r = Arc::make_mut(&mut arc, heap);
        this.idx = Arc::into_raw(arc);
        r
    }
}

impl<T> OffsetArcBorrow<T> {
    /// The identity of the aliased allocation.
    pub closed spec fn id(&self) -> int {
        self.idx as int
    }

    /// The alias points at a live allocation of `heap`.
    pub open spec fn wf(&self, heap: Heap<T>) -> bool {
        &&& 0 <= self.id() < heap@.len()
        &&& slot_live(heap@[self.id()])
    }

    /// Clone this alias into a true owned handle, adding one counter unit.
    pub fn clone_arc(this: Self, heap: &mut Heap<T>) -> (r: Arc<T>)
        requires
            old(heap).wf(),
            this.wf(*old(heap)),
            slot_count(old(heap)@[this.id()]) <= MAX_REFCOUNT,
        ensures
            final(heap).wf(),
            r.id() == this.id(),
            final(heap)@ == incr_at(old(heap)@, this.id()),
            r.wf(*final(heap)),
    {
        Arc::from_raw(this.idx).clone(heap)
    }

    /// Borrow the payload.
    pub fn get<'a>(this: &Self, heap: &'a Heap<T>) -> (r: &'a T)
        requires
            this.wf(*heap),
            slot_init(heap@[this.id()]),
        ensures
            *r == slot_value(heap@[this.id()]),
    {
        Arc::get(&Arc::from_raw(this.idx), heap)
    }

    /// Compare two aliases by allocation identity.
    pub fn ptr_eq(this: Self, other: Self) -> (r: bool)
        ensures
            r == (this.id() == other.id()),
    {
        this.idx == other.idx
    }
}

} // verus!
