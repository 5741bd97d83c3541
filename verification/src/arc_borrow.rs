//! The borrowed alias.
//!
//! An [`ArcBorrow`] names the same allocation an [`Arc`] does but owns zero
//! counter units: copying one is free and discarding one changes nothing.
//! In exchange, every use must prove the allocation live against the current
//! store: the caller-guaranteed "the counter stays above zero for the alias's
//! whole lifetime" obligation — undefined behavior to break with raw
//! pointers — becomes a proof obligation here.

use crate::arc::{Arc, MemoryOrder, MAX_REFCOUNT};
use crate::heap::{incr_at, slot_count, slot_init, slot_live, slot_value, Heap};
use core::marker::PhantomData;
use vstd::prelude::*;

verus! {

/// Relies on `core::marker::PhantomData`'s `Clone`: `PhantomData<T>` is a
/// unit type with a single value, so cloning returns that same value. Needed
/// by the derived `Clone` of the handle types, which carry a `PhantomData`
/// field.
pub assume_specification<T: core::marker::PointeeSized>[ <PhantomData<T> as Clone>::clone ](
    v: &PhantomData<T>,
) -> (r: PhantomData<T>)
    ensures
        r == *v,
;

/// A non-owning alias of one allocation: a "borrowed [`Arc`]".
#[derive(Clone, Copy, Debug)]
pub struct ArcBorrow<T> {
    idx: usize,
    marker: PhantomData<T>,
}

impl<T> ArcBorrow<T> {
    /// The identity of the aliased allocation.
    pub closed spec fn id(&self) -> int {
        self.idx as int
    }

    /// The alias points at a live allocation of `heap`.
    pub open spec fn wf(&self, heap: Heap<T>) -> bool {
        &&& 0 <= self.id() < heap@.len()
        &&& slot_live(heap@[self.id()])
    }

    /// Clone this alias into a true owned handle, adding one counter unit.
    pub fn clone_arc(this: Self, heap: &mut Heap<T>) -> (r: Arc<T>)
        requires
            old(heap).wf(),
            this.wf(*old(heap)),
            slot_count(old(heap)@[this.id()]) <= MAX_REFCOUNT,
        ensures
            final(heap).wf(),
            r.id() == this.id(),
            final(heap)@ == incr_at(old(heap)@, this.id()),
            r.wf(*final(heap)),
            this.wf(*final(heap)),
    {
        let transient = Arc::from_raw(this.idx);
        transient.clone(heap)
    }

    /// Compare two aliases by allocation identity.
    pub fn ptr_eq(this: Self, other: Self) -> (r: bool)
        ensures
            r == (this.id() == other.id()),
    {
        this.idx == other.idx
    }

    /// Borrow the payload.
    pub fn get<'a>(&self, heap: &'a Heap<T>) -> (r: &'a T)
        requires
            self.wf(*heap),
            slot_init(heap@[self.id()]),
        ensures
            *r == slot_value(heap@[self.id()]),
    {
        Arc::get(&Arc::from_raw(self.idx), heap)
    }

    /// The payload address of this alias; the counter is untouched.
    pub fn into_raw(this: Self) -> (r: usize)
        ensures
            r == this.id(),
    {
        this.idx
    }

    /// Construct an alias from a payload address. Liveness is re-proved at
    /// every later use, so nothing is demanded here.
    pub fn from_raw(raw: usize) -> (r: Self)
        ensures
            r.id() == raw,
    {
        ArcBorrow { idx: raw, marker: PhantomData }
    }

    /// The current value of the allocation's reference counter.
    pub fn count(this: Self, heap: &Heap<T>) -> (c: usize)
        requires
            this.wf(*heap),
        ensures
            c == slot_count(heap@[this.id()]),
    {
        Arc::count(&Arc::from_raw(this.idx), heap)
    }

    /// The counter as read under the given load ordering; the sequential
    /// store observes the exact counter under every ordering.
    pub fn load_count(this: Self, heap: &Heap<T>, order: MemoryOrder) -> (c: usize)
        requires
            this.wf(*heap),
        ensures
            c == slot_count(heap@[this.id()]),
    {
        Arc::load_count(&Arc::from_raw(this.idx), heap, order)
    }
}

} // verus!
