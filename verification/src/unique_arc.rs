//! The unique builder.
//!
//! An [`ArcBox`] wraps an owned handle whose allocation is known to carry
//! exactly one counter unit — a fact established at construction (or by
//! [`Arc::try_unique`]) and stated as the type's well-formedness, so mutable
//! access needs no further counter check. Freezing it back into an [`Arc`]
//! costs nothing: the builder already stands for exactly one reference.

use crate::arc::Arc;
use crate::arc_ref::ArcRef;
use crate::heap::{slot_count, slot_init, slot_live, slot_value, Heap, SlotModel, MAX_SLOTS};
use vstd::prelude::*;

verus! {

/// An [`Arc`] that is known to be uniquely owned, and therefore mutable.
#[derive(Debug)]
pub struct ArcBox<T>(pub(crate) Arc<T>);

impl<T> ArcBox<T> {
    /// The identity of the builder's allocation.
    pub closed spec fn id(&self) -> int {
        self.0.id()
    }

    /// The builder points at a live, initialized allocation of `heap` whose
    /// counter is exactly one: the uniqueness invariant that grants mutation.
    pub open spec fn wf(&self, heap: Heap<T>) -> bool {
        &&& self.wf_uninit(heap)
        &&& slot_init(heap@[self.id()])
    }

    /// As [`ArcBox::wf`], but the payload slot may still be uninitialized:
    /// the state [`ArcBox::new_uninit`] leaves behind.
    pub open spec fn wf_uninit(&self, heap: Heap<T>) -> bool {
        &&& 0 <= self.id() < heap@.len()
        &&& slot_live(heap@[self.id()])
        &&& slot_count(heap@[self.id()]) == 1
    }

    /// Construct a new builder over a fresh allocation holding `data`.
    pub fn new(data: T, heap: &mut Heap<T>) -> (r: Self)
        requires
            old(heap).wf(),
            old(heap)@.len() < MAX_SLOTS,
        ensures
            final(heap).wf(),
            r.id() == old(heap)@.len(),
            final(heap)@ == old(heap)@.push(SlotModel::Init { count: 1, value: data }),
            r.wf(*final(heap)),
    {
        ArcBox(Arc::new(data, heap))
    }

    /// Construct a builder over a fresh, uninitialized allocation. The
    /// payload must be written before the builder can be promoted by
    /// [`ArcBox::assume_init`] or read.
    pub fn new_uninit(heap: &mut Heap<T>) -> (r: Self)
        requires
            old(heap).wf(),
            old(heap)@.len() < MAX_SLOTS,
        ensures
            final(heap).wf(),
            r.id() == old(heap)@.len(),
            final(heap)@ == old(heap)@.push(SlotModel::Uninit { count: 1 }),
            r.wf_uninit(*final(heap)),
    {
        ArcBox(Arc::new_uninit(heap))
    }

    /// Store `val` as the payload; this is how an uninitialized builder is
    /// filled, and how an initialized one is overwritten.
    pub fn write<'a>(this: &Self, heap: &'a mut Heap<T>, val: T) -> (r: &'a mut T)
        requires
            old(heap).wf(),
            this.wf_uninit(*old(heap)),
        ensures
            *r == val,
            final(heap).wf(),
            final(heap)@ == old(heap)@.update(
                this.id(),
                SlotModel::Init { count: 1, value: *final(r) },
            ),
    {
        Arc::write(&this.0, heap, val)
    }

    /// Promote a builder from [`ArcBox::new_uninit`] to an initialized one.
    /// What a raw-pointer design must trust the caller about — that the
    /// payload was written first — is here demanded as proof.
    pub fn assume_init(this: Self, heap: &Heap<T>) -> (r: ArcBox<T>)
        requires
            this.wf_uninit(*heap),
            slot_init(heap@[this.id()]),
        ensures
            r.id() == this.id(),
            r.wf(*heap),
    {
        this
    }

    /// Borrow the payload.
    pub fn get<'a>(this: &Self, heap: &'a Heap<T>) -> (r: &'a T)
        requires
            this.wf(*heap),
        ensures
            *r == slot_value(heap@[this.id()]),
    {
        Arc::get(&this.0, heap)
    }

    /// Mutably borrow the payload: the uniqueness invariant is the proof of
    /// exclusivity, so no counter is consulted.
    pub fn get_mut<'a>(this: &Self, heap: &'a mut Heap<T>) -> (r: &'a mut T)
        requires
            old(heap).wf(),
            this.wf(*old(heap)),
        ensures
            final(heap).wf(),
            *r == slot_value(old(heap)@[this.id()]),
            final(heap)@ == old(heap)@.update(
                this.id(),
                SlotModel::Init { count: 1, value: *final(r) },
            ),
    {
        heap.data_mut(Arc::as_ptr(&this.0))
    }

    /// Take the payload out by value and free the allocation.
    pub fn into_inner(this: Self, heap: &mut Heap<T>) -> (v: T)
        requires
            old(heap).wf(),
            this.wf(*old(heap)),
        ensures
            final(heap).wf(),
            v == slot_value(old(heap)@[this.id()]),
            final(heap)@ == old(heap)@.update(this.id(), SlotModel::Vacant),
    {
        match Arc::try_unwrap(this.0, heap) {
            Ok(v) => v,
            Err(..) => vstd::pervasive::unreached(),
        }
    }

    /// Freeze the builder into a shareable [`Arc`] at zero cost: the counter
    /// already records exactly the one reference the builder stands for.
    pub fn shareable(self) -> (r: Arc<T>)
        ensures
            r.id() == self.id(),
    {
        self.0
    }

    /// Freeze the builder into a shareable owned-tagged [`ArcRef`] at zero
    /// cost: no counter change.
    pub fn shareable_ref(self) -> (r: ArcRef<T>)
        requires
            0 <= self.id() < MAX_SLOTS,
        ensures
            r.id() == self.id(),
            r.owned(),
    {
        ArcRef::from_arc(self.0)
    }

    /// Wrap an owned handle already proven unique. Internal: the public road
    /// here is [`Arc::try_unique`], which performs the proof.
    pub(crate) fn from_arc(arc: Arc<T>) -> (r: Self)
        ensures
            r.0 == arc,
            r.id() == arc.id(),
    {
        ArcBox(arc)
    }

    /// Returns a builder if the handle holds the only counter unit, else the
    /// handle itself, unchanged.
    pub fn try_from(arc: Arc<T>, heap: &Heap<T>) -> (r: Result<ArcBox<T>, Arc<T>>)
        requires
            arc.wf(*heap),
            slot_init(heap@[arc.id()]),
        ensures
            r is Ok <==> slot_count(heap@[arc.id()]) == 1,
            r matches Ok(b) ==> b.id() == arc.id() && b.wf(*heap),
            r matches Err(a) ==> a == arc,
    {
        Arc::try_unique(arc, heap)
    }
}

} // verus!
