//! The owned, counted handle.
//!
//! An [`Arc`] names one allocation of a [`Heap`] and stands for exactly one
//! unit of that allocation's reference counter. Every operation's contract
//! states its effect on the store: allocation starts the counter at one,
//! `clone` adds one unit, `drop` removes one and deallocates exactly when the
//! last unit leaves, and mutation is offered only once the counter is proved
//! to be one.

use crate::arc_borrow::ArcBorrow;
use crate::heap::{
    decr_at, incr_at, slot_count, slot_init, slot_live, slot_value, with_count, Heap, SlotModel,
    MAX_SLOTS,
};
use crate::layout::{round_up, Layout};
use crate::unique_arc::ArcBox;
use core::marker::PhantomData;
use vstd::layout::{align_of, size_of};
use vstd::math::max;
use vstd::pervasive::cloned;
use vstd::prelude::*;

verus! {

/// The byte offset at which a payload of type `T` sits behind the counter
/// word at the head of its allocation: the counter's size rounded up to the
/// payload's alignment. It depends on `T` alone, so the offset used when the
/// block was laid out and the offset used by any later header/payload
/// conversion are one and the same value.
pub open spec fn data_offset_of<T>() -> int {
    round_up(size_of::<usize>() as int, align_of::<T>() as int)
}

/// Whether a payload of type `T` fits behind the counter header within the
/// allocator's size bound — true of every type a machine can hold, demanded
/// explicitly because the verifier also admits virtual types wider than the
/// address space.
pub open spec fn header_fits<T>() -> bool {
    Layout {
        size: size_of::<usize>() as usize,
        align: align_of::<usize>() as usize,
    }.extend_fits(Layout { size: size_of::<T>() as usize, align: align_of::<T>() as usize })
}

/// A soft ceiling on the reference counter. The real counter lives in one
/// machine word; letting it pass half the word's range could only happen by
/// leaking handles, and a wrapped counter would free memory still in use, so
/// a clone is permitted only while the counter is at or below this bound.
pub const MAX_REFCOUNT: usize = usize::MAX / 2;

/// The record at the head of every allocation: the reference counter, then
/// the payload. In a raw-memory layout the payload sits at a fixed positive
/// offset from the counter; the layout engine computes that offset.
pub struct ArcInner<T> {
    pub(crate) count: usize,
    pub(crate) data: T,
}

impl<T> ArcInner<T> {
    /// Get the offset of the data from the beginning of the allocation.
    pub fn data_offset() -> (r: usize)
        requires
            header_fits::<T>(),
        ensures
            r as int == data_offset_of::<T>(),
    {
        let header = Layout::of::<usize>();
        let payload = Layout::of::<T>();
        let (_, offset) = header.extend(payload);
        offset
    }

    /// The padded layout of a whole allocation for this payload, along with
    /// the offset of the data within it.
    pub fn layout(data: &T) -> (r: (Layout, usize))
        requires
            header_fits::<T>(),
        ensures
            r.1 as int == data_offset_of::<T>(),
            r.0.align as int == max(align_of::<usize>() as int, align_of::<T>() as int),
            r.0.size as int == round_up(
                data_offset_of::<T>() + size_of::<T>(),
                r.0.align as int,
            ),
            r.0.wf(),
    {
        let header = Layout::of::<usize>();
        let payload = Layout::of::<T>();
        let (unpadded, offset) = header.extend(payload);
        (unpadded.pad_to_align(), offset)
    }

    /// Get the offset of the data from the beginning of the allocation,
    /// given the data. It equals [`ArcInner::data_offset`]: the offset is a
    /// function of the payload type alone.
    pub fn data_offset_value(data: &T) -> (r: usize)
        requires
            header_fits::<T>(),
        ensures
            r as int == data_offset_of::<T>(),
    {
        let (_, offset) = Self::layout(data);
        offset
    }
}

/// The memory orderings under which a counter may be read. The store is
/// sequential, so every ordering observes the exact counter; the variants
/// record which ordering the matching atomic load would use.
#[derive(Clone, Copy)]
pub enum MemoryOrder {
    /// No synchronization: enough for a plain count report.
    Relaxed,
    /// Synchronizes with every earlier release decrement: required before
    /// treating a counter of one as proof of exclusivity.
    Acquire,
    /// Total order over all atomic operations.
    SeqCst,
}

/// An owned, counted handle: one unit of one allocation's counter.
#[derive(Debug)]
pub struct Arc<T> {
    idx: usize,
    marker: PhantomData<T>,
}

impl<T> Arc<T> {
    /// The identity of the allocation this handle counts toward.
    pub closed spec fn id(&self) -> int {
        self.idx as int
    }

    /// The handle points at a live allocation of `heap`.
    pub open spec fn wf(&self, heap: Heap<T>) -> bool {
        &&& 0 <= self.id() < heap@.len()
        &&& slot_live(heap@[self.id()])
    }

    /// Construct an [`Arc`]: allocate a fresh slot holding `data`, with the
    /// counter at one.
    pub fn new(data: T, heap: &mut Heap<T>) -> (r: Arc<T>)
        requires
            old(heap).wf(),
            old(heap)@.len() < MAX_SLOTS,
        ensures
            final(heap).wf(),
            r.id() == old(heap)@.len(),
            final(heap)@ == old(heap)@.push(SlotModel::Init { count: 1, value: data }),
            r.wf(*final(heap)),
    {
        let idx = heap.allocate(data);
        Arc { idx, marker: PhantomData }
    }

    /// Produce one more owned handle to the same allocation, adding one unit
    /// to its counter.
    ///
    /// The counter must still be at or below [`MAX_REFCOUNT`]; past that
    /// ceiling the system treats the program as having leaked its way toward
    /// counter wraparound, which is fatal rather than recoverable.
    pub fn clone(&self, heap: &mut Heap<T>) -> (r: Arc<T>)
        requires
            old(heap).wf(),
            self.wf(*old(heap)),
            slot_count(old(heap)@[self.id()]) <= MAX_REFCOUNT,
        ensures
            final(heap).wf(),
            r.id() == self.id(),
            final(heap)@ == incr_at(old(heap)@, self.id()),
            r.wf(*final(heap)),
            self.wf(*final(heap)),
    {
        heap.incr(self.idx);
        Arc { idx: self.idx, marker: PhantomData }
    }

    /// Give this handle's counter unit back: the counter drops by one, and
    /// the allocation is freed exactly when the last unit leaves.
    pub fn drop(self, heap: &mut Heap<T>)
        requires
            old(heap).wf(),
            self.wf(*old(heap)),
        ensures
            final(heap).wf(),
            final(heap)@ == decr_at(old(heap)@, self.id()),
    {
        heap.decr(self.idx);
    }

    /// Borrow the payload.
    pub fn get<'a>(this: &Arc<T>, heap: &'a Heap<T>) -> (r: &'a T)
        requires
            this.wf(*heap),
            slot_init(heap@[this.id()]),
        ensures
            *r == slot_value(heap@[this.id()]),
    {
        heap.read(this.idx)
    }

    /// Returns the inner value if this handle holds the only counter unit;
    /// the allocation is then freed. Otherwise the same handle comes back
    /// unchanged, and the store is untouched.
    pub fn try_unwrap(this: Self, heap: &mut Heap<T>) -> (r: Result<T, Self>)
        requires
            old(heap).wf(),
            this.wf(*old(heap)),
            slot_init(old(heap)@[this.id()]),
        ensures
            final(heap).wf(),
            r is Ok <==> slot_count(old(heap)@[this.id()]) == 1,
            r matches Ok(v) ==> v == slot_value(old(heap)@[this.id()]) && final(heap)@ == old(
                heap,
            )@.update(this.id(), SlotModel::Vacant),
            r matches Err(a) ==> a == this && final(heap)@ == old(heap)@,
    {
        if heap.count_of(this.idx) == 1 {
            Ok(heap.take(this.idx))
        } else {
            Err(this)
        }
    }

    /// Produce a non-owning alias of the same allocation. The counter is
    /// untouched: this handle's own unit is what keeps the alias live.
    pub fn borrow_arc(this: &Self) -> (r: ArcBorrow<T>)
        ensures
            r.id() == this.id(),
    {
        ArcBorrow::from_raw(this.idx)
    }

    /// Give this handle up without returning its counter unit: one unit is
    /// leaked on purpose, so the allocation can never be freed, and the
    /// returned alias is live forever.
    pub fn leak(this: Arc<T>) -> (r: ArcBorrow<T>)
        ensures
            r.id() == this.id(),
    {
        ArcBorrow::from_raw(this.idx)
    }

    /// Returns a unique-owner builder if this handle holds the only counter
    /// unit; otherwise the same handle comes back unchanged. The store is
    /// read, never touched.
    pub fn try_unique(this: Self, heap: &Heap<T>) -> (r: Result<ArcBox<T>, Self>)
        requires
            this.wf(*heap),
            slot_init(heap@[this.id()]),
        ensures
            r is Ok <==> slot_count(heap@[this.id()]) == 1,
            r matches Ok(b) ==> b.id() == this.id() && b.wf(*heap),
            r matches Err(a) ==> a == this,
    {
        if Arc::is_unique(&this, heap) {
            Ok(ArcBox::from_arc(this))
        } else {
            Err(this)
        }
    }

    /// Test whether the two handles count toward the same allocation.
    pub fn ptr_eq(this: &Self, other: &Self) -> (r: bool)
        ensures
            r == (this.id() == other.id()),
    {
        this.idx == other.idx
    }

    /// Whether this handle holds the only counter unit, and mutation through
    /// it would therefore be exclusive.
    pub fn is_unique(this: &Self, heap: &Heap<T>) -> (r: bool)
        requires
            this.wf(*heap),
        ensures
            r == (slot_count(heap@[this.id()]) == 1),
    {
        Arc::count(this, heap) == 1
    }

    /// The current value of the allocation's reference counter.
    pub fn count(this: &Self, heap: &Heap<T>) -> (c: usize)
        requires
            this.wf(*heap),
        ensures
            c == slot_count(heap@[this.id()]),
    {
        heap.count_of(this.idx)
    }

    /// The counter as read under the given load ordering. The sequential
    /// store observes the exact counter under every ordering.
    pub fn load_count(this: &Self, heap: &Heap<T>, order: MemoryOrder) -> (c: usize)
        requires
            this.wf(*heap),
        ensures
            c == slot_count(heap@[this.id()]),
    {
        let _ = order;
        heap.count_of(this.idx)
    }

    /// Export the payload address without touching the counter. The caller
    /// owes the store exactly one later import (or an intentional leak of one
    /// counter unit).
    pub fn into_raw(this: Self) -> (r: usize)
        ensures
            r == this.id(),
    {
        this.idx
    }

    /// The payload address; `self` is kept, and the counter untouched.
    pub fn as_ptr(this: &Self) -> (r: usize)
        ensures
            r == this.id(),
    {
        this.idx
    }

    /// Re-adopt a payload address exported by [`Arc::into_raw`], reclaiming
    /// the counter unit that the matching export left behind. The counter is
    /// not touched; pairing each import with exactly one export is the
    /// caller's obligation, and every later use re-proves liveness against
    /// the store.
    pub fn from_raw(raw: usize) -> (r: Self)
        ensures
            r.id() == raw,
    {
        Arc { idx: raw, marker: PhantomData }
    }

    /// Whether this handle points at a live, initialized allocation of
    /// `heap`. This is the executable form of the validity that the other
    /// operations require, for callers that cannot prove it statically.
    pub fn is_valid(this: &Self, heap: &Heap<T>) -> (b: bool)
        ensures
            b == (this.wf(*heap) && slot_init(heap@[this.id()])),
    {
        this.idx < heap.len() && heap.init_at(this.idx)
    }

    /// Allocate an uninitialized payload slot with the counter at one. The
    /// payload must be written before it can be read; promotion goes through
    /// [`Arc::assume_init`], which demands proof that the write happened.
    pub fn new_uninit(heap: &mut Heap<T>) -> (r: Arc<T>)
        requires
            old(heap).wf(),
            old(heap)@.len() < MAX_SLOTS,
        ensures
            final(heap).wf(),
            r.id() == old(heap)@.len(),
            final(heap)@ == old(heap)@.push(SlotModel::Uninit { count: 1 }),
            r.wf(*final(heap)),
    {
        let idx = heap.allocate_uninit();
        Arc { idx, marker: PhantomData }
    }

    /// Store `val` as the allocation's payload. Demands exclusivity (a
    /// counter of one), so the write cannot race another holder.
    pub fn write<'a>(this: &Arc<T>, heap: &'a mut Heap<T>, val: T) -> (r: &'a mut T)
        requires
            old(heap).wf(),
            this.wf(*old(heap)),
            slot_count(old(heap)@[this.id()]) == 1,
        ensures
            *r == val,
            final(heap).wf(),
            final(heap)@ == old(heap)@.update(
                this.id(),
                SlotModel::Init { count: 1, value: *final(r) },
            ),
    {
        heap.put(this.idx, val);
        heap.data_mut(this.idx)
    }

    /// The payload address for writing; the same address [`Arc::as_ptr`]
    /// reports.
    pub fn as_mut_ptr(this: &Self) -> (r: usize)
        ensures
            r == this.id(),
    {
        this.idx
    }

    /// Promote a handle from [`Arc::new_uninit`] to an initialized one. What
    /// a raw-pointer design must trust the caller about — that the payload
    /// was written first — is here demanded as proof.
    pub fn assume_init(this: Self, heap: &Heap<T>) -> (r: Arc<T>)
        requires
            this.wf(*heap),
            slot_init(heap@[this.id()]),
        ensures
            r.id() == this.id(),
            r.wf(*heap),
    {
        this
    }

    /// Provides mutable access to the payload if this handle holds the only
    /// counter unit; yields nothing — and leaves the store untouched — when
    /// the allocation is shared.
    pub fn get_mut<'a>(this: &Arc<T>, heap: &'a mut Heap<T>) -> (r: Option<&'a mut T>)
        requires
            old(heap).wf(),
            this.wf(*old(heap)),
            slot_init(old(heap)@[this.id()]),
        ensures
            final(heap).wf(),
            r is Some <==> slot_count(old(heap)@[this.id()]) == 1,
            r is None ==> final(heap)@ == old(heap)@,
            r matches Some(m) ==> *m == slot_value(old(heap)@[this.id()]) && final(heap)@ == old(
                heap,
            )@.update(this.id(), SlotModel::Init { count: 1, value: *final(m) }),
    {
        if Arc::is_unique(this, heap) {
            Some(heap.data_mut(this.idx))
        } else {
            None
        }
    }
}

impl<T: Clone> Arc<T> {
    /// Make a mutable reference to the payload, cloning if necessary.
    ///
    /// A handle holding the only counter unit mutates its allocation in
    /// place: nothing is allocated, and the handle keeps its identity. A
    /// handle to a shared allocation instead moves to a brand-new allocation
    /// holding a clone of the payload (copy on write): the shared allocation
    /// keeps its payload and merely loses this handle's counter unit, so no
    /// other holder observes any change.
    pub fn make_mut<'a>(this: &mut Arc<T>, heap: &'a mut Heap<T>) -> (r: &'a mut T)
        requires
            old(heap).wf(),
            old(this).wf(*old(heap)),
            slot_init(old(heap)@[old(this).id()]),
            slot_count(old(heap)@[old(this).id()]) == 1 || old(heap)@.len() < MAX_SLOTS,
        ensures
            final(heap).wf(),
            final(this).wf(*final(heap)),
            final(heap)@[final(this).id()] == (SlotModel::Init { count: 1, value: *final(r) }),
            cloned::<T>(slot_value(old(heap)@[old(this).id()]), *r),
            slot_count(old(heap)@[old(this).id()]) == 1 ==> {
                &&& *final(this) == *old(this)
                &&& *r == slot_value(old(heap)@[old(this).id()])
                &&& final(heap)@ == old(heap)@.update(
                    old(this).id(),
                    SlotModel::Init { count: 1, value: *final(r) },
                )
            },
            slot_count(old(heap)@[old(this).id()]) > 1 ==> {
                &&& final(this).id() == old(heap)@.len()
                &&& final(heap)@.len() == old(heap)@.len() + 1
                &&& final(heap)@[old(this).id()] == with_count(
                    old(heap)@[old(this).id()],
                    (slot_count(old(heap)@[old(this).id()]) - 1) as nat,
                )
            },
            forall|j: int|
                0 <= j < old(heap)@.len() && j != old(this).id() && j != final(this).id()
                    ==> final(heap)@[j] == old(heap)@[j],
    {
        let unique = Arc::is_unique(this, heap);
        if !unique {
            let val = Arc::get(this, heap).clone();
            heap.decr(this.idx);
            let idx = heap.allocate(val);
            this.idx = idx;
        }
        heap.data_mut(this.idx)
    }

    /// Convert this handle into a unique-owner builder, cloning the payload
    /// into a fresh allocation when the current one is shared. Either way the
    /// handle itself is spent: a shared allocation just loses this handle's
    /// counter unit.
    pub fn unique(this: Self, heap: &mut Heap<T>) -> (r: ArcBox<T>)
        requires
            old(heap).wf(),
            this.wf(*old(heap)),
            slot_init(old(heap)@[this.id()]),
            slot_count(old(heap)@[this.id()]) == 1 || old(heap)@.len() < MAX_SLOTS,
        ensures
            final(heap).wf(),
            r.wf(*final(heap)),
            slot_count(old(heap)@[this.id()]) == 1 ==> r.id() == this.id() && final(heap)@ == old(
                heap,
            )@,
            slot_count(old(heap)@[this.id()]) > 1 ==> {
                &&& r.id() == old(heap)@.len()
                &&& final(heap)@.len() == old(heap)@.len() + 1
                &&& final(heap)@[this.id()] == with_count(
                    old(heap)@[this.id()],
                    (slot_count(old(heap)@[this.id()]) - 1) as nat,
                )
                &&& slot_init(final(heap)@[r.id()])
                &&& slot_count(final(heap)@[r.id()]) == 1
                &&& cloned::<T>(
                    slot_value(old(heap)@[this.id()]),
                    slot_value(final(heap)@[r.id()]),
                )
            },
            forall|j: int|
                0 <= j < old(heap)@.len() && j != this.id() ==> final(heap)@[j] == old(heap)@[j],
    {
        if Arc::is_unique(&this, heap) {
            ArcBox::from_arc(this)
        } else {
            let val = Arc::get(&this, heap).clone();
            heap.decr(this.idx);
            ArcBox::new(val, heap)
        }
    }
}

} // verus!
