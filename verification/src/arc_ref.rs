//! The tagged owned/borrowed union.
//!
//! An [`ArcRef`] packs either an owned handle or a borrowed alias into one
//! pointer-width word. Addresses in this crate are slot indices, which never
//! use their topmost bit (the store holds at most [`MAX_SLOTS`] slots), so the
//! index is kept shifted up one bit and the freed low bit carries the
//! ownership tag — the same bit-stealing that alignment permits on machine
//! pointers. Every operation masks the tag off before the index is used, and
//! proves that the tag always matches the ownership discipline the value was
//! built with: an owned-tagged word stands for one counter unit, a
//! borrowed-tagged word for none.

use crate::arc::{Arc, MemoryOrder, MAX_REFCOUNT};
use crate::arc_borrow::ArcBorrow;
use crate::heap::{
    decr_at, incr_at, slot_count, slot_init, slot_live, slot_value, with_count, Heap, SlotModel,
    MAX_SLOTS,
};
use crate::unique_arc::ArcBox;
use core::marker::PhantomData;
use vstd::pervasive::cloned;
use vstd::prelude::*;

verus! {

/// The tagged word for slot index `i` with ownership tag `owned`.
pub open spec fn tag_word(i: int, owned: bool) -> int {
    2 * i + if owned {
        1int
    } else {
        0int
    }
}

/// Shifting the index up and setting the tag bit loses nothing: both come
/// back out of the word exactly.
pub proof fn lemma_tag_round_trip(i: int, owned: bool)
    requires
        0 <= i,
    ensures
        tag_word(i, owned) / 2 == i,
        (tag_word(i, owned) % 2 == 1) == owned,
{
    assert((2 * i) / 2 == i && (2 * i) % 2 == 0 && (2 * i + 1) / 2 == i && (2 * i + 1) % 2 == 1)
        by (nonlinear_arith)
        requires
            0 <= i,
    ;
}

/// A reference-counted pointer that holds either exactly one counter unit
/// (owned) or none (borrowed), in a single word.
#[derive(Debug)]
pub struct ArcRef<T> {
    bits: usize,
    marker: PhantomData<T>,
}

impl<T> ArcRef<T> {
    /// The identity of the allocation: the word with its tag bit masked off.
    pub closed spec fn id(&self) -> int {
        self.bits as int / 2
    }

    /// The ownership tag: the word's low bit.
    pub closed spec fn owned(&self) -> bool {
        self.bits % 2 == 1
    }

    /// The union points at a live allocation of `heap`.
    pub open spec fn wf(&self, heap: Heap<T>) -> bool {
        &&& 0 <= self.id() < heap@.len()
        &&& slot_live(heap@[self.id()])
    }

    /// Construct an owned-tagged [`ArcRef`] over a fresh allocation.
    pub fn new(data: T, heap: &mut Heap<T>) -> (r: Self)
        requires
            old(heap).wf(),
            old(heap)@.len() < MAX_SLOTS,
        ensures
            final(heap).wf(),
            r.id() == old(heap)@.len(),
            r.owned(),
            final(heap)@ == old(heap)@.push(SlotModel::Init { count: 1, value: data }),
            r.wf(*final(heap)),
    {
        let arc = Arc::new(data, heap);
        Self::from_arc(arc)
    }

    /// Wrap an owned handle: the tag records its ownership, and its counter
    /// unit moves into the union unchanged.
    pub fn from_arc(arc: Arc<T>) -> (r: Self)
        requires
            0 <= arc.id() < MAX_SLOTS,
        ensures
            r.id() == arc.id(),
            r.owned(),
    {
        let idx = Arc::into_raw(arc);
        proof {
            lemma_tag_round_trip(idx as int, true);
        }
        ArcRef { bits: 2 * idx + 1, marker: PhantomData }
    }

    /// Wrap a borrowed alias: the tag records that no counter unit is held.
    pub fn from_borrow(b: ArcBorrow<T>) -> (r: Self)
        requires
            0 <= b.id() < MAX_SLOTS,
        ensures
            r.id() == b.id(),
            !r.owned(),
    {
        let idx = ArcBorrow::into_raw(b);
        proof {
            lemma_tag_round_trip(idx as int, false);
        }
        ArcRef { bits: 2 * idx, marker: PhantomData }
    }

    /// Whether this union was built from an owned handle: the tag bit.
    pub fn is_owned(this: &Self) -> (r: bool)
        ensures
            r == this.owned(),
    {
        this.bits % 2 == 1
    }

    /// Compare two unions by allocation identity, tag bits masked off.
    pub fn ptr_eq(this: &Self, other: &Self) -> (r: bool)
        ensures
            r == (this.id() == other.id()),
    {
        this.bits / 2 == other.bits / 2
    }

    /// The payload address, with the tag bit masked off.
    pub fn as_ptr(this: &Self) -> (r: usize)
        ensures
            r == this.id(),
    {
        this.bits / 2
    }

    /// The payload address, consuming the union without returning its
    /// counter unit: if it was owned, one unit is left for the caller to
    /// re-adopt or to leak.
    pub fn into_raw(this: Self) -> (r: usize)
        ensures
            r == this.id(),
    {
        this.bits / 2
    }

    /// Whether mutation through this union would be exclusive: it must hold
    /// a counter unit of its own — a borrowed-tagged union is never unique,
    /// whatever the counter says, since observing a count of one through a
    /// non-owning alias proves nothing about who owns that one unit.
    pub fn is_unique(this: &Self, heap: &Heap<T>) -> (r: bool)
        requires
            this.wf(*heap),
        ensures
            r == (this.owned() && slot_count(heap@[this.id()]) == 1),
    {
        Self::is_owned(this) && Self::count(this, heap) == 1
    }

    /// The current value of the allocation's reference counter.
    pub fn count(this: &Self, heap: &Heap<T>) -> (c: usize)
        requires
            this.wf(*heap),
        ensures
            c == slot_count(heap@[this.id()]),
    {
        Arc::count(&Arc::from_raw(this.bits / 2), heap)
    }

    /// The counter as read under the given load ordering; the sequential
    /// store observes the exact counter under every ordering.
    pub fn load_count(this: &Self, heap: &Heap<T>, order: MemoryOrder) -> (c: usize)
        requires
            this.wf(*heap),
        ensures
            c == slot_count(heap@[this.id()]),
    {
        Arc::load_count(&Arc::from_raw(this.bits / 2), heap, order)
    }

    /// Borrow the payload.
    pub fn get<'a>(this: &Self, heap: &'a Heap<T>) -> (r: &'a T)
        requires
            this.wf(*heap),
            slot_init(heap@[this.id()]),
        ensures
            *r == slot_value(heap@[this.id()]),
    {
        Arc::get(&Arc::from_raw(this.bits / 2), heap)
    }

    /// Split the union by its tag: the owned handle it was built from, or
    /// the borrowed alias. No counter changes hands either way.
    pub fn try_into_arc(this: Self) -> (r: Result<Arc<T>, ArcBorrow<T>>)
        ensures
            r is Ok <==> this.owned(),
            r matches Ok(a) ==> a.id() == this.id(),
            r matches Err(b) ==> b.id() == this.id(),
    {
        if this.bits % 2 == 1 {
            Ok(Arc::from_raw(this.bits / 2))
        } else {
            Err(ArcBorrow::from_raw(this.bits / 2))
        }
    }

    /// Produce one more union over the same allocation: an owned one adds a
    /// counter unit, a borrowed one is copied for free.
    pub fn clone(&self, heap: &mut Heap<T>) -> (r: Self)
        requires
            old(heap).wf(),
            self.wf(*old(heap)),
            self.owned() ==> slot_count(old(heap)@[self.id()]) <= MAX_REFCOUNT,
        ensures
            final(heap).wf(),
            r.id() == self.id(),
            r.owned() == self.owned(),
            self.owned() ==> final(heap)@ == incr_at(old(heap)@, self.id()),
            !self.owned() ==> final(heap)@ == old(heap)@,
            r.wf(*final(heap)),
            self.wf(*final(heap)),
    {
        if self.bits % 2 == 1 {
            let transient = Arc::from_raw(self.bits / 2);
            let fresh = transient.clone(heap);
            Self::from_arc(fresh)
        } else {
            ArcRef { bits: self.bits, marker: PhantomData }
        }
    }

    /// Give the union up: an owned one returns its counter unit (freeing the
    /// allocation if it was the last), a borrowed one changes nothing.
    pub fn drop(self, heap: &mut Heap<T>)
        requires
            old(heap).wf(),
            self.wf(*old(heap)),
        ensures
            final(heap).wf(),
            self.owned() ==> final(heap)@ == decr_at(old(heap)@, self.id()),
            !self.owned() ==> final(heap)@ == old(heap)@,
    {
        if self.bits % 2 == 1 {
            Arc::from_raw(self.bits / 2).drop(heap);
        }
    }

    /// Returns the inner value if the union is owned and holds the only
    /// counter unit; the allocation is then freed. Otherwise the same union
    /// comes back unchanged — in particular a borrowed-tagged union never
    /// succeeds, whatever the counter says.
    pub fn try_unwrap(this: Self, heap: &mut Heap<T>) -> (r: Result<T, Self>)
        requires
            old(heap).wf(),
            this.wf(*old(heap)),
            slot_init(old(heap)@[this.id()]),
        ensures
            final(heap).wf(),
            r is Ok <==> (this.owned() && slot_count(old(heap)@[this.id()]) == 1),
            r matches Ok(v) ==> v == slot_value(old(heap)@[this.id()]) && final(heap)@ == old(
                heap,
            )@.update(this.id(), SlotModel::Vacant),
            r matches Err(a) ==> a == this && final(heap)@ == old(heap)@,
    {
        if this.bits % 2 == 1 {
            match Arc::try_unwrap(Arc::from_raw(this.bits / 2), heap) {
                Ok(v) => Ok(v),
                Err(..) => Err(this),
            }
        } else {
            Err(this)
        }
    }

    /// Returns a unique-owner builder if the union is owned and holds the
    /// only counter unit; otherwise the same union, unchanged.
    pub fn try_unique(this: Self, heap: &Heap<T>) -> (r: Result<ArcBox<T>, Self>)
        requires
            this.wf(*heap),
            slot_init(heap@[this.id()]),
        ensures
            r is Ok <==> (this.owned() && slot_count(heap@[this.id()]) == 1),
            r matches Ok(b) ==> b.id() == this.id() && b.wf(*heap),
            r matches Err(a) ==> a == this,
    {
        if this.bits % 2 == 1 {
            match Arc::try_unique(Arc::from_raw(this.bits / 2), heap) {
                Ok(b) => Ok(b),
                Err(..) => Err(this),
            }
        } else {
            Err(this)
        }
    }

    /// Produce a non-owning alias of the same allocation; no counter change.
    pub fn borrow_arc(this: &Self) -> (r: ArcBorrow<T>)
        ensures
            r.id() == this.id(),
    {
        ArcBorrow::from_raw(this.bits / 2)
    }

    /// Rewrap this union as a borrowed-tagged one; no counter change.
    pub fn into_borrow(this: &Self) -> (r: ArcRef<T>)
        requires
            0 <= this.id() < MAX_SLOTS,
        ensures
            r.id() == this.id(),
            !r.owned(),
    {
        Self::from_borrow(Self::borrow_arc(this))
    }

    /// Convert into an owned handle: an owned union hands its counter unit
    /// over as is; a borrowed one must first add a unit of its own.
    pub fn into_arc(this: Self, heap: &mut Heap<T>) -> (r: Arc<T>)
        requires
            old(heap).wf(),
            this.wf(*old(heap)),
            !this.owned() ==> slot_count(old(heap)@[this.id()]) <= MAX_REFCOUNT,
        ensures
            final(heap).wf(),
            r.id() == this.id(),
            r.wf(*final(heap)),
            this.owned() ==> final(heap)@ == old(heap)@,
            !this.owned() ==> final(heap)@ == incr_at(old(heap)@, this.id()),
    {
        match Self::try_into_arc(this) {
            Ok(arc) => arc,
            Err(borrow) => ArcBorrow::clone_arc(borrow, heap),
        }
    }

    /// Convert into an owned-tagged union, promoting a borrowed one by adding
    /// a counter unit.
    pub fn into_owned(this: Self, heap: &mut Heap<T>) -> (r: ArcRef<T>)
        requires
            old(heap).wf(),
            this.wf(*old(heap)),
            !this.owned() ==> slot_count(old(heap)@[this.id()]) <= MAX_REFCOUNT,
        ensures
            final(heap).wf(),
            r.id() == this.id(),
            r.owned(),
            this.owned() ==> final(heap)@ == old(heap)@,
            !this.owned() ==> final(heap)@ == incr_at(old(heap)@, this.id()),
            r.wf(*final(heap)),
    {
        let arc = Self::into_arc(this, heap);
        Self::from_arc(arc)
    }

    /// Clone this union into an owned handle, adding one counter unit.
    pub fn clone_arc(this: &Self, heap: &mut Heap<T>) -> (r: Arc<T>)
        requires
            old(heap).wf(),
            this.wf(*old(heap)),
            slot_count(old(heap)@[this.id()]) <= MAX_REFCOUNT,
        ensures
            final(heap).wf(),
            r.id() == this.id(),
            final(heap)@ == incr_at(old(heap)@, this.id()),
            r.wf(*final(heap)),
            this.wf(*final(heap)),
    {
        ArcBorrow::clone_arc(Self::borrow_arc(this), heap)
    }

    /// Clone this union into an owned-tagged union, adding one counter unit.
    pub fn clone_into_owned(this: &Self, heap: &mut Heap<T>) -> (r: ArcRef<T>)
        requires
            old(heap).wf(),
            this.wf(*old(heap)),
            slot_count(old(heap)@[this.id()]) <= MAX_REFCOUNT,
        ensures
            final(heap).wf(),
            r.id() == this.id(),
            r.owned(),
            final(heap)@ == incr_at(old(heap)@, this.id()),
            r.wf(*final(heap)),
    {
        Self::from_arc(Self::clone_arc(this, heap))
    }

    /// Leak this union into an alias that is live forever: an owned union
    /// leaves its own unit behind uncollectable, a borrowed one first adds
    /// the unit that is then leaked.
    pub fn leak(this: Self, heap: &mut Heap<T>) -> (r: ArcBorrow<T>)
        requires
            old(heap).wf(),
            this.wf(*old(heap)),
            !this.owned() ==> slot_count(old(heap)@[this.id()]) <= MAX_REFCOUNT,
        ensures
            final(heap).wf(),
            r.id() == this.id(),
            this.owned() ==> final(heap)@ == old(heap)@,
            !this.owned() ==> final(heap)@ == incr_at(old(heap)@, this.id()),
            r.wf(*final(heap)),
    {
        let owned_ref = Self::into_owned(this, heap);
        ArcBorrow::from_raw(Self::into_raw(owned_ref))
    }

    /// Provides mutable access to the payload if this union is owned and
    /// holds the only counter unit; a borrowed-tagged union yields nothing
    /// even when the counter reads one.
    pub fn get_mut<'a>(this: &Self, heap: &'a mut Heap<T>) -> (r: Option<&'a mut T>)
        requires
            old(heap).wf(),
            this.wf(*old(heap)),
            slot_init(old(heap)@[this.id()]),
        ensures
            final(heap).wf(),
            r is Some <==> (this.owned() && slot_count(old(heap)@[this.id()]) == 1),
            r is None ==> final(heap)@ == old(heap)@,
            r matches Some(m) ==> *m == slot_value(old(heap)@[this.id()]) && final(heap)@ == old(
                heap,
            )@.update(this.id(), SlotModel::Init { count: 1, value: *final(m) }),
    {
        if Self::is_unique(this, heap) {
            Arc::get_mut(&Arc::from_raw(this.bits / 2), heap)
        } else {
            None
        }
    }
}

impl<T: Clone> ArcRef<T> {
    /// Make a mutable reference to the payload, cloning if necessary.
    ///
    /// Only an owned union holding the only counter unit mutates in place.
    /// Anything else moves this union to a brand-new allocation holding a
    /// clone of the payload: a shared owned union gives its counter unit
    /// back first; a borrowed union owns no unit and so leaves the original
    /// allocation completely untouched.
    pub fn make_mut<'a>(this: &mut ArcRef<T>, heap: &'a mut Heap<T>) -> (r: &'a mut T)
        requires
            old(heap).wf(),
            old(this).wf(*old(heap)),
            slot_init(old(heap)@[old(this).id()]),
            (old(this).owned() && slot_count(old(heap)@[old(this).id()]) == 1) || old(
                heap,
            )@.len() < MAX_SLOTS,
        ensures
            final(heap).wf(),
            final(this).wf(*final(heap)),
            final(heap)@[final(this).id()] == (SlotModel::Init { count: 1, value: *final(r) }),
            final(this).owned(),
            cloned::<T>(slot_value(old(heap)@[old(this).id()]), *r),
            (old(this).owned() && slot_count(old(heap)@[old(this).id()]) == 1) ==> {
                &&& *final(this) == *old(this)
                &&& *r == slot_value(old(heap)@[old(this).id()])
                &&& final(heap)@ == old(heap)@.update(
                    old(this).id(),
                    SlotModel::Init { count: 1, value: *final(r) },
                )
            },
            (old(this).owned() && slot_count(old(heap)@[old(this).id()]) > 1) ==> {
                &&& final(this).id() == old(heap)@.len()
                &&& final(heap)@.len() == old(heap)@.len() + 1
                &&& final(heap)@[old(this).id()] == with_count(
                    old(heap)@[old(this).id()],
                    (slot_count(old(heap)@[old(this).id()]) - 1) as nat,
                )
            },
            !old(this).owned() ==> {
                &&& final(this).id() == old(heap)@.len()
                &&& final(heap)@.len() == old(heap)@.len() + 1
                &&& final(heap)@[old(this).id()] == old(heap)@[old(this).id()]
            },
            forall|j: int|
                0 <= j < old(heap)@.len() && j != old(this).id() && j != final(this).id()
                    ==> final(heap)@[j] == old(heap)@[j],
    {
        let unique = Self::is_unique(this, heap);
        if !unique {
            let val = Self::get(this, heap).clone();
            let was_owned = Self::is_owned(this);
            if was_owned {
                Arc::from_raw(this.bits / 2).drop(heap);
            }
            let arc = Arc::new(val, heap);
            let idx = Arc::into_raw(arc);
            proof {
                lemma_tag_round_trip(idx as int, true);
            }
            this.bits = 2 * idx + 1;
        }
        heap.data_mut(this.bits / 2)
    }
}

} // verus!
