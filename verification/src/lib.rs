//! A family of reference-counted pointer types that share one allocation but
//! differ in ownership semantics, representation, and mutability guarantees:
//!
//! * [`Arc`] is the strong, counted handle: each handle stands for exactly one
//!   unit of its allocation's reference counter.
//!
//! All allocations live in an explicit [`Heap`]: a verified store that plays
//! the role the global allocator plays for raw pointers. Every operation's
//! contract states exactly how it moves the counters and payloads of that
//! store, so the counting protocol itself — counter one at birth, plus one per
//! clone, minus one per drop, deallocation exactly at the one-to-zero
//! transition — is proved rather than trusted.

mod arc;
mod arc_borrow;
mod arc_ref;
mod heap;
mod laws;
mod layout;
mod offset_arc;
mod unique_arc;

pub use arc::{data_offset_of, header_fits, Arc, ArcInner, MemoryOrder, MAX_REFCOUNT};
pub use arc_borrow::ArcBorrow;
pub use arc_ref::{tag_word, ArcRef};
pub use heap::{decr_at, incr_at, slot_count, slot_init, slot_live, slot_value, with_count, Heap, SlotModel, MAX_SLOTS};
pub use laws::{clone_drop_pairs, lemma_borrowed_never_unique, lemma_clone_drop_restores, lemma_clone_drop_storm, lemma_distinct_allocations, lemma_new_is_unique};
pub use layout::{round_up, Layout};
pub use offset_arc::{OffsetArc, OffsetArcBorrow};
pub use unique_arc::ArcBox;
