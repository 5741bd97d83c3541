//! Laws of the counting protocol, stated over the store model that every
//! operation's contract uses: what a fresh allocation looks like, that a
//! clone/drop pair is invisible, that identities never collide, and that the
//! ownership tag decides uniqueness.

use crate::arc_ref::{lemma_tag_round_trip, tag_word};
use crate::heap::{
    decr_at, incr_at, slot_count, slot_init, slot_live, slot_value, with_count, SlotModel,
};
use vstd::prelude::*;

verus! {

/// A freshly allocated slot holds its payload with the counter at one — the
/// new handle is unique the moment it is born.
pub proof fn lemma_new_is_unique<T>(h: Seq<SlotModel<T>>, v: T)
    ensures
        slot_count(h.push(SlotModel::Init { count: 1, value: v })[h.len() as int]) == 1,
        slot_init(h.push(SlotModel::Init { count: 1, value: v })[h.len() as int]),
        slot_value(h.push(SlotModel::Init { count: 1, value: v })[h.len() as int]) == v,
{
}

/// Allocation identities never collide: every allocation is handed the
/// store's length at its birth, and the store only grows — so two
/// allocations, even of value-equal payloads, answer false to a pointer
/// comparison, while a handle and its clone (which keeps the identity)
/// answer true.
pub proof fn lemma_distinct_allocations<T>(h: Seq<SlotModel<T>>, v: T)
    ensures
        h.len() != h.push(SlotModel::Init { count: 1, value: v }).len(),
{
}

/// Cloning a handle and dropping the clone is invisible: the counter returns
/// to its prior value and every slot — identity, payload, and all — is
/// exactly as it was.
pub proof fn lemma_clone_drop_restores<T>(h: Seq<SlotModel<T>>, i: int)
    requires
        0 <= i < h.len(),
        slot_live(h[i]),
        slot_count(h[i]) >= 1,
    ensures
        decr_at(incr_at(h, i), i) == h,
{
    let h1 = incr_at(h, i);
    assert(slot_count(h1[i]) == slot_count(h[i]) + 1);
    assert(with_count(with_count(h[i], slot_count(h[i]) + 1), slot_count(h[i])) == h[i]);
    assert(decr_at(h1, i) =~= h);
}

/// The store after `m` successive clone/drop pairs on slot `i`.
pub open spec fn clone_drop_pairs<T>(h: Seq<SlotModel<T>>, i: int, m: nat) -> Seq<SlotModel<T>>
    decreases m,
{
    if m == 0 {
        h
    } else {
        clone_drop_pairs(decr_at(incr_at(h, i), i), i, (m - 1) as nat)
    }
}

/// Any number of clone/drop pairs on one allocation — the sequential shadow
/// of a storm of threads each balancing its clones with drops — leaves the
/// store exactly as it began: no update is lost and the final counter equals
/// the counter before the storm.
pub proof fn lemma_clone_drop_storm<T>(h: Seq<SlotModel<T>>, i: int, m: nat)
    requires
        0 <= i < h.len(),
        slot_live(h[i]),
        slot_count(h[i]) >= 1,
    ensures
        clone_drop_pairs(h, i, m) == h,
    decreases m,
{
    if m > 0 {
        lemma_clone_drop_restores(h, i);
        lemma_clone_drop_storm(h, i, (m - 1) as nat);
    }
}

/// A borrowed-tagged word never passes the ownership test: its low bit is
/// clear by construction. Uniqueness demands ownership as well as a counter
/// of one, so a borrowed-tagged union is never unique, whatever the counter
/// reads.
pub proof fn lemma_borrowed_never_unique(i: int)
    requires
        0 <= i,
    ensures
        tag_word(i, false) % 2 != 1,
{
    lemma_tag_round_trip(i, false);
}

} // verus!
