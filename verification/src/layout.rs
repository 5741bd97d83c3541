//! The layout engine.
//!
//! Every allocation is one contiguous block: the counter header first, the
//! payload at a fixed offset behind it. This module computes that combined
//! layout and the header-to-payload offset, and proves the arithmetic facts
//! the rest of the design leans on: the offset is a pure function of the
//! payload's size and alignment, so the header address can always be
//! recovered from a payload address by subtracting the same offset that was
//! used at allocation time.

use vstd::arithmetic::power::{lemma_pow_positive, pow};
use vstd::arithmetic::power2::{is_pow2, is_pow2_equiv};
use vstd::layout::valid_layout;
use vstd::math::max;
use vstd::prelude::*;

verus! {

/// `x` rounded up to the next multiple of `a`.
pub open spec fn round_up(x: int, a: int) -> int
    recommends
        x >= 0,
        a >= 1,
{
    ((x + a - 1) / a) * a
}

/// Rounding up lands on or after `x`, less than one whole `a` further, and on
/// a multiple of `a`; it adds exactly what the remainder is short of `a`.
pub proof fn lemma_round_up_bounds(x: int, a: int)
    requires
        x >= 0,
        a >= 1,
    ensures
        x <= round_up(x, a) < x + a,
        round_up(x, a) % a == 0,
        0 <= x % a <= x,
        round_up(x, a) == if x % a == 0 {
            x
        } else {
            x - x % a + a
        },
{
    assert((x <= ((x + a - 1) / a) * a < x + a) && ((((x + a - 1) / a) * a) % a == 0) && (0 <= x % a
        <= x) && (((x + a - 1) / a) * a == if x % a == 0 {
        x
    } else {
        x - x % a + a
    })) by (nonlinear_arith)
        requires
            x >= 0,
            a >= 1,
    ;
}

/// A value already on a multiple of `a` rounds up to itself.
pub proof fn lemma_round_up_exact(x: int, a: int)
    requires
        x >= 0,
        a >= 1,
        x % a == 0,
    ensures
        round_up(x, a) == x,
{
    assert(((x + a - 1) / a) * a == x) by (nonlinear_arith)
        requires
            x >= 0,
            a >= 1,
            x % a == 0,
    ;
}

/// Rounding up is monotone.
pub proof fn lemma_round_up_mono(x: int, y: int, a: int)
    requires
        0 <= x <= y,
        a >= 1,
    ensures
        round_up(x, a) <= round_up(y, a),
{
    assert(((x + a - 1) / a) * a <= ((y + a - 1) / a) * a) by (nonlinear_arith)
        requires
            0 <= x <= y,
            a >= 1,
    ;
}

/// An alignment, being a power of two, is at least one.
proof fn lemma_align_pos(a: int)
    requires
        is_pow2(a),
    ensures
        a >= 1,
{
    is_pow2_equiv(a);
    let e = choose|i: nat| pow(2, i) == a;
    lemma_pow_positive(2, e);
}

/// A size/alignment pair, as the allocator sees one block: the alignment is a
/// power of two, and the size stays within the address-space half that single
/// allocations may occupy.
#[derive(Clone, Copy, PartialEq, Eq, Structural)]
pub struct Layout {
    pub size: usize,
    pub align: usize,
}

/// `x` rounded up to the next multiple of the alignment `a`, computed from
/// the remainder so that no intermediate sum leaves the machine-word range.
fn round_up_exec(x: usize, a: usize) -> (r: usize)
    requires
        a >= 1,
        round_up(x as int, a as int) <= usize::MAX,
    ensures
        r as int == round_up(x as int, a as int),
{
    proof {
        lemma_round_up_bounds(x as int, a as int);
    }
    let rem = x % a;
    if rem == 0 {
        x
    } else {
        (x - rem) + a
    }
}

impl Layout {
    /// The pair satisfies the allocator's conditions on a layout.
    pub open spec fn wf(&self) -> bool {
        valid_layout(self.size, self.align)
    }

    /// The layout of a value of type `V`.
    pub fn of<V>() -> (l: Layout)
        ensures
            l.size == vstd::layout::size_of::<V>(),
            l.align == vstd::layout::align_of::<V>(),
            l.wf(),
    {
        vstd::layout::layout_for_type_is_valid::<V>();
        Layout { size: core::mem::size_of::<V>(), align: core::mem::align_of::<V>() }
    }

    /// Whether a block of layout `next` fits behind a block of layout `self`
    /// in one combined allocation: the padded offset plus the trailing size
    /// must stay inside the size bound that the combined alignment imposes.
    pub open spec fn extend_fits(self, next: Layout) -> bool {
        round_up(self.size as int, next.align as int) + next.size <= isize::MAX as int - (
        isize::MAX as int % max(self.align as int, next.align as int))
    }

    /// Place a block of layout `next` behind one of layout `self`: returns
    /// the combined (unpadded) layout and the offset at which `next` starts.
    /// The offset is the head size rounded up to the tail's alignment — a
    /// pure function of the two layouts, so recomputing it later recovers the
    /// same offset that allocation used.
    pub fn extend(&self, next: Layout) -> (r: (Layout, usize))
        requires
            self.wf(),
            next.wf(),
            self.extend_fits(next),
        ensures
            r.1 as int == round_up(self.size as int, next.align as int),
            r.0.size == r.1 + next.size,
            r.0.align as int == max(self.align as int, next.align as int),
            r.0.wf(),
    {
        proof {
            lemma_align_pos(next.align as int);
            lemma_align_pos(self.align as int);
            lemma_round_up_bounds(self.size as int, next.align as int);
        }
        let offset: usize = round_up_exec(self.size, next.align);
        let new_size: usize = offset + next.size;
        let new_align: usize = if self.align >= next.align {
            self.align
        } else {
            next.align
        };
        (Layout { size: new_size, align: new_align }, offset)
    }

    /// Round the size up to a multiple of the alignment, as the allocator
    /// demands of a complete block.
    pub fn pad_to_align(&self) -> (r: Layout)
        requires
            self.wf(),
        ensures
            r.size as int == round_up(self.size as int, self.align as int),
            r.align == self.align,
            r.wf(),
    {
        proof {
            lemma_align_pos(self.align as int);
            let a: int = self.align as int;
            let m: int = isize::MAX as int - (isize::MAX as int % a);
            assert(m % a == 0 && m >= 0) by (nonlinear_arith)
                requires
                    a >= 1,
                    m == isize::MAX as int - (isize::MAX as int % a),
            ;
            lemma_round_up_bounds(self.size as int, a);
            lemma_round_up_mono(self.size as int, m, a);
            lemma_round_up_exact(m, a);
        }
        let padded: usize = round_up_exec(self.size, self.align);
        Layout { size: padded, align: self.align }
    }
}

} // verus!
