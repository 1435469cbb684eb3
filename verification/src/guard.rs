//! Spare-stack layout and the growth guard.
//!
//! A spare stack is a page-aligned mapping with one inaccessible guard page
//! at its low end and a usable span above it. `plan_spare_stack` computes
//! the layout from the requested byte count; `StackRestoreGuard` ties the
//! mapping and the previous cached stack limit together so that releasing
//! the guard always restores the limit that was cached when it was made,
//! on the normal path and on the captured-failure path alike.

use vstd::math::max;
use vstd::prelude::*;

use crate::limit::{set_stack_limit, StackLimit};
use crate::region::StackRegion;
use crate::STACK_ALIGNMENT;

verus! {

/// `n` rounded up to the next multiple of `page_size`.
pub open spec fn spec_round_up_to_pages(n: int, page_size: int) -> int {
    ((n + page_size - 1) / page_size) * page_size
}

/// The usable byte count a spare stack gets for a request of `requested`
/// bytes: at least one whole page, whole pages in all.
pub open spec fn spec_usable_size(requested: int, page_size: int) -> int {
    max(page_size, spec_round_up_to_pages(requested, page_size))
}

/// Whether a spare stack of `requested` usable bytes plus its guard page
/// fits the machine's arithmetic: the rounding does not overflow and the
/// whole mapping stays within the signed address-difference range.
pub open spec fn spec_plan_fits(requested: int, page_size: int) -> bool {
    &&& requested + page_size - 1 <= usize::MAX as int
    &&& page_size + spec_usable_size(requested, page_size) <= isize::MAX as int
}

/// Rounding up to whole pages lands on a multiple of `page_size`, moves
/// nothing down, and moves less than one page up.
pub proof fn lemma_round_up_to_pages(n: int, page_size: int)
    requires
        n >= 0,
        page_size > 0,
    ensures
        spec_round_up_to_pages(n, page_size) % page_size == 0,
        n <= spec_round_up_to_pages(n, page_size) < n + page_size,
{
    let q = (n + page_size - 1) / page_size;
    let r = (n + page_size - 1) % page_size;
    vstd::arithmetic::div_mod::lemma_fundamental_div_mod(n + page_size - 1, page_size);
    vstd::arithmetic::div_mod::lemma_mod_bound(n + page_size - 1, page_size);
    assert(q * page_size == n + page_size - 1 - r) by (nonlinear_arith)
        requires
            n + page_size - 1 == page_size * q + r,
    ;
    vstd::arithmetic::div_mod::lemma_mod_multiples_basic(q, page_size);
}

/// The layout of one spare stack: an inaccessible guard page at the low
/// end of the mapping and the usable span above it.
#[derive(Clone, Copy, Debug, PartialEq, Eq, Structural)]
pub struct SpareStackPlan {
    /// Length of the whole mapping, guard page included.
    pub total_size: usize,
    /// Length of the inaccessible guard span at the mapping's low end.
    pub guard_size: usize,
    /// Length of the usable span above the guard.
    pub usable_size: usize,
}

impl SpareStackPlan {
    /// Internal consistency of a layout, independent of the page size it
    /// was computed from.
    pub open spec fn wf(self) -> bool {
        &&& self.guard_size > 0
        &&& self.guard_size % STACK_ALIGNMENT == 0
        &&& self.usable_size > 0
        &&& self.usable_size % STACK_ALIGNMENT == 0
        &&& self.total_size == self.guard_size + self.usable_size
        &&& self.total_size <= isize::MAX as int
    }
}

/// Computes the layout of a spare stack that offers at least `requested`
/// usable bytes: whole pages only, one further page of guard space below.
/// Returns `None` exactly when the arithmetic would overflow; a caller
/// with no degraded path left must then abort, as a spare stack cannot be
/// shrunk to fit.
pub fn plan_spare_stack(requested: usize, page_size: usize) -> (r: Option<SpareStackPlan>)
    requires
        page_size > 0,
        page_size % STACK_ALIGNMENT == 0,
    ensures
        r is Some <==> spec_plan_fits(requested as int, page_size as int),
        r matches Some(p) ==> {
            &&& p.guard_size == page_size
            &&& p.usable_size == spec_usable_size(requested as int, page_size as int)
            &&& p.total_size == page_size + p.usable_size
            &&& p.wf()
        },
{
    proof {
        lemma_round_up_to_pages(requested as int, page_size as int);
    }
    let rounded = match requested.checked_add(page_size - 1) {
        Some(n) => n / page_size * page_size,
        None => {
            return None;
        },
    };
    let usable = if rounded < page_size {
        page_size
    } else {
        rounded
    };
    proof {
        vstd::arithmetic::div_mod::lemma_mod_self_0(page_size as int);
        assert(usable % page_size == 0);
        lemma_mod_divides_alignment(usable as int, page_size as int);
    }
    match page_size.checked_add(usable) {
        Some(total) => {
            if total <= isize::MAX as usize {
                Some(SpareStackPlan { total_size: total, guard_size: page_size, usable_size: usable })
            } else {
                None
            }
        },
        None => None,
    }
}

/// A multiple of a `STACK_ALIGNMENT`-aligned page size is itself aligned.
proof fn lemma_mod_divides_alignment(n: int, page_size: int)
    requires
        page_size > 0,
        page_size % (STACK_ALIGNMENT as int) == 0,
        n % page_size == 0,
    ensures
        n % (STACK_ALIGNMENT as int) == 0,
{
    let a = STACK_ALIGNMENT as int;
    let k = n / page_size;
    let m = page_size / a;
    vstd::arithmetic::div_mod::lemma_fundamental_div_mod(n, page_size);
    vstd::arithmetic::div_mod::lemma_fundamental_div_mod(page_size, a);
    assert(n == (k * m) * a) by (nonlinear_arith)
        requires
            n == page_size * k + n % page_size,
            n % page_size == 0,
            page_size == a * m + page_size % a,
            page_size % a == 0,
    ;
    vstd::arithmetic::div_mod::lemma_mod_multiples_basic(k * m, a);
}

/// The scoped object a growth call holds while a spare stack is in use:
/// the mapping, its usable span, and the stack limit that was cached when
/// the guard was made, to be restored when the guard is released.
pub struct StackRestoreGuard {
    region: StackRegion,
    mapping_base: usize,
    total_size: usize,
    saved_limit: Option<usize>,
}

impl StackRestoreGuard {
    /// The usable span of the spare stack, above the guard page.
    pub closed spec fn spec_region(self) -> StackRegion {
        self.region
    }

    /// The whole mapping as (lowest address, length), guard page included.
    pub closed spec fn spec_mapping(self) -> (usize, usize) {
        (self.mapping_base, self.total_size)
    }

    /// The stack limit cached when the guard was made.
    pub closed spec fn spec_saved_limit(self) -> Option<usize> {
        self.saved_limit
    }

    /// Adopts a fresh mapping of `plan.total_size` bytes at `mapping_base`
    /// and records the currently cached stack limit for restoration.
    pub fn new(mapping_base: usize, plan: SpareStackPlan, limit: &StackLimit) -> (g:
        StackRestoreGuard)
        requires
            plan.wf(),
            mapping_base % STACK_ALIGNMENT == 0,
            mapping_base + plan.total_size <= usize::MAX as int,
        ensures
            g.spec_region() == (StackRegion {
                base: (mapping_base + plan.guard_size) as usize,
                size: plan.usable_size,
            }),
            g.spec_region().wf(),
            g.spec_mapping() == (mapping_base, plan.total_size),
            g.spec_saved_limit() == limit.spec_limit(),
    {
        let region = StackRegion { base: mapping_base + plan.guard_size, size: plan.usable_size };
        StackRestoreGuard {
            region,
            mapping_base,
            total_size: plan.total_size,
            saved_limit: crate::limit::get_stack_limit(limit),
        }
    }

    /// The usable span of the spare stack.
    pub fn region(&self) -> (r: StackRegion)
        ensures
            r == self.spec_region(),
    {
        self.region
    }

    /// Gives the guard up: restores the stack limit that was cached when
    /// the guard was made and hands back the mapping to be unmapped. Every
    /// exit path of a growth call must end here, whether the computation
    /// completed or its failure was captured.
    pub fn release(self, limit: &mut StackLimit) -> (m: (usize, usize))
        ensures
            final(limit).spec_limit() == self.spec_saved_limit(),
            m == self.spec_mapping(),
    {
        set_stack_limit(limit, self.saved_limit);
        (self.mapping_base, self.total_size)
    }
}

} // verus!
