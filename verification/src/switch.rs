//! The stack-switch protocol.
//!
//! The register exchange itself is a fixed trampoline in the embedding
//! layer; this module is its contract, stated over an explicit stack
//! pointer. Entering a region places execution one trampoline frame inside
//! it, the callback runs there to completion, and a switch that is meant
//! to return hands back exactly the stack pointer it was given. A callback
//! must terminate normally: the two stacks are disjoint frame chains, so a
//! failure is carried back as ordinary data, never by unwinding across the
//! switch.

use vstd::prelude::*;

use crate::direction::{spec_stack_direction, stack_direction, StackDirection};
use crate::region::StackRegion;
use crate::STACK_ALIGNMENT;

verus! {

/// The stack pointer the callback observes right after the switch: one
/// trampoline frame inside the region, measured from the end the stack
/// grows away from.
pub open spec fn spec_callback_pointer(region: StackRegion) -> int {
    match spec_stack_direction() {
        StackDirection::Descending => region.base + region.size - STACK_ALIGNMENT,
        StackDirection::Ascending => region.base as int,
    }
}

/// A well-formed region is at least one alignment unit long.
pub proof fn lemma_region_holds_a_frame(region: StackRegion)
    requires
        region.wf(),
    ensures
        region.size >= STACK_ALIGNMENT,
{
    if region.size < STACK_ALIGNMENT {
        vstd::arithmetic::div_mod::lemma_small_mod(region.size as nat, STACK_ALIGNMENT as nat);
    }
}

/// The stack pointer observed by a callback running on a region lies
/// within that region, whichever way the stack grows.
pub proof fn lemma_callback_pointer_in_region(region: StackRegion)
    requires
        region.wf(),
    ensures
        region.base <= spec_callback_pointer(region) < region.spec_top(),
{
    lemma_region_holds_a_frame(region);
}

/// Runs `callback` with the stack switched onto `region` and switches
/// back: the callback observes a stack pointer one trampoline frame inside
/// the region, and the caller gets its own stack pointer `sp` back
/// bit-identical, however the callback behaved on the region.
pub fn on_stack<R, F: FnOnce(usize) -> R>(sp: usize, region: StackRegion, callback: F) -> (res: (
    R,
    usize,
))
    requires
        region.wf(),
        call_requires(callback, (spec_callback_pointer(region) as usize,)),
    ensures
        res.1 == sp,
        call_ensures(callback, (spec_callback_pointer(region) as usize,), res.0),
{
    proof {
        lemma_region_holds_a_frame(region);
    }
    let direction = stack_direction();
    let entry = region.initial_stack_pointer(direction);
    let inner: usize = match direction {
        StackDirection::Descending => entry - STACK_ALIGNMENT,
        StackDirection::Ascending => entry,
    };
    let r = callback(inner);
    (r, sp)
}

/// Runs `callback` with the stack moved onto `region` for good: the
/// original stack is abandoned, nothing is restored, and the callback's
/// result is the only thing that leaves the switch.
pub fn replace_stack<R, F: FnOnce(usize) -> R>(region: StackRegion, callback: F) -> (r: R)
    requires
        region.wf(),
        call_requires(callback, (spec_callback_pointer(region) as usize,)),
    ensures
        call_ensures(callback, (spec_callback_pointer(region) as usize,), r),
{
    proof {
        lemma_region_holds_a_frame(region);
    }
    let direction = stack_direction();
    let entry = region.initial_stack_pointer(direction);
    let inner: usize = match direction {
        StackDirection::Descending => entry - STACK_ALIGNMENT,
        StackDirection::Ascending => entry,
    };
    callback(inner)
}

} // verus!
