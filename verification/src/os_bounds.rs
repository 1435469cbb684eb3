//! The arithmetic behind the per-OS stack-bound guesses.
//!
//! Each operating system reports the current thread's stack in its own
//! terms — a base address and a size, a top address and a size, or an
//! allocation base plus an overflow-handling guarantee. The system calls
//! themselves live in the embedding layer; the functions here turn what
//! they report into the lowest usable address, and return `None` when the
//! arithmetic leaves the address space, which callers must treat exactly
//! like an unknown bound.

use vstd::prelude::*;

verus! {

/// Page size assumed where the OS reports stack bookkeeping in whole
/// pages without saying how large a page is.
pub const FALLBACK_PAGE_SIZE: usize = 0x1000;

/// The lowest stack address on systems that report the stack's top
/// address and its size: `top - size`, or `None` when the report is
/// inconsistent and the subtraction would leave the address space.
pub fn limit_from_stack_top(top: usize, size: usize) -> (r: Option<usize>)
    ensures
        r matches Some(l) ==> l == top - size,
        r is None <==> top < size,
{
    top.checked_sub(size)
}

/// The stack-overflow-handling guarantee a thread should be assumed to
/// have, from the value the OS reports and the floor the platform
/// documents: the larger of the two, plus one page for the OS's own
/// bookkeeping. `None` when that sum leaves the address space.
pub fn thread_stack_guarantee(reported: usize, floor: usize) -> (r: Option<usize>)
    ensures
        r matches Some(g) ==> g == vstd::math::max(reported as int, floor as int)
            + FALLBACK_PAGE_SIZE,
        r is None <==> vstd::math::max(reported as int, floor as int) + FALLBACK_PAGE_SIZE
            > usize::MAX as int,
{
    let base = if reported >= floor {
        reported
    } else {
        floor
    };
    base.checked_add(FALLBACK_PAGE_SIZE)
}

/// The lowest usable stack address on systems that report the stack
/// allocation's base: the base, plus the thread's overflow-handling
/// guarantee, plus one page left to the OS's guard machinery. `None`
/// when the sum leaves the address space.
pub fn limit_above_allocation_base(allocation_base: usize, guarantee: usize) -> (r: Option<
    usize,
>)
    ensures
        r matches Some(l) ==> l == allocation_base + guarantee + FALLBACK_PAGE_SIZE,
        r is None <==> allocation_base + guarantee + FALLBACK_PAGE_SIZE > usize::MAX as int,
{
    match allocation_base.checked_add(guarantee) {
        Some(n) => n.checked_add(FALLBACK_PAGE_SIZE),
        None => None,
    }
}

} // verus!
