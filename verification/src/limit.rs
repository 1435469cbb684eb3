//! The per-thread stack-limit cache.
//!
//! Each operating-system thread owns one cell holding the lowest address
//! still considered usable on the stack it is currently executing on;
//! `None` means the bound is unknown and every check must assume the stack
//! is exhausted. The embedding layer keeps one such cell in a thread-local
//! slot and threads it through the growth orchestrator, which alone mutates
//! it, under the save-and-restore discipline of `StackRestoreGuard`.

use vstd::prelude::*;

verus! {

/// The cached stack bound of one thread: the lowest address still usable
/// on the stack currently executing, or `None` when no bound is known.
#[derive(Clone, Copy, Debug)]
pub struct StackLimit {
    value: Option<usize>,
}

impl StackLimit {
    /// The cached bound.
    pub closed spec fn spec_limit(self) -> Option<usize> {
        self.value
    }

    /// A fresh cell, seeded with the embedder's best guess of the current
    /// stack's lowest usable address, or `None` when the guess failed.
    pub fn new(initial: Option<usize>) -> (c: StackLimit)
        ensures
            c.spec_limit() == initial,
    {
        StackLimit { value: initial }
    }
}

/// Reads the cached bound.
pub fn get_stack_limit(cell: &StackLimit) -> (l: Option<usize>)
    ensures
        l == cell.spec_limit(),
{
    cell.value
}

/// Overwrites the cached bound.
pub fn set_stack_limit(cell: &mut StackLimit, l: Option<usize>)
    ensures
        final(cell).spec_limit() == l,
{
    cell.value = l;
}

} // verus!
