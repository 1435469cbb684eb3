//! The direction in which the stack grows on the target.
//!
//! Every instruction set this library's switch protocol is modelled for
//! pushes frames toward lower addresses, so the direction is a constant of
//! the build: it is queried, never mutated, and any two queries agree.

use vstd::prelude::*;

verus! {

/// Whether addresses grow upward or downward as frames are pushed.
#[derive(Clone, Copy, Debug, PartialEq, Eq, Structural)]
pub enum StackDirection {
    /// Frames are pushed toward higher addresses.
    Ascending,
    /// Frames are pushed toward lower addresses.
    Descending,
}

/// The direction fixed by the target architecture.
pub open spec fn spec_stack_direction() -> StackDirection {
    StackDirection::Descending
}

/// Reports the direction in which the target's stack grows.
pub fn stack_direction() -> (d: StackDirection)
    ensures
        d == spec_stack_direction(),
{
    StackDirection::Descending
}

/// The direction is a constant of the run: any two values obtained from
/// `stack_direction` are equal, however far apart the calls were made.
pub proof fn lemma_stack_direction_constant(a: StackDirection, b: StackDirection)
    requires
        a == spec_stack_direction(),
        b == spec_stack_direction(),
    ensures
        a == b,
{
}

} // verus!
