//! Contiguous memory spans used as stacks.
//!
//! A region is described by its lowest address and its length, regardless of
//! the direction in which the stack on it grows. Well-formedness pins down
//! the alignment of both ends and keeps the span inside the address space,
//! within the reach of the platform's signed address-difference type.

use vstd::prelude::*;

use crate::direction::StackDirection;
use crate::STACK_ALIGNMENT;

verus! {

/// A contiguous memory span: `base` is the lowest address of the span and
/// `size` its length in bytes.
#[derive(Clone, Copy, Debug, PartialEq, Eq, Structural)]
pub struct StackRegion {
    /// Lowest address of the span, whichever way the stack on it grows.
    pub base: usize,
    /// Length of the span in bytes.
    pub size: usize,
}

impl StackRegion {
    /// Well-formedness of a span that is to carry stack frames: both ends
    /// aligned, not empty, and short enough that the distance between any
    /// two of its addresses fits the signed address-difference type.
    pub open spec fn wf(self) -> bool {
        &&& self.base % STACK_ALIGNMENT == 0
        &&& self.size % STACK_ALIGNMENT == 0
        &&& self.size > 0
        &&& self.size <= isize::MAX as int
        &&& self.base + self.size <= usize::MAX as int
    }

    /// One past the highest address of the span.
    pub open spec fn spec_top(self) -> int {
        self.base + self.size
    }

    /// Builds a region after checking well-formedness; returns the region
    /// exactly when `base` and `size` describe a well-formed span.
    pub fn new(base: usize, size: usize) -> (r: Option<StackRegion>)
        ensures
            r matches Some(region) ==> region == (StackRegion { base, size })
                && region.wf(),
            r is None ==> !(StackRegion { base, size }).wf(),
    {
        if size == 0 || size > isize::MAX as usize {
            return None;
        }
        if base % STACK_ALIGNMENT != 0 || size % STACK_ALIGNMENT != 0 {
            return None;
        }
        if base > usize::MAX - size {
            return None;
        }
        Some(StackRegion { base, size })
    }

    /// One past the highest address of the span.
    pub fn top(&self) -> (t: usize)
        requires
            self.wf(),
        ensures
            t == self.spec_top(),
    {
        self.base + self.size
    }

    /// Whether `addr` lies inside the span.
    pub fn contains(&self, addr: usize) -> (r: bool)
        requires
            self.wf(),
        ensures
            r == (self.base <= addr < self.spec_top()),
    {
        self.base <= addr && addr - self.base < self.size
    }

    /// The stack pointer with which execution enters the region: its high
    /// end when frames are pushed downward, its low end otherwise.
    pub fn initial_stack_pointer(&self, direction: StackDirection) -> (sp: usize)
        requires
            self.wf(),
        ensures
            direction is Descending ==> sp == self.spec_top(),
            direction is Ascending ==> sp == self.base,
            self.base <= sp <= self.spec_top(),
            sp % STACK_ALIGNMENT == 0,
    {
        match direction {
            StackDirection::Descending => self.base + self.size,
            StackDirection::Ascending => self.base,
        }
    }
}

/// The distance between two addresses, as an absolute value.
pub fn ptr_distance(a: usize, b: usize) -> (d: usize)
    ensures
        d == if a >= b {
            a - b
        } else {
            b - a
        },
{
    if a >= b {
        a - b
    } else {
        b - a
    }
}

} // verus!
