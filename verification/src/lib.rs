//! Manually instrumented stack growth: bookkeeping, region geometry and the
//! growth protocol for running a computation on a caller-supplied stack
//! region, verified over an explicit model of the per-thread stack-limit
//! cache. The register-level stack switch itself and the operating-system
//! queries live in the embedding layer; this crate decides when to grow,
//! how a spare stack is laid out, and how the cached limit is saved and
//! restored around every switch.

use vstd::prelude::*;

pub mod direction;
pub mod growth;
pub mod guard;
pub mod limit;
pub mod os_bounds;
pub mod region;
pub mod switch;

pub use direction::{stack_direction, StackDirection};
pub use growth::{grow, maybe_grow, needs_growth, nested_grow, remaining_stack};
pub use guard::{plan_spare_stack, SpareStackPlan, StackRestoreGuard};
pub use limit::{get_stack_limit, set_stack_limit, StackLimit};
pub use region::{ptr_distance, StackRegion};
pub use switch::{on_stack, replace_stack};

verus! {

/// Alignment, in bytes, that every stack region must satisfy at both ends.
pub const STACK_ALIGNMENT: usize = 16;

} // verus!
