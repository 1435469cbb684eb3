//! The growth orchestrator.
//!
//! `maybe_grow` is the instrumented-call-site check: run the callback in
//! place while at least `red_zone` bytes remain, switch onto a fresh spare
//! stack otherwise. `grow` is the unconditional protocol: lay out a spare
//! stack, push its usable base as the thread's stack limit, run the
//! callback on the region through the switch, then release the guard so
//! the limit cached on entry is restored — whether the callback completed
//! or handed back a captured failure. A failure crosses the switch as the
//! `Err` of the callback's result, never by unwinding, and leaves the
//! orchestrator only after the spare stack has been released.
//!
//! The callback takes the thread's limit cell by value and hands it back,
//! the way the embedding layer threads its thread-local cell through a
//! nested growth call.

use vstd::prelude::*;

use crate::guard::{plan_spare_stack, spec_plan_fits, spec_usable_size, StackRestoreGuard};
use crate::limit::{set_stack_limit, StackLimit};
use crate::switch::on_stack;
use crate::STACK_ALIGNMENT;

verus! {

/// The bytes still usable on the current stack: the distance from the
/// stack pointer down to the cached limit, zero once the pointer has
/// passed the limit, unknown while no limit is cached.
pub open spec fn spec_remaining(sp: usize, limit: Option<usize>) -> Option<usize> {
    match limit {
        Some(l) => Some(
            if sp >= l {
                (sp - l) as usize
            } else {
                0usize
            },
        ),
        None => None,
    }
}

/// Whether an instrumented call site must switch stacks: the remaining
/// bytes are below the red zone, or no bound is known and the stack must
/// be assumed exhausted.
pub open spec fn spec_needs_growth(sp: usize, limit: Option<usize>, red_zone: usize) -> bool {
    match spec_remaining(sp, limit) {
        Some(rem) => rem < red_zone,
        None => true,
    }
}

/// The stack limit pushed while a grown computation runs: the base of the
/// spare stack's usable span, just above its guard page.
pub open spec fn spec_grown_limit(mapping_base: usize, page_size: usize) -> int {
    mapping_base + page_size
}

/// `result` is something `callback` can return when handed a limit cell
/// holding `new_limit` — the record that a grown computation really ran
/// with the spare stack's usable base as the cached bound.
pub open spec fn spec_ran_grown<T, E, F: FnOnce(StackLimit) -> (StackLimit, Result<T, E>)>(
    callback: F,
    new_limit: usize,
    result: Result<T, E>,
) -> bool {
    exists|c_in: StackLimit, c_out: StackLimit|
        #![trigger call_ensures(callback, (c_in,), ((c_out, result)))]
        c_in.spec_limit() == Some(new_limit) && call_ensures(callback, (c_in,), ((c_out, result)))
}

/// Best-effort estimate of the stack bytes still usable at stack pointer
/// `sp` under the cached bound `limit`; `None` when no bound is known.
pub fn remaining_stack(sp: usize, limit: Option<usize>) -> (r: Option<usize>)
    ensures
        r == spec_remaining(sp, limit),
{
    match limit {
        Some(l) => Some(sp.saturating_sub(l)),
        None => None,
    }
}

/// Whether a call site with `red_zone` bytes of margin must switch stacks.
pub fn needs_growth(sp: usize, limit: Option<usize>, red_zone: usize) -> (r: bool)
    ensures
        r == spec_needs_growth(sp, limit, red_zone),
{
    match remaining_stack(sp, limit) {
        Some(rem) => rem < red_zone,
        None => true,
    }
}

/// `callback` hands the limit cell back holding the bound it was given.
/// Every disciplined computation obeys this: the cache is mutated only by
/// the growth orchestrator, and the orchestrator restores it on the way
/// out of every nested growth call.
pub open spec fn spec_preserves_limit<T, E, F: FnOnce(StackLimit) -> (StackLimit, Result<T, E>)>(
    callback: F,
) -> bool {
    forall|c_in: StackLimit, c_out: StackLimit, r: Result<T, E>|
        #![trigger call_ensures(callback, (c_in,), ((c_out, r)))]
        call_ensures(callback, (c_in,), ((c_out, r))) ==> c_out.spec_limit() == c_in.spec_limit()
}

/// The instrumented-call-site check: runs `callback` in place when at
/// least `red_zone` bytes remain ahead of the cached bound at stack
/// pointer `sp`, and through `grow` on a fresh spare stack otherwise —
/// in particular whenever no bound is known. Either way the cell comes
/// back holding the bound it held on entry.
pub fn maybe_grow<T, E, F: FnOnce(StackLimit) -> (StackLimit, Result<T, E>)>(
    red_zone: usize,
    stack_size: usize,
    page_size: usize,
    mapping_base: usize,
    sp: usize,
    cell: StackLimit,
    callback: F,
) -> (res: (StackLimit, Result<T, E>))
    requires
        page_size > 0,
        page_size % STACK_ALIGNMENT == 0,
        spec_plan_fits(stack_size as int, page_size as int),
        mapping_base % STACK_ALIGNMENT == 0,
        mapping_base + page_size + spec_usable_size(stack_size as int, page_size as int)
            <= usize::MAX as int,
        call_requires(callback, (cell,)),
        forall|c: StackLimit|
            c.spec_limit() == Some((spec_grown_limit(mapping_base, page_size)) as usize)
                ==> call_requires(callback, (c,)),
        spec_preserves_limit(callback),
    ensures
        res.0.spec_limit() == cell.spec_limit(),
        !spec_needs_growth(sp, cell.spec_limit(), red_zone) ==> call_ensures(
            callback,
            (cell,),
            ((res.0, res.1)),
        ),
        spec_needs_growth(sp, cell.spec_limit(), red_zone) ==> spec_ran_grown(
            callback,
            (spec_grown_limit(mapping_base, page_size)) as usize,
            res.1,
        ),
{
    let limit = crate::limit::get_stack_limit(&cell);
    if !needs_growth(sp, limit, red_zone) {
        let out = callback(cell);
        proof {
            assert(call_ensures(callback, (cell,), ((out.0, out.1))));
        }
        out
    } else {
        grow(stack_size, page_size, mapping_base, sp, cell, callback)
    }
}

/// Runs `callback` on a fresh spare stack of at least `stack_size` usable
/// bytes, mapped at `mapping_base` with one guard page below the usable
/// span. The thread's cached limit is the usable base while the callback
/// runs and is restored to its entry value before the result — completed
/// value or captured failure alike — leaves the call.
pub fn grow<T, E, F: FnOnce(StackLimit) -> (StackLimit, Result<T, E>)>(
    stack_size: usize,
    page_size: usize,
    mapping_base: usize,
    sp: usize,
    cell: StackLimit,
    callback: F,
) -> (res: (StackLimit, Result<T, E>))
    requires
        page_size > 0,
        page_size % STACK_ALIGNMENT == 0,
        spec_plan_fits(stack_size as int, page_size as int),
        mapping_base % STACK_ALIGNMENT == 0,
        mapping_base + page_size + spec_usable_size(stack_size as int, page_size as int)
            <= usize::MAX as int,
        forall|c: StackLimit|
            c.spec_limit() == Some((spec_grown_limit(mapping_base, page_size)) as usize)
                ==> call_requires(callback, (c,)),
    ensures
        res.0.spec_limit() == cell.spec_limit(),
        spec_ran_grown(callback, (spec_grown_limit(mapping_base, page_size)) as usize, res.1),
{
    let plan = match plan_spare_stack(stack_size, page_size) {
        Some(p) => p,
        None => vstd::pervasive::unreached(),
    };
    let guard = StackRestoreGuard::new(mapping_base, plan, &cell);
    let region = guard.region();
    let mut inner_cell = cell;
    set_stack_limit(&mut inner_cell, Some(region.base));
    let wrapper = |p: usize| -> (out: (StackLimit, Result<T, E>))
        ensures
            call_ensures(callback, (inner_cell,), out),
        { callback(inner_cell) };
    let (out, _restored_sp) = on_stack(sp, region, wrapper);
    proof {
        assert(call_ensures(callback, (inner_cell,), ((out.0, out.1))));
    }
    let (mut returned_cell, result) = out;
    let _mapping = guard.release(&mut returned_cell);
    (returned_cell, result)
}

/// What a `depth`-deep nest of growth calls delivers: the failure raised
/// at the innermost level when one is injected, the completed value
/// otherwise.
pub open spec fn spec_nested_outcome(fail: Option<u64>) -> Result<usize, u64> {
    match fail {
        Some(payload) => Err(payload),
        None => Ok(0usize),
    }
}

/// Nested growth calls compose: growing `depth` levels deep, one spare
/// stack per level, hands the limit cell back holding the bound it held
/// on entry — at every level, whatever the depth. A failure injected at
/// the innermost level crosses every switch as data and reaches the
/// outermost call exactly as it was raised, after each level's spare
/// stack has been released.
pub fn nested_grow(
    depth: usize,
    fail: Option<u64>,
    stack_size: usize,
    page_size: usize,
    mapping_base: usize,
    sp: usize,
    cell: StackLimit,
) -> (res: (StackLimit, Result<usize, u64>))
    requires
        page_size > 0,
        page_size % STACK_ALIGNMENT == 0,
        spec_plan_fits(stack_size as int, page_size as int),
        mapping_base % STACK_ALIGNMENT == 0,
        mapping_base + page_size + spec_usable_size(stack_size as int, page_size as int)
            <= usize::MAX as int,
    ensures
        res.0.spec_limit() == cell.spec_limit(),
        res.1 == spec_nested_outcome(fail),
    decreases depth,
{
    if depth == 0 {
        let outcome: Result<usize, u64> = match fail {
            Some(payload) => Err(payload),
            None => Ok(0usize),
        };
        (cell, outcome)
    } else {
        let next_depth = depth - 1;
        let level = |c: StackLimit| -> (out: (StackLimit, Result<usize, u64>))
            ensures
                out.0.spec_limit() == c.spec_limit(),
                out.1 == spec_nested_outcome(fail),
            { nested_grow(next_depth, fail, stack_size, page_size, mapping_base, sp, c) };
        grow(stack_size, page_size, mapping_base, sp, cell, level)
    }
}

} // verus!
