//! The growth orchestrator on concrete machines: nesting, failure
//! propagation, the in-place fast path, and the spare-stack layout.

use stacker::{
    get_stack_limit, grow, maybe_grow, needs_growth, nested_grow, plan_spare_stack,
    remaining_stack, SpareStackPlan, StackLimit, StackRestoreGuard,
};

const PAGE: usize = 4096;
const MAPPING: usize = 0x4000_0000;
const SP: usize = 0x7000_0000;

#[test]
fn remaining_stack_measures_down_to_the_limit() {
    assert_eq!(remaining_stack(1000, Some(400)), Some(600));
    assert_eq!(remaining_stack(400, Some(400)), Some(0));
    assert_eq!(remaining_stack(300, Some(400)), Some(0));
    assert_eq!(remaining_stack(300, None), None);
}

#[test]
fn unknown_limit_forces_growth() {
    assert!(needs_growth(SP, None, 0));
    assert!(needs_growth(SP, Some(SP - 100), 200));
    assert!(!needs_growth(SP, Some(SP - 100), 100));
}

#[test]
fn plan_rounds_to_whole_pages_with_one_guard_page() {
    assert_eq!(
        plan_spare_stack(5000, PAGE),
        Some(SpareStackPlan { total_size: 12288, guard_size: PAGE, usable_size: 8192 })
    );
    assert_eq!(
        plan_spare_stack(0, PAGE),
        Some(SpareStackPlan { total_size: 2 * PAGE, guard_size: PAGE, usable_size: PAGE })
    );
    assert_eq!(
        plan_spare_stack(PAGE, PAGE),
        Some(SpareStackPlan { total_size: 2 * PAGE, guard_size: PAGE, usable_size: PAGE })
    );
}

#[test]
fn plan_rejects_overflowing_requests() {
    assert_eq!(plan_spare_stack(usize::MAX, PAGE), None);
    assert_eq!(plan_spare_stack(isize::MAX as usize, PAGE), None);
}

#[test]
fn guard_release_restores_the_recorded_limit() {
    let mut cell = StackLimit::new(Some(0x1234_5670));
    let plan = plan_spare_stack(65536, PAGE).unwrap();
    let guard = StackRestoreGuard::new(MAPPING, plan, &cell);
    let usable = guard.region();
    assert_eq!(usable.base, MAPPING + PAGE);
    assert_eq!(usable.size, 65536);
    stacker::set_stack_limit(&mut cell, Some(usable.base));
    let mapping = guard.release(&mut cell);
    assert_eq!(mapping, (MAPPING, plan.total_size));
    assert_eq!(get_stack_limit(&cell), Some(0x1234_5670));
}

#[test]
fn grow_restores_the_limit_and_returns_the_value() {
    let cell = StackLimit::new(Some(0x2000));
    let (cell, out) = grow(65536, PAGE, MAPPING, SP, cell, |c| {
        // the callback sees the spare stack's usable base as its bound
        assert_eq!(get_stack_limit(&c), Some(MAPPING + PAGE));
        (c, Ok::<u64, u64>(9000))
    });
    assert_eq!(out, Ok(9000));
    assert_eq!(get_stack_limit(&cell), Some(0x2000));
}

#[test]
fn maybe_grow_runs_in_place_when_room_remains() {
    let cell = StackLimit::new(Some(SP - 0x10_0000));
    let (cell, out) = maybe_grow(1024, 65536, PAGE, MAPPING, SP, cell, |c| {
        // in place: the cached bound is untouched
        assert_eq!(get_stack_limit(&c), Some(SP - 0x10_0000));
        (c, Ok::<u64, u64>(7))
    });
    assert_eq!(out, Ok(7));
    assert_eq!(get_stack_limit(&cell), Some(SP - 0x10_0000));
}

#[test]
fn maybe_grow_switches_when_the_red_zone_is_hit() {
    let cell = StackLimit::new(None);
    let (cell, out) = maybe_grow(1024, 65536, PAGE, MAPPING, SP, cell, |c| {
        assert_eq!(get_stack_limit(&c), Some(MAPPING + PAGE));
        (c, Ok::<u64, u64>(11))
    });
    assert_eq!(out, Ok(11));
    assert_eq!(get_stack_limit(&cell), None);
}

#[test]
fn nested_grows_restore_the_limit_at_depth_16() {
    let cell = StackLimit::new(Some(0x8000));
    let (cell, out) = nested_grow(16, None, 65536, PAGE, MAPPING, SP, cell);
    assert_eq!(out, Ok(0));
    assert_eq!(get_stack_limit(&cell), Some(0x8000));
}

#[test]
fn failure_sixteen_levels_deep_reaches_the_outermost_call() {
    let cell = StackLimit::new(Some(0x8000));
    let mut failures_seen: u32 = 0;
    let (cell, out) = nested_grow(16, Some(0xDEAD), 65536, PAGE, MAPPING, SP, cell);
    if let Err(payload) = out {
        failures_seen += 1;
        assert_eq!(payload, 0xDEAD);
    }
    assert_eq!(failures_seen, 1);
    assert_eq!(get_stack_limit(&cell), Some(0x8000));
}

fn fib_grown(n: u64, cell: StackLimit) -> (StackLimit, u64) {
    if n < 2 {
        return (cell, n);
    }
    let (cell, first) = grow(PAGE, PAGE, MAPPING, SP, cell, |c| {
        let (c, v) = fib_grown(n - 1, c);
        (c, Ok::<u64, u64>(v))
    });
    let (cell, second) = grow(PAGE, PAGE, MAPPING, SP, cell, |c| {
        let (c, v) = fib_grown(n - 2, c);
        (c, Ok::<u64, u64>(v))
    });
    (cell, first.unwrap() + second.unwrap())
}

#[test]
fn independent_cells_do_not_interfere() {
    // one limit cell per logical thread, interleaved: each computation
    // only ever sees its own cell
    let cells = [
        StackLimit::new(Some(0x1000)),
        StackLimit::new(None),
        StackLimit::new(Some(0x9000)),
    ];
    let [a, b, c] = cells;
    let (a, fib8) = fib_grown(8, a);
    let (b, fib16) = fib_grown(16, b);
    let (c, fib24) = fib_grown(24, c);
    assert_eq!(fib8, 21);
    assert_eq!(fib16, 987);
    assert_eq!(fib24, 46368);
    assert_eq!(get_stack_limit(&a), Some(0x1000));
    assert_eq!(get_stack_limit(&b), None);
    assert_eq!(get_stack_limit(&c), Some(0x9000));
}
