//! The deep-recursion scenario, driven over a simulated machine: a
//! virtual stack pointer that loses a kilobyte per frame, growing onto a
//! fresh spare stack whenever fewer than sixty-four kilobytes remain, and
//! unwinding every level on the way back out.

use stacker::{
    get_stack_limit, needs_growth, plan_spare_stack, set_stack_limit, stack_direction,
    StackLimit, StackRegion, StackRestoreGuard,
};

#[test]
fn deep() {
    const RED_ZONE: usize = 64 * 1024;
    const STACK_SIZE: usize = 1024 * 1024;
    const PAGE: usize = 4096;
    const MAPPING: usize = 0x4000_0000;
    const FRAME: usize = 1024;

    let plan = plan_spare_stack(STACK_SIZE, PAGE).unwrap();
    let mut cell = StackLimit::new(None);
    let mut sp: usize = 0x7000_0000;
    let mut guards: Vec<(StackRestoreGuard, usize)> = Vec::new();
    let mut depth: usize = 256 * 1024;
    while depth > 0 {
        sp -= FRAME;
        if needs_growth(sp, get_stack_limit(&cell), RED_ZONE) {
            let guard = StackRestoreGuard::new(MAPPING, plan, &cell);
            let region: StackRegion = guard.region();
            set_stack_limit(&mut cell, Some(region.base));
            guards.push((guard, sp));
            sp = region.initial_stack_pointer(stack_direction());
        }
        depth -= 1;
    }
    println!("bottom");
    while let Some((guard, saved_sp)) = guards.pop() {
        guard.release(&mut cell);
        sp = saved_sp;
    }
    assert_eq!(get_stack_limit(&cell), None);
    assert_eq!(sp, 0x7000_0000 - FRAME);
}
