//! End-to-end scheduling scenarios: boot, first dispatch, self-blocking,
//! task exit, and the bitmask round trips that higher-level synchronization
//! primitives rely on.

use sched_core::kernel::block_tasks;
use sched_core::kernel::create_task;
use sched_core::kernel::get_curr_tid;
use sched_core::kernel::init;
use sched_core::kernel::release;
use sched_core::kernel::schedule;
use sched_core::kernel::start_kernel;
use sched_core::kernel::task_exit;
use sched_core::kernel::unblock_tasks;
use sched_core::scheduler::ScheduleOutcome;
use sched_core::scheduler::Scheduler;
use sched_core::scheduler::SwitchAction;

fn stack_of(words: usize) -> Vec<u32> {
    vec![0u32; words]
}

/// Boot with tasks 3 and 5 registered; the first dispatch picks task 5, the
/// highest active priority, over task 3 and the idle task.
fn booted_with_tasks_3_and_5() -> Scheduler {
    let mut s = Scheduler::new();
    init(&mut s, true).unwrap();
    let mut stack_a = stack_of(64);
    create_task(&mut s, true, 3, &mut stack_a, 0x100, 0).unwrap();
    let mut stack_b = stack_of(64);
    create_task(&mut s, true, 5, &mut stack_b, 0x200, 0).unwrap();
    let first = start_kernel(&mut s, true).unwrap();
    assert_eq!(first, SwitchAction::FirstDispatch { in_tid: 5 });
    s
}

#[test]
fn first_dispatch_selects_highest_priority() {
    let s = booted_with_tasks_3_and_5();
    assert_eq!(get_curr_tid(&s), 5);
    assert!(s.started);
    assert!(s.is_running);
    assert_eq!(s.active_tasks, 0b10_1001);
}

#[test]
fn blocking_the_running_task_yields_to_the_next() {
    let mut s = booted_with_tasks_3_and_5();
    // Task 5 blocks itself; the scheduling decision that follows selects 3.
    let outcome = block_tasks(&mut s, true, 1 << 5);
    assert_eq!(
        outcome,
        ScheduleOutcome::Performed(SwitchAction::Switch { out_tid: 5, in_tid: 3 })
    );
    assert_eq!(get_curr_tid(&s), 3);
    assert_eq!(s.active_tasks, 0b1001);
    assert_eq!(s.blocked_tasks, 0b10_0000);
    // No task is ever in both sets at once.
    assert_eq!(s.active_tasks & s.blocked_tasks, 0);
}

#[test]
fn exited_task_is_never_selected_again() {
    let mut s = booted_with_tasks_3_and_5();
    block_tasks(&mut s, true, 1 << 5);
    assert_eq!(get_curr_tid(&s), 3);
    // Task 3 finishes: its bit is cleared permanently and the idle task runs.
    let outcome = task_exit(&mut s, true);
    assert_eq!(
        outcome,
        ScheduleOutcome::Performed(SwitchAction::Switch { out_tid: 3, in_tid: 0 })
    );
    assert_eq!(get_curr_tid(&s), 0);
    assert_eq!(s.active_tasks, 0b1);
    // Releasing an exited task is a no-op: it was never blocked, only gone.
    unblock_tasks(&mut s, 1 << 3);
    assert_eq!(s.active_tasks, 0b1);
    assert_eq!(
        schedule(&mut s, true),
        ScheduleOutcome::Performed(SwitchAction::NoSwitch)
    );
    assert_eq!(get_curr_tid(&s), 0);
    // Task 5 was merely blocked, so releasing it does work.
    release(&mut s, 1 << 5);
    assert_eq!(
        schedule(&mut s, true),
        ScheduleOutcome::Performed(SwitchAction::Switch { out_tid: 0, in_tid: 5 })
    );
    assert_eq!(get_curr_tid(&s), 5);
}

#[test]
fn block_then_release_restores_the_masks() {
    let mut s = booted_with_tasks_3_and_5();
    let active = s.active_tasks;
    let blocked = s.blocked_tasks;
    // Task 3 is active and not running; block it, then release it.
    block_tasks(&mut s, true, 1 << 3);
    assert_eq!(s.active_tasks, active & !(1 << 3));
    unblock_tasks(&mut s, 1 << 3);
    assert_eq!(s.active_tasks, active);
    assert_eq!(s.blocked_tasks, blocked);
}

#[test]
fn blocking_is_idempotent_per_bit() {
    let mut s = booted_with_tasks_3_and_5();
    block_tasks(&mut s, true, 1 << 3);
    let active = s.active_tasks;
    let blocked = s.blocked_tasks;
    block_tasks(&mut s, true, 1 << 3);
    assert_eq!(s.active_tasks, active);
    assert_eq!(s.blocked_tasks, blocked);
}

#[test]
fn blocking_an_unregistered_task_is_a_no_op() {
    let mut s = booted_with_tasks_3_and_5();
    let active = s.active_tasks;
    block_tasks(&mut s, true, 1 << 9);
    assert_eq!(s.active_tasks, active);
    assert_eq!(s.blocked_tasks, 0);
}

#[test]
fn idle_task_bit_survives_every_blocking_mask() {
    let mut s = booted_with_tasks_3_and_5();
    block_tasks(&mut s, true, u32::MAX);
    assert_eq!(s.active_tasks & 1, 1);
    assert_eq!(get_curr_tid(&s), 0);
    block_tasks(&mut s, true, 0b1);
    block_tasks(&mut s, true, u32::MAX);
    assert_eq!(s.active_tasks, 0b1);
    assert_eq!(s.active_tasks & s.blocked_tasks, 0);
}

#[test]
fn unprivileged_task_exit_still_defers_the_switch() {
    let mut s = booted_with_tasks_3_and_5();
    // The bit is cleared either way, but the dispatch of the next task is
    // deferred through the supervisor-call trap.
    let outcome = task_exit(&mut s, false);
    assert_eq!(outcome, ScheduleOutcome::EscalateViaSvc);
    assert_eq!(s.active_tasks, 0b1001);
    assert_eq!(get_curr_tid(&s), 5);
    // The trap handler reruns the decision privileged.
    assert_eq!(
        schedule(&mut s, true),
        ScheduleOutcome::Performed(SwitchAction::Switch { out_tid: 5, in_tid: 3 })
    );
    assert_eq!(get_curr_tid(&s), 3);
}
