use sched_core::KernelError;
use sched_core::kernel::block_tasks;
use sched_core::kernel::create_task;
use sched_core::kernel::disable_preemption;
use sched_core::kernel::enable_preemption;
use sched_core::kernel::get_curr_tid;
use sched_core::kernel::init;
use sched_core::kernel::is_preemptive;
use sched_core::kernel::preempt;
use sched_core::kernel::schedule;
use sched_core::kernel::start_kernel;
use sched_core::kernel::task_exit;
use sched_core::kernel::tick;
use sched_core::kernel::unblock_tasks;
use sched_core::scheduler::FRAME_WORDS;
use sched_core::scheduler::ScheduleOutcome;
use sched_core::scheduler::Scheduler;
use sched_core::scheduler::SwitchAction;
use sched_core::scheduler::XPSR_INIT;
use sched_core::scheduler::select_next;

fn stack_of(words: usize) -> Vec<u32> {
    vec![0u32; words]
}

#[test]
fn select_next_picks_highest_set_bit() {
    assert_eq!(select_next(0b1), 0);
    assert_eq!(select_next(0b10), 1);
    assert_eq!(select_next(0b10_1001), 5);
    assert_eq!(select_next((1 << 31) | 0b1001), 31);
    assert_eq!(select_next(u32::MAX), 31);
}

#[test]
fn init_creates_idle_task() {
    let mut s = Scheduler::new();
    assert_eq!(s.active_tasks, 0);
    assert!(init(&mut s, true).is_ok());
    assert_eq!(s.active_tasks, 0b1);
    assert!(s.is_preemptive);
    assert!(s.tcbs[0].is_some());
}

#[test]
fn double_init_reports_limit_exceeded() {
    let mut s = Scheduler::new();
    assert!(init(&mut s, false).is_ok());
    assert_eq!(init(&mut s, false), Err(KernelError::LimitExceeded));
}

#[test]
fn create_task_rejects_unprivileged_caller() {
    let mut s = Scheduler::new();
    init(&mut s, true).unwrap();
    let mut stack = stack_of(64);
    let before = s.active_tasks;
    let r = create_task(&mut s, false, 3, &mut stack, 0x100, 0);
    assert_eq!(r, Err(KernelError::AccessDenied));
    assert_eq!(s.active_tasks, before);
    assert!(s.tcbs[3].is_none());
}

#[test]
fn create_task_rejects_short_stack() {
    let mut s = Scheduler::new();
    init(&mut s, true).unwrap();
    let mut stack = stack_of(31);
    let r = create_task(&mut s, true, 3, &mut stack, 0x100, 0);
    assert_eq!(r, Err(KernelError::StackTooSmall));
    assert!(s.tcbs[3].is_none());
}

#[test]
fn create_task_rejects_priority_beyond_capacity() {
    let mut s = Scheduler::new();
    init(&mut s, true).unwrap();
    let mut stack = stack_of(64);
    let r = create_task(&mut s, true, 32, &mut stack, 0x100, 0);
    assert_eq!(r, Err(KernelError::LimitExceeded));
}

#[test]
fn create_task_rejects_occupied_slot() {
    let mut s = Scheduler::new();
    init(&mut s, true).unwrap();
    let mut stack = stack_of(64);
    assert!(create_task(&mut s, true, 3, &mut stack, 0x100, 0).is_ok());
    let mut other = stack_of(64);
    let r = create_task(&mut s, true, 3, &mut other, 0x200, 0);
    assert_eq!(r, Err(KernelError::LimitExceeded));
}

#[test]
fn registry_full_rejects_every_further_task() {
    let mut s = Scheduler::new();
    init(&mut s, true).unwrap();
    for priority in 1..32 {
        let mut stack = stack_of(64);
        assert!(create_task(&mut s, true, priority, &mut stack, 0x100, 0).is_ok());
    }
    let mut stack = stack_of(64);
    for priority in 0..33 {
        let r = create_task(&mut s, true, priority, &mut stack, 0x100, 0);
        assert_eq!(r, Err(KernelError::LimitExceeded));
    }
}

#[test]
fn create_task_synthesizes_initial_frame() {
    let mut s = Scheduler::new();
    init(&mut s, true).unwrap();
    let mut stack = stack_of(64);
    create_task(&mut s, true, 4, &mut stack, 0xdead_beef, 0x42).unwrap();
    assert_eq!(stack[63], XPSR_INIT);
    assert_eq!(stack[62], 0xdead_beef);
    assert_eq!(stack[56], 0x42);
    assert_eq!(s.tcbs[4].unwrap().sp, 64 - FRAME_WORDS);
    assert_eq!(s.active_tasks, 0b1_0001);
}

#[test]
fn preempt_before_start_is_a_no_op() {
    let mut s = Scheduler::new();
    init(&mut s, true).unwrap();
    let mut stack = stack_of(64);
    create_task(&mut s, true, 3, &mut stack, 0x100, 0).unwrap();
    assert_eq!(preempt(&mut s), SwitchAction::NoSwitch);
    assert_eq!(get_curr_tid(&s), 0);
    assert!(!s.started);
}

#[test]
fn start_kernel_rejects_unprivileged_caller() {
    let mut s = Scheduler::new();
    init(&mut s, true).unwrap();
    let r = start_kernel(&mut s, false);
    assert_eq!(r, Err(KernelError::AccessDenied));
    assert!(!s.is_running);
}

#[test]
fn unprivileged_schedule_escalates_without_mutation() {
    let mut s = Scheduler::new();
    init(&mut s, true).unwrap();
    let mut stack = stack_of(64);
    create_task(&mut s, true, 7, &mut stack, 0x100, 0).unwrap();
    start_kernel(&mut s, true).unwrap();
    let active = s.active_tasks;
    let curr = get_curr_tid(&s);
    let outcome = schedule(&mut s, false);
    assert_eq!(outcome, ScheduleOutcome::EscalateViaSvc);
    assert_eq!(s.active_tasks, active);
    assert_eq!(get_curr_tid(&s), curr);
    // The trap handler reruns the same decision in privileged context.
    let escalated = schedule(&mut s, true);
    assert_eq!(escalated, ScheduleOutcome::Performed(SwitchAction::NoSwitch));
}

#[test]
fn preemption_toggles_and_tick_gate() {
    let mut s = Scheduler::new();
    init(&mut s, false).unwrap();
    assert!(!is_preemptive(&s));
    let mut stack = stack_of(64);
    create_task(&mut s, true, 5, &mut stack, 0x100, 0).unwrap();
    // Not running yet: ticks never switch.
    assert_eq!(tick(&mut s), SwitchAction::NoSwitch);
    start_kernel(&mut s, true).unwrap();
    // Running on task 5; exiting hands the CPU to the idle task.
    task_exit(&mut s, true);
    assert_eq!(get_curr_tid(&s), 0);
    enable_preemption(&mut s);
    assert!(is_preemptive(&s));
    disable_preemption(&mut s);
    assert!(!is_preemptive(&s));
}

#[test]
fn tick_respects_preemption_mode() {
    let mut s = Scheduler::new();
    init(&mut s, false).unwrap();
    let mut idle_companion = stack_of(64);
    create_task(&mut s, true, 2, &mut idle_companion, 0x100, 0).unwrap();
    start_kernel(&mut s, true).unwrap();
    // Running on task 2; block it so the idle task takes over.
    block_tasks(&mut s, true, 1 << 2);
    assert_eq!(get_curr_tid(&s), 0);
    // Release it again: cooperative mode, so a tick must not switch.
    unblock_tasks(&mut s, 1 << 2);
    assert_eq!(tick(&mut s), SwitchAction::NoSwitch);
    assert_eq!(get_curr_tid(&s), 0);
    // Preemptive mode: the very next tick dispatches the released task.
    enable_preemption(&mut s);
    assert_eq!(tick(&mut s), SwitchAction::Switch { out_tid: 0, in_tid: 2 });
    assert_eq!(get_curr_tid(&s), 2);
}

#[test]
fn no_spurious_switch_when_selection_equals_current() {
    let mut s = Scheduler::new();
    init(&mut s, true).unwrap();
    let mut stack = stack_of(64);
    create_task(&mut s, true, 6, &mut stack, 0x100, 0).unwrap();
    start_kernel(&mut s, true).unwrap();
    assert_eq!(get_curr_tid(&s), 6);
    // Task 6 is still the highest active task: no request, no change.
    assert_eq!(preempt(&mut s), SwitchAction::NoSwitch);
    assert_eq!(get_curr_tid(&s), 6);
    assert_eq!(
        schedule(&mut s, true),
        ScheduleOutcome::Performed(SwitchAction::NoSwitch)
    );
    assert_eq!(get_curr_tid(&s), 6);
}
