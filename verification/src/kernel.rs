//! The kernel's public operations: initialization, task creation, the
//! privilege-gated scheduling entry point, preemption, blocking and release,
//! task exit, and the preemption-mode toggles.
//!
//! Each operation takes the scheduler state explicitly and, where the
//! hardware must act or decide, exchanges plain values with the surrounding
//! runtime: the runtime reads the CPU's privilege level and passes it in as
//! `privileged`, and it performs the returned `SwitchAction` or
//! `ScheduleOutcome` (raising the deferred context-switch exception or the
//! supervisor-call trap). The runtime is expected to call every operation
//! inside its interrupt-masking critical section, so each call here is one
//! atomic observable step of the scheduler.

use vstd::prelude::*;
use vstd::pervasive::VecAdditionalExecFns;
use crate::KernelError;
use crate::MAX_TASKS;
use crate::BooleanVector;
use crate::TaskId;
use crate::scheduler::FRAME_WORDS;
use crate::scheduler::MIN_STACK_WORDS;
use crate::scheduler::XPSR_INIT;
use crate::scheduler::SchedView;
use crate::scheduler::Scheduler;
use crate::scheduler::ScheduleOutcome;
use crate::scheduler::SwitchAction;
use crate::scheduler::TaskControlBlock;
use crate::scheduler::bit_set;
use crate::scheduler::free_slot;
use crate::scheduler::lemma_block_preserves_inv;
use crate::scheduler::lemma_exit_preserves_inv;
use crate::scheduler::lemma_unblock_preserves_inv;
use crate::scheduler::select_next;
use crate::scheduler::spec_block;
use crate::scheduler::spec_init_frame;
use crate::scheduler::spec_preempt;
use crate::scheduler::spec_register;
use crate::scheduler::spec_schedule;
use crate::scheduler::spec_task_exit;
use crate::scheduler::spec_tick;
use crate::scheduler::spec_unblock;

verus! {

/// One-time kernel setup: records the preemption mode and creates the
/// always-active idle task at priority 0. The idle task's saved-context
/// handle starts at zero because it initially runs on the boot context.
/// Fails with `LimitExceeded` when slot 0 is already occupied (the kernel
/// was initialized before); the mode is recorded even then.
pub fn init(sched: &mut Scheduler, is_preemptive: bool) -> (r: Result<(), KernelError>)
    requires
        old(sched).wf(),
    ensures
        final(sched).wf(),
        old(sched)@.tcbs[0] is Some ==> r == Err::<(), KernelError>(KernelError::LimitExceeded)
            && final(sched)@ == (SchedView { is_preemptive, ..old(sched)@ }),
        old(sched)@.tcbs[0] is None ==> r == Ok::<(), KernelError>(()) && final(sched)@ == (
        SchedView {
            is_preemptive,
            active_tasks: old(sched)@.active_tasks | 1u32,
            tcbs: old(sched)@.tcbs.update(0, Some(TaskControlBlock { sp: 0 })),
            ..old(sched)@
        }),
{
    sched.is_preemptive = is_preemptive;
    if sched.tcbs[0].is_some() {
        return Err(KernelError::LimitExceeded);
    }
    sched.tcbs.set(0, Some(TaskControlBlock { sp: 0 }));
    let ghost a = sched.active_tasks;
    let ghost b = sched.blocked_tasks;
    sched.active_tasks = sched.active_tasks | 1u32;
    proof {
        assert(!bit_set(b, 0));
        assert((a & b == 0u32 && (b >> 0u32) & 1u32 != 1u32) ==> (a | 1u32) & b == 0u32)
            by (bit_vector);
        assert(((a | 1u32) >> 0u32) & 1u32 == 1u32) by (bit_vector);
        assert forall|i: usize| bit_set(a | 1u32, i) implies sched@.tcbs[i as int] is Some by {
            if i != 0 {
                assert((((a | 1u32) >> (i as u32)) & 1u32 == 1u32 && i < 32 && i != 0) ==> (a >> (
                i as u32)) & 1u32 == 1u32) by (bit_vector);
                assert(bit_set(old(sched)@.active_tasks, i));
            }
        }
    }
    Ok(())
}

/// Registers a task: `priority` is its identifier, priority rank and bit
/// index at once; `stack` is its private stack; `pc` and `arg` are the
/// handler's entry address and argument as plain machine words. On success
/// the initial register frame is synthesized at the top of the stack, so
/// that resuming it enters the handler, and the task becomes active.
///
/// Only a privileged caller may register (`AccessDenied` otherwise); the
/// stack must hold at least `MIN_STACK_WORDS` words (`StackTooSmall`); the
/// slot must exist and be unoccupied (`LimitExceeded`). Tasks are created
/// during the initialization phase only, before the kernel starts.
pub fn create_task(
    sched: &mut Scheduler,
    privileged: bool,
    priority: TaskId,
    stack: &mut Vec<u32>,
    pc: u32,
    arg: u32,
) -> (r: Result<(), KernelError>)
    requires
        old(sched).wf(),
        !old(sched).is_running,
    ensures
        final(sched).wf(),
        !privileged ==> r == Err::<(), KernelError>(KernelError::AccessDenied) && final(sched)@
            == old(sched)@ && final(stack)@ == old(stack)@,
        privileged && old(stack).len() < MIN_STACK_WORDS ==> r == Err::<(), KernelError>(
            KernelError::StackTooSmall,
        ) && final(sched)@ == old(sched)@ && final(stack)@ == old(stack)@,
        privileged && old(stack).len() >= MIN_STACK_WORDS && !free_slot(old(sched)@, priority)
            ==> r == Err::<(), KernelError>(KernelError::LimitExceeded)
            && final(sched)@ == old(sched)@ && final(stack)@ == old(stack)@,
        privileged && old(stack).len() >= MIN_STACK_WORDS && free_slot(old(sched)@, priority)
            ==> r == Ok::<(), KernelError>(()) && final(sched)@ == spec_register(
            old(sched)@,
            priority,
            (old(stack).len() - FRAME_WORDS) as usize,
        ) && final(stack)@ == spec_init_frame(old(stack)@, pc, arg),
{
    if !privileged {
        return Err(KernelError::AccessDenied);
    }
    if stack.len() < MIN_STACK_WORDS {
        return Err(KernelError::StackTooSmall);
    }
    if priority >= MAX_TASKS {
        return Err(KernelError::LimitExceeded);
    }
    if sched.tcbs[priority].is_some() {
        return Err(KernelError::LimitExceeded);
    }
    let len: usize = stack.len();
    stack.set(len - 1, XPSR_INIT);
    stack.set(len - 2, pc);
    stack.set(len - 8, arg);
    sched.tcbs.set(priority, Some(TaskControlBlock { sp: len - FRAME_WORDS }));
    let ghost a = sched.active_tasks;
    let ghost b = sched.blocked_tasks;
    let ghost p = priority;
    sched.active_tasks = sched.active_tasks | (1u32 << (priority as u32));
    proof {
        assert(!bit_set(b, p));
        assert((a & b == 0u32 && (b >> (p as u32)) & 1u32 != 1u32 && p < 32) ==> (a | (1u32 << (
        p as u32))) & b == 0u32) by (bit_vector);
        assert(((a >> 0u32) & 1u32 == 1u32) ==> (((a | (1u32 << (p as u32))) >> 0u32) & 1u32
            == 1u32)) by (bit_vector);
        assert forall|i: usize| bit_set(a | (1u32 << (p as u32)), i) implies sched@.tcbs[i as int]
            is Some by {
            if i != p {
                assert((((a | (1u32 << (p as u32))) >> (i as u32)) & 1u32 == 1u32 && i < 32 && p
                    < 32 && i != p) ==> (a >> (i as u32)) & 1u32 == 1u32) by (bit_vector);
                assert(bit_set(old(sched)@.active_tasks, i));
            }
        }
    }
    Ok(())
}

/// One scheduling decision, the privileged path: selects the
/// highest-priority active task; if it differs from the current one, the
/// current task identifier advances and the returned action tells the
/// runtime to raise the deferred context-switch exception with the outgoing
/// and incoming identifiers. No-op when the kernel has not started or the
/// selection equals the current task (no spurious switches).
pub fn preempt(sched: &mut Scheduler) -> (action: SwitchAction)
    requires
        old(sched).wf(),
    ensures
        final(sched).wf(),
        final(sched)@ == spec_preempt(old(sched)@).0,
        action == spec_preempt(old(sched)@).1,
{
    if !sched.is_running {
        return SwitchAction::NoSwitch;
    }
    proof {
        let a = sched.active_tasks;
        assert((a >> 0u32) & 1u32 == 1u32 ==> a != 0u32) by (bit_vector);
    }
    let next = select_next(sched.active_tasks);
    if next != sched.curr_tid {
        let out = sched.curr_tid;
        let was_started = sched.started;
        sched.started = true;
        sched.curr_tid = next;
        if was_started {
            SwitchAction::Switch { out_tid: out, in_tid: next }
        } else {
            SwitchAction::FirstDispatch { in_tid: next }
        }
    } else {
        SwitchAction::NoSwitch
    }
}

/// The single scheduling entry point, callable from either execution
/// context. A privileged caller gets the decision in place; an unprivileged
/// caller mutates nothing and is told to escalate through the
/// supervisor-call trap, whose handler runs `schedule` again, privileged —
/// the trap grants exactly this one operation.
pub fn schedule(sched: &mut Scheduler, privileged: bool) -> (outcome: ScheduleOutcome)
    requires
        old(sched).wf(),
    ensures
        final(sched).wf(),
        final(sched)@ == spec_schedule(old(sched)@, privileged).0,
        outcome == spec_schedule(old(sched)@, privileged).1,
{
    if privileged {
        let action = preempt(sched);
        ScheduleOutcome::Performed(action)
    } else {
        ScheduleOutcome::EscalateViaSvc
    }
}

/// A periodic timer tick: a scheduling decision when preemptive mode is on,
/// nothing otherwise. The timer interrupt handler runs privileged, so the
/// decision needs no gate.
pub fn tick(sched: &mut Scheduler) -> (action: SwitchAction)
    requires
        old(sched).wf(),
    ensures
        final(sched).wf(),
        final(sched)@ == spec_tick(old(sched)@).0,
        action == spec_tick(old(sched)@).1,
{
    if sched.is_preemptive {
        preempt(sched)
    } else {
        SwitchAction::NoSwitch
    }
}

/// Starts the kernel: marks it running and performs the first scheduling
/// decision; the returned action is the first dispatch. The runtime arms the
/// periodic timer and then loops on the actions. Requires that `init` has
/// run (the idle task's bit is set), so a task to run always exists; only a
/// privileged caller may start the kernel.
pub fn start_kernel(sched: &mut Scheduler, privileged: bool) -> (r: Result<
    SwitchAction,
    KernelError,
>)
    requires
        old(sched).wf(),
        bit_set(old(sched)@.active_tasks, 0),
    ensures
        final(sched).wf(),
        !privileged ==> r == Err::<SwitchAction, KernelError>(KernelError::AccessDenied)
            && final(sched)@ == old(sched)@,
        privileged ==> final(sched)@ == spec_preempt(
            (SchedView { is_running: true, ..old(sched)@ }),
        ).0 && r == Ok::<SwitchAction, KernelError>(
            spec_preempt((SchedView { is_running: true, ..old(sched)@ })).1,
        ),
{
    if !privileged {
        return Err(KernelError::AccessDenied);
    }
    sched.is_running = true;
    let action = preempt(sched);
    Ok(action)
}

/// Identifier of the task whose context is currently loaded.
pub fn get_curr_tid(sched: &Scheduler) -> (tid: TaskId)
    ensures
        tid == sched@.curr_tid,
{
    sched.curr_tid
}

/// Whether timer ticks currently trigger automatic rescheduling.
pub fn is_preemptive(sched: &Scheduler) -> (b: bool)
    ensures
        b == sched@.is_preemptive,
{
    sched.is_preemptive
}

/// Blocks the tasks named in `tasks_mask`: their bits move from the active
/// to the blocked set, and a scheduling decision follows so that a task that
/// blocked itself yields immediately. Blocking is idempotent per bit, never
/// touches the idle task, and ignores tasks that are not active (exited or
/// never registered).
pub fn block_tasks(sched: &mut Scheduler, privileged: bool, tasks_mask: BooleanVector) -> (outcome:
    ScheduleOutcome)
    requires
        old(sched).wf(),
    ensures
        final(sched).wf(),
        final(sched)@ == spec_schedule(spec_block(old(sched)@, tasks_mask), privileged).0,
        outcome == spec_schedule(spec_block(old(sched)@, tasks_mask), privileged).1,
{
    let ghost v0 = sched@;
    let m: u32 = tasks_mask & sched.active_tasks & !1u32;
    sched.active_tasks = sched.active_tasks & !m;
    sched.blocked_tasks = sched.blocked_tasks | m;
    proof {
        lemma_block_preserves_inv(v0, tasks_mask);
        assert(sched@ =~= spec_block(v0, tasks_mask));
    }
    schedule(sched, privileged)
}

/// Releases the tasks named in `tasks_mask`: their bits move back from the
/// blocked to the active set, making them eligible at the next scheduling
/// decision — no switch is forced here. A task that exited (or was never
/// registered) is not in the blocked set and stays ineligible forever.
pub fn unblock_tasks(sched: &mut Scheduler, tasks_mask: BooleanVector)
    requires
        old(sched).wf(),
    ensures
        final(sched).wf(),
        final(sched)@ == spec_unblock(old(sched)@, tasks_mask),
{
    let ghost v0 = sched@;
    let m: u32 = tasks_mask & sched.blocked_tasks;
    sched.active_tasks = sched.active_tasks | m;
    sched.blocked_tasks = sched.blocked_tasks & !m;
    proof {
        lemma_unblock_preserves_inv(v0, tasks_mask);
        assert(sched@ =~= spec_unblock(v0, tasks_mask));
    }
}

/// Releases the tasks in `tasks_mask`: these tasks transition from the
/// waiting to the ready state. Same transition as `unblock_tasks`, under the
/// name the higher-level synchronization primitives use.
pub fn release(sched: &mut Scheduler, tasks_mask: BooleanVector)
    requires
        old(sched).wf(),
    ensures
        final(sched).wf(),
        final(sched)@ == spec_unblock(old(sched)@, tasks_mask),
{
    unblock_tasks(sched, tasks_mask);
}

/// Ends the calling task: clears the current task's bit in both sets
/// permanently — it can never be selected or released again — and requests a
/// scheduling decision so another task is dispatched. The idle task's bit is
/// never cleared.
pub fn task_exit(sched: &mut Scheduler, privileged: bool) -> (outcome: ScheduleOutcome)
    requires
        old(sched).wf(),
    ensures
        final(sched).wf(),
        final(sched)@ == spec_schedule(spec_task_exit(old(sched)@), privileged).0,
        outcome == spec_schedule(spec_task_exit(old(sched)@), privileged).1,
{
    let ghost v0 = sched@;
    let m: u32 = (1u32 << (sched.curr_tid as u32)) & !1u32;
    sched.active_tasks = sched.active_tasks & !m;
    sched.blocked_tasks = sched.blocked_tasks & !m;
    proof {
        lemma_exit_preserves_inv(v0);
        assert(sched@ =~= spec_task_exit(v0));
    }
    schedule(sched, privileged)
}

/// Lets timer ticks trigger automatic rescheduling.
pub fn enable_preemption(sched: &mut Scheduler)
    requires
        old(sched).wf(),
    ensures
        final(sched).wf(),
        final(sched)@ == (SchedView { is_preemptive: true, ..old(sched)@ }),
{
    sched.is_preemptive = true;
}

/// Stops timer ticks from triggering rescheduling; explicit `schedule` calls
/// still work.
pub fn disable_preemption(sched: &mut Scheduler)
    requires
        old(sched).wf(),
    ensures
        final(sched).wf(),
        final(sched)@ == (SchedView { is_preemptive: false, ..old(sched)@ }),
{
    sched.is_preemptive = false;
}

} // verus!
