//! Scheduler state and the next-task selection algorithm.
//!
//! The scheduler is a plain value: bitmasks of active and blocked tasks, the
//! current task identifier, mode flags, and the fixed-capacity registry of
//! task control blocks. Every kernel operation is a function from this state
//! (plus plain inputs) to new state and an action for the surrounding runtime
//! to perform on the hardware. The spec-level step functions in this module
//! (`spec_preempt`, `spec_block`, ...) are the mathematical model that the
//! executable operations in `kernel` are proved to implement exactly.

use vstd::prelude::*;
use crate::MAX_TASKS;
use crate::BooleanVector;
use crate::TaskId;

verus! {

/// Number of 32-bit words in an initial register frame (the exception frame
/// plus the software-saved registers of the deferred switch handler).
pub const FRAME_WORDS: usize = 16;

/// Smallest stack, in 32-bit words, on which a task may be created: room for
/// the initial register frame plus headroom for the handler's own frames.
pub const MIN_STACK_WORDS: usize = 32;

/// Initial program-status word of a fresh task frame (only the Thumb-state
/// bit is set), written at the top of the task's stack.
pub const XPSR_INIT: u32 = 0x0100_0000;

/// True when bit `i` of `mask` is set, i.e. task `i` is a member of the set
/// that `mask` represents.
pub open spec fn bit_set(mask: u32, i: usize) -> bool {
    i < 32 && (mask >> (i as u32)) & 1u32 == 1u32
}

/// Index of the highest set bit of `mask` at or below `i`, or 0 when no bit
/// in that range is set.
pub open spec fn top_bit_from(mask: u32, i: usize) -> usize
    decreases i,
{
    if bit_set(mask, i) {
        i
    } else if i == 0 {
        0
    } else {
        top_bit_from(mask, (i - 1) as usize)
    }
}

/// The scheduling policy: the task to run next is the one with the highest
/// identifier (equivalently, priority) among the active tasks.
pub open spec fn spec_select_next(active_tasks: u32) -> TaskId {
    top_bit_from(active_tasks, (MAX_TASKS - 1) as usize)
}

/// Saved-context handle of one task: the position of the task's last-saved
/// register frame within its own stack, in words from the stack's base. The
/// idle task's slot starts at zero because the idle task initially runs on
/// the boot context; the deferred switch handler fills the handle at the
/// first save.
#[derive(Clone, Copy, Debug, PartialEq, Eq, Structural)]
pub struct TaskControlBlock {
    /// Opaque saved-stack-pointer handle (word offset of the frame base).
    pub sp: usize,
}

/// Abstract state of the scheduler: what the contracts and laws speak about.
#[verifier::ext_equal]
pub ghost struct SchedView {
    pub curr_tid: TaskId,
    pub is_running: bool,
    pub started: bool,
    pub is_preemptive: bool,
    pub active_tasks: BooleanVector,
    pub blocked_tasks: BooleanVector,
    pub tcbs: Seq<Option<TaskControlBlock>>,
}

/// The scheduler: a process-wide singleton in a running system (the runtime
/// around this library owns it behind its interrupt-masking critical
/// section); to the library it is an explicit value.
pub struct Scheduler {
    /// Identifier of the task whose context is loaded in the CPU.
    pub curr_tid: TaskId,
    /// Whether the kernel start routine has run (scheduling decisions are
    /// taken only afterwards).
    pub is_running: bool,
    /// Whether the first dispatch has happened; it flips to true exactly
    /// once, at the first context switch.
    pub started: bool,
    /// Whether timer ticks may trigger automatic rescheduling.
    pub is_preemptive: bool,
    /// Bitmask of runnable tasks (ready or running).
    pub active_tasks: BooleanVector,
    /// Bitmask of tasks blocked by `block_tasks` and not yet released.
    pub blocked_tasks: BooleanVector,
    /// Fixed-capacity registry of task control blocks, indexed by task
    /// identifier; a slot is written once, at task creation, and never
    /// cleared.
    pub tcbs: Vec<Option<TaskControlBlock>>,
}

impl View for Scheduler {
    type V = SchedView;

    open spec fn view(&self) -> SchedView {
        SchedView {
            curr_tid: self.curr_tid,
            is_running: self.is_running,
            started: self.started,
            is_preemptive: self.is_preemptive,
            active_tasks: self.active_tasks,
            blocked_tasks: self.blocked_tasks,
            tcbs: self.tcbs@,
        }
    }
}

/// Well-formedness of the scheduler state: the current task identifier is in
/// range, no task is simultaneously active and blocked, the registry has its
/// fixed capacity and holds a control block for every task that is active or
/// blocked, and the idle task is active whenever the scheduler runs.
pub open spec fn inv(v: SchedView) -> bool {
    &&& v.curr_tid < MAX_TASKS
    &&& v.active_tasks & v.blocked_tasks == 0u32
    &&& v.tcbs.len() == MAX_TASKS
    &&& (v.is_running ==> bit_set(v.active_tasks, 0))
    &&& (forall|i: usize| bit_set(v.active_tasks, i) ==> v.tcbs[i as int] is Some)
    &&& (forall|i: usize| bit_set(v.blocked_tasks, i) ==> v.tcbs[i as int] is Some)
}

impl Scheduler {
    /// Well-formedness of this scheduler value; established by `new` and
    /// preserved by every kernel operation.
    pub open spec fn wf(self) -> bool {
        inv(self@)
    }

    /// A fresh scheduler: nothing registered, nothing active, not running.
    pub fn new() -> (s: Scheduler)
        ensures
            s.wf(),
            s@.curr_tid == 0,
            !s@.is_running,
            !s@.started,
            !s@.is_preemptive,
            s@.active_tasks == 0u32,
            s@.blocked_tasks == 0u32,
            forall|i: int| 0 <= i < MAX_TASKS ==> s@.tcbs[i] is None,
    {
        let mut tcbs: Vec<Option<TaskControlBlock>> = Vec::new();
        let mut i: usize = 0;
        while i < MAX_TASKS
            invariant
                i <= MAX_TASKS,
                tcbs@.len() == i,
                forall|j: int| 0 <= j < i ==> tcbs@[j] is None,
            decreases MAX_TASKS - i,
        {
            tcbs.push(None);
            i = i + 1;
        }
        let s = Scheduler {
            curr_tid: 0,
            is_running: false,
            started: false,
            is_preemptive: false,
            active_tasks: 0,
            blocked_tasks: 0,
            tcbs,
        };
        proof {
            assert(0u32 & 0u32 == 0u32) by (bit_vector);
            assert forall|k: usize| bit_set(0u32, k) implies s@.tcbs[k as int] is Some by {
                assert((0u32 >> (k as u32)) & 1u32 == 0u32) by (bit_vector);
            }
        }
        s
    }
}

/// What the runtime must do after a scheduling decision: nothing, perform the
/// very first dispatch (no outgoing context exists yet), or request the
/// deferred context-switch exception with the two published task identifiers.
#[derive(Clone, Copy, Debug, PartialEq, Eq, Structural)]
pub enum SwitchAction {
    /// The running task stays; no context-switch request is raised.
    NoSwitch,
    /// First dispatch ever: load `in_tid`'s context; there is no outgoing
    /// context to save.
    FirstDispatch { in_tid: TaskId },
    /// Save `out_tid`'s context and load `in_tid`'s, via the lowest-priority
    /// deferred exception.
    Switch { out_tid: TaskId, in_tid: TaskId },
}

/// Outcome of an operation routed through the privilege gate: either the
/// scheduling decision ran in place (caller was privileged), or the caller
/// must escalate through the supervisor-call trap, whose handler reruns the
/// same decision in privileged context.
#[derive(Clone, Copy, Debug, PartialEq, Eq, Structural)]
pub enum ScheduleOutcome {
    /// The decision was performed directly; the action still has to be
    /// carried out by the runtime.
    Performed(SwitchAction),
    /// The caller is unprivileged: no state was touched; raise the
    /// supervisor-call exception and let its handler reschedule.
    EscalateViaSvc,
}

/// One scheduling decision: if the scheduler is running and the
/// highest-priority active task differs from the current one, the current
/// task identifier advances and a switch is requested; otherwise nothing
/// changes. The first switch is a dispatch without an outgoing context and
/// flips `started`.
pub open spec fn spec_preempt(v: SchedView) -> (SchedView, SwitchAction) {
    if !v.is_running {
        (v, SwitchAction::NoSwitch)
    } else {
        let next = spec_select_next(v.active_tasks);
        if next != v.curr_tid {
            if v.started {
                (
                    SchedView { curr_tid: next, ..v },
                    SwitchAction::Switch { out_tid: v.curr_tid, in_tid: next },
                )
            } else {
                (
                    SchedView { curr_tid: next, started: true, ..v },
                    SwitchAction::FirstDispatch { in_tid: next },
                )
            }
        } else {
            (v, SwitchAction::NoSwitch)
        }
    }
}

/// The privilege gate: a privileged caller gets the scheduling decision in
/// place; an unprivileged caller changes nothing and is sent through the
/// supervisor-call trap.
pub open spec fn spec_schedule(v: SchedView, privileged: bool) -> (SchedView, ScheduleOutcome) {
    if privileged {
        (spec_preempt(v).0, ScheduleOutcome::Performed(spec_preempt(v).1))
    } else {
        (v, ScheduleOutcome::EscalateViaSvc)
    }
}

/// A timer tick: a scheduling decision when preemptive mode is on, nothing
/// otherwise.
pub open spec fn spec_tick(v: SchedView) -> (SchedView, SwitchAction) {
    if v.is_preemptive {
        spec_preempt(v)
    } else {
        (v, SwitchAction::NoSwitch)
    }
}

/// The bits that `block_tasks` actually moves: the requested ones that are
/// currently active, never the idle task's. Blocking an already-blocked or
/// unregistered task is a no-op for that bit.
pub open spec fn block_mask(v: SchedView, tasks_mask: u32) -> u32 {
    tasks_mask & v.active_tasks & !1u32
}

/// Blocking: the moved bits leave the active set and enter the blocked set.
pub open spec fn spec_block(v: SchedView, tasks_mask: u32) -> SchedView {
    SchedView {
        active_tasks: v.active_tasks & !block_mask(v, tasks_mask),
        blocked_tasks: v.blocked_tasks | block_mask(v, tasks_mask),
        ..v
    }
}

/// The bits that `unblock_tasks` and `release` actually move: the requested
/// ones that are currently blocked. A task that exited, or was never
/// registered, is not in the blocked set and so cannot be made active again.
pub open spec fn unblock_mask(v: SchedView, tasks_mask: u32) -> u32 {
    tasks_mask & v.blocked_tasks
}

/// Releasing: the moved bits leave the blocked set and re-enter the active
/// set.
pub open spec fn spec_unblock(v: SchedView, tasks_mask: u32) -> SchedView {
    SchedView {
        active_tasks: v.active_tasks | unblock_mask(v, tasks_mask),
        blocked_tasks: v.blocked_tasks & !unblock_mask(v, tasks_mask),
        ..v
    }
}

/// The bit a task exit clears: the calling task's own, in both masks, so the
/// task can never be selected or released again; the idle task's bit is
/// never cleared.
pub open spec fn exit_mask(v: SchedView) -> u32 {
    (1u32 << (v.curr_tid as u32)) & !1u32
}

/// Task exit: the current task leaves both sets permanently.
pub open spec fn spec_task_exit(v: SchedView) -> SchedView {
    SchedView {
        active_tasks: v.active_tasks & !exit_mask(v),
        blocked_tasks: v.blocked_tasks & !exit_mask(v),
        ..v
    }
}

/// Registration: task `priority` gains a control block with saved-context
/// handle `sp` and becomes active.
pub open spec fn spec_register(v: SchedView, priority: TaskId, sp: usize) -> SchedView {
    SchedView {
        active_tasks: v.active_tasks | (1u32 << (priority as u32)),
        tcbs: v.tcbs.update(priority as int, Some(TaskControlBlock { sp })),
        ..v
    }
}

/// True when `priority` names an unoccupied registry slot.
pub open spec fn free_slot(v: SchedView, priority: TaskId) -> bool {
    priority < MAX_TASKS && v.tcbs[priority as int] is None
}

/// An initial register frame written at the top of a fresh task's stack: the
/// initial program-status word, the handler's entry address, and the
/// handler's argument in the slot the hardware restores into the first
/// argument register.
pub open spec fn spec_init_frame(stack: Seq<u32>, pc: u32, arg: u32) -> Seq<u32> {
    stack.update(stack.len() - 1, XPSR_INIT).update(stack.len() - 2, pc).update(
        stack.len() - 8,
        arg,
    )
}

/// A set bit of `x` is a set bit of `a` or of `b` whenever `x | y` is
/// covered by `a | b`.
proof fn lemma_transfer_bit(x: u32, y: u32, a: u32, b: u32, i: usize)
    requires
        (x | y) & !(a | b) == 0u32,
        bit_set(x, i),
    ensures
        bit_set(a, i) || bit_set(b, i),
{
    assert(((x | y) & !(a | b) == 0u32 && (x >> (i as u32)) & 1u32 == 1u32 && i < 32) ==> ((a >> (
    i as u32)) & 1u32 == 1u32 || (b >> (i as u32)) & 1u32 == 1u32)) by (bit_vector);
}

/// Well-formedness survives any rearrangement of the two bitmasks that keeps
/// them disjoint, introduces no task outside the old two sets, and keeps the
/// idle task active while the scheduler runs.
pub proof fn lemma_masks_update_inv(v: SchedView, v2: SchedView)
    requires
        inv(v),
        v2.curr_tid == v.curr_tid,
        v2.is_running == v.is_running,
        v2.tcbs == v.tcbs,
        v2.active_tasks & v2.blocked_tasks == 0u32,
        (v2.active_tasks | v2.blocked_tasks) & !(v.active_tasks | v.blocked_tasks) == 0u32,
        v.is_running ==> bit_set(v2.active_tasks, 0),
    ensures
        inv(v2),
{
    let a = v.active_tasks;
    let b = v.blocked_tasks;
    let a2 = v2.active_tasks;
    let b2 = v2.blocked_tasks;
    assert((b2 | a2) & !(a | b) == 0u32) by (bit_vector)
        requires
            (a2 | b2) & !(a | b) == 0u32,
    ;
    assert forall|i: usize| bit_set(v2.active_tasks, i) implies v2.tcbs[i as int] is Some by {
        lemma_transfer_bit(a2, b2, a, b, i);
    }
    assert forall|i: usize| bit_set(v2.blocked_tasks, i) implies v2.tcbs[i as int] is Some by {
        lemma_transfer_bit(b2, a2, a, b, i);
    }
}

/// Blocking preserves well-formedness.
pub proof fn lemma_block_preserves_inv(v: SchedView, tasks_mask: u32)
    requires
        inv(v),
    ensures
        inv(spec_block(v, tasks_mask)),
{
    let a = v.active_tasks;
    let b = v.blocked_tasks;
    let m = block_mask(v, tasks_mask);
    assert((a & !m) & (b | m) == 0u32) by (bit_vector)
        requires
            m == tasks_mask & a & !1u32,
            a & b == 0u32,
    ;
    assert(((a & !m) | (b | m)) & !(a | b) == 0u32) by (bit_vector)
        requires
            m == tasks_mask & a & !1u32,
    ;
    assert((a >> 0u32) & 1u32 == 1u32 ==> ((a & !m) >> 0u32) & 1u32 == 1u32) by (bit_vector)
        requires
            m == tasks_mask & a & !1u32,
    ;
    lemma_masks_update_inv(v, spec_block(v, tasks_mask));
}

/// Releasing preserves well-formedness.
pub proof fn lemma_unblock_preserves_inv(v: SchedView, tasks_mask: u32)
    requires
        inv(v),
    ensures
        inv(spec_unblock(v, tasks_mask)),
{
    let a = v.active_tasks;
    let b = v.blocked_tasks;
    let m = unblock_mask(v, tasks_mask);
    assert((a | m) & (b & !m) == 0u32) by (bit_vector)
        requires
            m == tasks_mask & b,
            a & b == 0u32,
    ;
    assert(((a | m) | (b & !m)) & !(a | b) == 0u32) by (bit_vector)
        requires
            m == tasks_mask & b,
    ;
    assert((a >> 0u32) & 1u32 == 1u32 ==> ((a | m) >> 0u32) & 1u32 == 1u32) by (bit_vector);
    lemma_masks_update_inv(v, spec_unblock(v, tasks_mask));
}

/// Task exit preserves well-formedness.
pub proof fn lemma_exit_preserves_inv(v: SchedView)
    requires
        inv(v),
    ensures
        inv(spec_task_exit(v)),
{
    let a = v.active_tasks;
    let b = v.blocked_tasks;
    let m = exit_mask(v);
    let c = v.curr_tid;
    assert((a & !m) & (b & !m) == 0u32) by (bit_vector)
        requires
            a & b == 0u32,
    ;
    assert(((a & !m) | (b & !m)) & !(a | b) == 0u32) by (bit_vector);
    assert((a >> 0u32) & 1u32 == 1u32 ==> ((a & !m) >> 0u32) & 1u32 == 1u32) by (bit_vector)
        requires
            m == (1u32 << (c as u32)) & !1u32,
    ;
    lemma_masks_update_inv(v, spec_task_exit(v));
}

/// `top_bit_from(mask, i)` is `r` when bit `r` is set and every bit above
/// `r` up to `i` is clear.
proof fn lemma_top_bit_from_found(mask: u32, i: usize, r: usize)
    requires
        r <= i < 32,
        bit_set(mask, r),
        forall|j: usize| r < j <= i ==> !bit_set(mask, j),
    ensures
        top_bit_from(mask, i) == r,
    decreases i,
{
    if i != r {
        assert(!bit_set(mask, i));
        lemma_top_bit_from_found(mask, (i - 1) as usize, r);
    }
}

/// Structure of `top_bit_from`: it stays in range, everything above it is
/// clear, and it either names a set bit or is 0.
proof fn lemma_top_bit_from_props(mask: u32, i: usize)
    requires
        i < 32,
    ensures
        top_bit_from(mask, i) <= i,
        bit_set(mask, top_bit_from(mask, i)) || top_bit_from(mask, i) == 0,
        forall|j: usize| top_bit_from(mask, i) < j <= i ==> !bit_set(mask, j),
    decreases i,
{
    if !bit_set(mask, i) && i != 0 {
        lemma_top_bit_from_props(mask, (i - 1) as usize);
    }
}

/// A word whose bits 0 through `i` are all clear has no one among its low
/// `i + 1` bits.
proof fn lemma_low_bits_clear(mask: u32, i: usize)
    requires
        i < 32,
        forall|j: usize| j <= i ==> !bit_set(mask, j),
    ensures
        (mask as u64) & (((1u64 << ((i + 1) as u64)) - 1) as u64) == 0u64,
    decreases i,
{
    if i == 0 {
        assert(!bit_set(mask, 0));
        assert((mask >> 0u32) & 1u32 != 1u32 ==> (mask as u64) & (((1u64 << 1u64) - 1) as u64) == 0u64)
            by (bit_vector);
    } else {
        lemma_low_bits_clear(mask, (i - 1) as usize);
        assert(!bit_set(mask, i));
        assert(((mask as u64) & (((1u64 << (i as u64)) - 1) as u64) == 0u64 && (mask >> (i as u32)) & 1u32
            != 1u32 && i < 32) ==> (mask as u64) & (((1u64 << ((i + 1) as u64)) - 1) as u64) == 0u64)
            by (bit_vector);
    }
}

/// A nonzero word has at least one set bit below 32.
proof fn lemma_no_bits_means_zero(mask: u32)
    requires
        forall|j: usize| j < 32 ==> !bit_set(mask, j),
    ensures
        mask == 0u32,
{
    lemma_low_bits_clear(mask, 31);
    assert((mask as u64) & (((1u64 << 32u64) - 1) as u64) == 0u64 ==> mask == 0u32) by (bit_vector);
}

/// Selection is sound: on a non-empty active mask it names a set bit and
/// nothing above that bit is set.
pub proof fn lemma_select_next_props(mask: u32)
    requires
        mask != 0u32,
    ensures
        spec_select_next(mask) < MAX_TASKS,
        bit_set(mask, spec_select_next(mask)),
        forall|j: usize| spec_select_next(mask) < j < MAX_TASKS ==> !bit_set(mask, j),
{
    lemma_top_bit_from_props(mask, (MAX_TASKS - 1) as usize);
    if !bit_set(mask, spec_select_next(mask)) {
        assert(forall|j: usize| j < 32 ==> !bit_set(mask, j));
        lemma_no_bits_means_zero(mask);
    }
}

/// The next-task selection algorithm: among the tasks whose bit is set in
/// `active_tasks`, pick the one with the numerically highest identifier.
/// Pure: no side effect, no switch; callers compare the result with the
/// current task to decide whether a switch is warranted. Total on every
/// non-empty mask; the idle task's permanently-set bit keeps the mask
/// non-empty in a running system.
pub fn select_next(active_tasks: BooleanVector) -> (tid: TaskId)
    requires
        active_tasks != 0u32,
    ensures
        tid == spec_select_next(active_tasks),
        tid < MAX_TASKS,
        bit_set(active_tasks, tid),
        forall|j: usize| tid < j < MAX_TASKS ==> !bit_set(active_tasks, j),
{
    let mut m: u32 = active_tasks;
    let mut r: usize = 0;
    proof {
        assert(active_tasks >> 0u32 == active_tasks) by (bit_vector);
    }
    while m >= 2
        invariant
            r < 32,
            m == active_tasks >> (r as u32),
            m >= 1,
        decreases m,
    {
        proof {
            assert(active_tasks >> (r as u32) >= 2 && r < 32 ==> r < 31) by (bit_vector);
            assert(r < 31 ==> (active_tasks >> (r as u32)) >> 1u32 == active_tasks >> ((r + 1)
                as u32)) by (bit_vector);
            assert(m >= 2 ==> m >> 1u32 >= 1 && m >> 1u32 < m) by (bit_vector);
        }
        m = m >> 1u32;
        r = r + 1;
    }
    proof {
        assert(active_tasks >> (r as u32) == 1u32 ==> (active_tasks >> (r as u32)) & 1u32 == 1u32)
            by (bit_vector);
        assert forall|j: usize| r < j < MAX_TASKS implies !bit_set(active_tasks, j) by {
            assert((active_tasks >> (r as u32) == 1u32 && r < j && j < 32 && r < 32) ==> (
            active_tasks >> (j as u32)) & 1u32 == 0u32) by (bit_vector);
        }
        lemma_top_bit_from_found(active_tasks, (MAX_TASKS - 1) as usize, r);
    }
    r
}

} // verus!
