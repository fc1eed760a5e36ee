//! The scheduler's global laws, stated over the spec-level model that the
//! executable operations are proved to implement exactly: selection
//! correctness, absence of spurious switches, the block/release round trip,
//! mutual exclusivity of the active and blocked sets, the idle task's
//! permanence, and the privilege gate.

use vstd::prelude::*;
use crate::MAX_TASKS;
use crate::BooleanVector;
use crate::TaskId;
use crate::scheduler::SchedView;
use crate::scheduler::ScheduleOutcome;
use crate::scheduler::SwitchAction;
use crate::scheduler::bit_set;
use crate::scheduler::block_mask;
use crate::scheduler::exit_mask;
use crate::scheduler::lemma_select_next_props;
use crate::scheduler::spec_block;
use crate::scheduler::spec_preempt;
use crate::scheduler::spec_schedule;
use crate::scheduler::spec_select_next;
use crate::scheduler::spec_task_exit;
use crate::scheduler::spec_unblock;
use crate::scheduler::unblock_mask;

verus! {

/// Selection correctness: on every non-empty active mask the selected task
/// is the highest set bit index — its bit is set and no higher bit is — and
/// on the idle-only mask the idle task (0) is selected.
pub proof fn lemma_selection_correctness(active_tasks: BooleanVector)
    requires
        active_tasks != 0u32,
    ensures
        spec_select_next(active_tasks) < MAX_TASKS,
        bit_set(active_tasks, spec_select_next(active_tasks)),
        forall|j: usize|
            spec_select_next(active_tasks) < j < MAX_TASKS ==> !bit_set(active_tasks, j),
        active_tasks == 1u32 ==> spec_select_next(active_tasks) == 0,
{
    lemma_select_next_props(active_tasks);
    let t = spec_select_next(active_tasks);
    assert(((1u32 >> (t as u32)) & 1u32 == 1u32 && t < 32) ==> t == 0) by (bit_vector);
}

/// No spurious switch: a scheduling decision that selects the task already
/// running changes nothing and requests no context switch.
pub proof fn lemma_no_spurious_switch(v: SchedView)
    requires
        v.is_running,
        spec_select_next(v.active_tasks) == v.curr_tid,
    ensures
        spec_preempt(v).0 == v,
        spec_preempt(v).1 == SwitchAction::NoSwitch,
{
}

/// Block/release round trip: for a task that is active (and so, by mutual
/// exclusivity, not blocked), blocking it and then releasing it restores
/// both bitmasks — and with them the whole scheduler state, since neither
/// mask operation touches anything else.
pub proof fn lemma_block_release_roundtrip(v: SchedView, t: TaskId)
    requires
        t < MAX_TASKS,
        bit_set(v.active_tasks, t),
        v.active_tasks & v.blocked_tasks == 0u32,
    ensures
        spec_unblock(spec_block(v, 1u32 << (t as u32)), 1u32 << (t as u32)) == v,
{
    let a = v.active_tasks;
    let b = v.blocked_tasks;
    let m1 = block_mask(v, 1u32 << (t as u32));
    let v1 = spec_block(v, 1u32 << (t as u32));
    let m2 = (1u32 << (t as u32)) & v1.blocked_tasks;
    assert(((a & !m1) | m2) == a && ((b | m1) & !m2) == b) by (bit_vector)
        requires
            m1 == (1u32 << (t as u32)) & a & !1u32,
            m2 == (1u32 << (t as u32)) & (b | m1),
            (a >> (t as u32)) & 1u32 == 1u32,
            a & b == 0u32,
            t < 32,
    ;
    assert(spec_unblock(v1, 1u32 << (t as u32)) =~= v);
}

/// Mutual exclusivity: no task bit is ever set in both the active and the
/// blocked set at once — each mask transition (blocking, releasing, task
/// exit) preserves disjointness, so it holds at every observable point.
pub proof fn lemma_mutual_exclusivity(v: SchedView, tasks_mask: BooleanVector)
    requires
        v.active_tasks & v.blocked_tasks == 0u32,
    ensures
        spec_block(v, tasks_mask).active_tasks & spec_block(v, tasks_mask).blocked_tasks == 0u32,
        spec_unblock(v, tasks_mask).active_tasks & spec_unblock(v, tasks_mask).blocked_tasks
            == 0u32,
        spec_task_exit(v).active_tasks & spec_task_exit(v).blocked_tasks == 0u32,
{
    let a = v.active_tasks;
    let b = v.blocked_tasks;
    let m1 = block_mask(v, tasks_mask);
    assert((a & !m1) & (b | m1) == 0u32) by (bit_vector)
        requires
            m1 == tasks_mask & a & !1u32,
            a & b == 0u32,
    ;
    let m2 = tasks_mask & b;
    assert((a | m2) & (b & !m2) == 0u32) by (bit_vector)
        requires
            m2 == tasks_mask & b,
            a & b == 0u32,
    ;
    let m3 = exit_mask(v);
    assert((a & !m3) & (b & !m3) == 0u32) by (bit_vector)
        requires
            a & b == 0u32,
    ;
}

/// A sequence of blocking calls, applied mask by mask.
pub open spec fn apply_block_sequence(v: SchedView, masks: Seq<BooleanVector>) -> SchedView
    decreases masks.len(),
{
    if masks.len() == 0 {
        v
    } else {
        apply_block_sequence(spec_block(v, masks[0]), masks.drop_first())
    }
}

/// Idle-task permanence: no sequence of blocking calls, whatever masks they
/// pass, can clear the idle task's bit from the active set.
pub proof fn lemma_idle_task_permanence(v: SchedView, masks: Seq<BooleanVector>)
    requires
        bit_set(v.active_tasks, 0),
    ensures
        bit_set(apply_block_sequence(v, masks).active_tasks, 0),
    decreases masks.len(),
{
    if masks.len() != 0 {
        let a = v.active_tasks;
        let m0 = masks[0];
        let m = block_mask(v, m0);
        assert((a >> 0u32) & 1u32 == 1u32 ==> ((a & !m) >> 0u32) & 1u32 == 1u32) by (bit_vector)
            requires
                m == m0 & a & !1u32,
        ;
        lemma_idle_task_permanence(spec_block(v, masks[0]), masks.drop_first());
    }
}

/// Blocking is idempotent: repeating a blocking call with the same mask
/// changes nothing further.
pub proof fn lemma_block_idempotent(v: SchedView, tasks_mask: BooleanVector)
    ensures
        spec_block(spec_block(v, tasks_mask), tasks_mask) == spec_block(v, tasks_mask),
{
    let a = v.active_tasks;
    let m1 = block_mask(v, tasks_mask);
    let v1 = spec_block(v, tasks_mask);
    let m2 = block_mask(v1, tasks_mask);
    assert(m2 == 0u32 && (a & !m1) & !0u32 == a & !m1 && v1.blocked_tasks | 0u32
        == v1.blocked_tasks) by (bit_vector)
        requires
            m1 == tasks_mask & a & !1u32,
            m2 == tasks_mask & (a & !m1) & !1u32,
    ;
    assert(spec_block(v1, tasks_mask) =~= v1);
}

/// A task that left both sets — one that exited, or was never registered —
/// stays out of both through any blocking or releasing call: exited tasks
/// are not re-releasable.
pub proof fn lemma_exited_task_stays_out(v: SchedView, tasks_mask: BooleanVector, t: TaskId)
    requires
        !bit_set(v.active_tasks, t),
        !bit_set(v.blocked_tasks, t),
        t < MAX_TASKS,
    ensures
        !bit_set(spec_block(v, tasks_mask).active_tasks, t),
        !bit_set(spec_block(v, tasks_mask).blocked_tasks, t),
        !bit_set(spec_unblock(v, tasks_mask).active_tasks, t),
        !bit_set(spec_unblock(v, tasks_mask).blocked_tasks, t),
{
    let a = v.active_tasks;
    let b = v.blocked_tasks;
    let m1 = block_mask(v, tasks_mask);
    assert(((a & !m1) >> (t as u32)) & 1u32 != 1u32 && ((b | m1) >> (t as u32)) & 1u32 != 1u32)
        by (bit_vector)
        requires
            m1 == tasks_mask & a & !1u32,
            (a >> (t as u32)) & 1u32 != 1u32,
            (b >> (t as u32)) & 1u32 != 1u32,
            t < 32,
    ;
    let m2 = unblock_mask(v, tasks_mask);
    assert(((a | m2) >> (t as u32)) & 1u32 != 1u32 && ((b & !m2) >> (t as u32)) & 1u32 != 1u32)
        by (bit_vector)
        requires
            m2 == tasks_mask & b,
            (a >> (t as u32)) & 1u32 != 1u32,
            (b >> (t as u32)) & 1u32 != 1u32,
            t < 32,
    ;
}

/// The privilege gate: a scheduling request from unprivileged context
/// mutates nothing — it is deferred to the trap handler — and the deferred,
/// privileged rerun performs exactly the mutation a direct privileged call
/// performs, no more.
pub proof fn lemma_privilege_gate(v: SchedView)
    ensures
        spec_schedule(v, false).0 == v,
        spec_schedule(v, false).1 == ScheduleOutcome::EscalateViaSvc,
        spec_schedule(v, true).0 == spec_preempt(v).0,
        spec_schedule(v, true).1 == ScheduleOutcome::Performed(spec_preempt(v).1),
{
}

} // verus!
