//! A preemptive, priority-based task scheduler core for single-core
//! microcontrollers: a fixed-capacity task registry, ready/blocked state kept
//! as bitmasks, highest-priority-first task selection, a privilege gate, and a
//! two-phase context-switch protocol (decide, then perform the swap in a
//! deferred low-priority handler).
//!
//! The library is hardware-independent: every operation is a function from
//! scheduler state and plain inputs to new state plus an action (raise the
//! context-switch exception, escalate via a supervisor call) that the
//! surrounding runtime performs on the real machine.

use vstd::prelude::*;

pub mod kernel;
pub mod laws;
pub mod scheduler;

verus! {

/// Maximum number of tasks; a task's identifier doubles as its static
/// priority rank and as its bit index into the state bitmasks.
pub const MAX_TASKS: usize = 32;

/// Unique task identifier, equal to the task's static priority and to its bit
/// index in a `BooleanVector`; always below `MAX_TASKS`.
pub type TaskId = usize;

/// Fixed-width bitmask over task identifiers: bit `i` set means "task `i` is
/// a member of this set".
pub type BooleanVector = u32;

/// Errors reported by the kernel's public operations. The taxonomy is shared
/// with higher-level collaborator modules (messaging, synchronization), which
/// reuse `BufferOverflow`, `NotFound` and `DoesNotExist` for their own
/// conditions; the scheduler core itself raises `StackTooSmall`,
/// `LimitExceeded` and `AccessDenied`.
#[derive(Clone, Copy, Debug, PartialEq, Eq, Structural)]
pub enum KernelError {
    /// A collaborator's message or queue buffer would overflow.
    BufferOverflow,
    /// A referenced resource is not present.
    NotFound,
    /// The provided stack buffer cannot hold an initial register frame.
    StackTooSmall,
    /// A referenced task or resource does not exist.
    DoesNotExist,
    /// The task registry is at capacity or the requested slot is occupied.
    LimitExceeded,
    /// A privileged-only operation was invoked from unprivileged context.
    AccessDenied,
}

} // verus!
