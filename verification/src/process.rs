//! The process record: the unit of schedulability.

use vstd::prelude::*;

verus! {

/// What the caller of `switch` asks to become of the outgoing process.
///
/// Only a `Runnable` process goes back into the run queue; a `Blocked` or
/// `Exited` one is left out and must be re-enqueued by an external wake-up.
#[derive(Clone, Copy, PartialEq, Eq, Structural, Debug)]
pub enum ProcessState {
    Runnable,
    Blocked,
    Exited,
}

/// One schedulable execution context.
///
/// The architecture-specific saved register/stack context that the original
/// record keeps behind its exclusive `inner` lock is modelled by the plain
/// `context` handle, and the lock itself by the `inner_locked` flag; the
/// address space is carried as a plain handle that the page-table hardware
/// would interpret. `pid` 0 is reserved for a CPU's idle process.
#[derive(Clone, Copy, Debug)]
pub struct Process {
    /// Process identifier, immutable after creation; 0 marks the idle process.
    pub pid: u64,
    /// Scheduling state; written only by the external code that also decides
    /// whether the process belongs in the run queue.
    pub state: ProcessState,
    /// Handle of the virtual address space, absent for kernel-internal
    /// contexts, which run in the kernel's own mappings.
    pub address_space: Option<u64>,
    /// Handle of the process's open-file table: an external collaborator,
    /// carried opaquely and never touched by this core.
    pub opened_files: u64,
    /// Whether the exclusive lock on the saved-context block is held.
    pub inner_locked: bool,
    /// The saved register/stack context, as an opaque handle.
    pub context: u64,
}

/// The same process with its saved-context lock released.
pub open spec fn unlocked(p: Process) -> Process {
    Process { inner_locked: false, ..p }
}

} // verus!
