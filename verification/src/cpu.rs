//! The per-CPU record and the machine state the core must preserve.

use vstd::prelude::*;
use arrayvec::ArrayVec;

verus! {

/// Per-CPU state, created once at boot and never shared across CPUs, together
/// with the two pieces of machine state this core touches: the interrupt-enable
/// flag and the live register context (both owned by the hardware in the
/// original; modelled here as plain fields so that contracts can speak of them).
pub struct Cpu {
    /// Index of the process presently executing on this CPU.
    pub current: usize,
    /// Index of this CPU's dedicated idle process (pid 0); used only when the
    /// run queue is empty, never enqueued, never exits.
    pub idle: usize,
    /// Processes whose saved-context lock is held and must be force-released
    /// by the post-switch trampoline; empty except during the brief window
    /// between a transfer acquiring the locks and the trampoline draining them.
    pub pending_unlocks: ArrayVec<usize, 2>,
    /// The CPU's interrupt-enable flag. Acquiring a saved-context spinlock
    /// disables interrupts; the flag is restored by `switch` itself because the
    /// guards that would normally restore it are deliberately leaked.
    pub interrupt_enabled: bool,
    /// Handle of the address space whose page table the CPU currently walks;
    /// absent while the CPU has only ever run kernel-internal contexts.
    pub active_space: Option<u64>,
    /// The register/stack context the CPU is presently executing, as an opaque
    /// handle; a register transfer saves it into the outgoing process and
    /// replaces it with the incoming process's saved one.
    pub live_context: u64,
}

} // verus!
