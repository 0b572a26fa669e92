//! Scheduling and context-switch core of a cooperative monolithic kernel.
//!
//! The crate models the machine state that the core manipulates — the process
//! table, the shared FIFO run queue, and the per-CPU record (current process,
//! idle process, pending-unlock list, interrupt flag, live register context,
//! active address space) — and verifies the context-switch engine, the
//! post-switch trampoline, and the syscall dispatch layer against it.

pub mod process;
pub mod scheduler;
pub mod pending;
pub mod cpu;
pub mod switch;
pub mod dispatcher;
pub mod sys_write;
