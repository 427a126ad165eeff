//! The execution core of a small single-core kernel that runs a fixed set of
//! applications in turn.
//!
//! The crate holds the decisions of that core as verified state transitions:
//! the saved execution context of a task, the task control block with its
//! status, the scheduler that owns the task table and picks the next task in
//! round-robin order, and the trap dispatcher that turns a trap cause into a
//! system call, a forced exit or a preemption.  Whatever touches the machine
//! (reading control registers, the clock, the register-level context switch)
//! is left to the caller, which hands plain values in and carries out the
//! action that comes back.
pub mod config;
pub mod task;
pub mod trap;
