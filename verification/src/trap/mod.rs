//! Trap dispatch: from the cause of a trap to what the kernel does about it.
//!
//! [`trap_handler`] is given the cause of a trap, the frame of the task that
//! trapped and the scheduler.  It records what the trap means for the frame
//! and for the task table, and answers with the [`TrapAction`] that the
//! caller carries out before user code is resumed from whichever frame is
//! then the current task's.
pub mod cause;
pub mod context;

use vstd::prelude::*;
use crate::task::{exit_current_and_run_next, suspend_current_and_run_next};
use crate::task::{Dispatch, TaskManager};

pub use cause::Exception;
pub use cause::Interrupt;
pub use cause::Trap;
pub use context::TrapContext;

verus! {

/// What is left for the caller to do about a trap.
#[derive(Clone, Copy, Debug, PartialEq, Eq)]
pub enum TrapAction {
    /// Run the system call `id` on `args` and store what it returns with
    /// [`TrapContext::set_syscall_result`].
    Syscall { id: usize, args: [usize; 3] },
    /// Report that the instruction at `bad_instruction` made a faulty
    /// memory access, a load or a store, to `bad_addr`, then carry out
    /// `next`.  The task is over.
    PageFault { bad_addr: usize, bad_instruction: usize, next: Dispatch },
    /// Report an illegal instruction, then carry out `next`.  The task is
    /// over.
    IllegalInstruction { next: Dispatch },
    /// Arm the timer for the next tick, then carry out `next`.  The task
    /// was preempted.
    Preempt { next: Dispatch },
    /// The kernel has no answer to this cause and must stop for good.
    Unsupported,
}

/// Decides what a trap with cause `cause` means.
///
/// - A system call from user code leaves the task table alone.  The frame's
///   program counter moves past the calling instruction, so that the call
///   is not made again when the task resumes, and the call's identifier
///   and arguments are handed out.
/// - A faulty memory access, be it a load or a store, an access fault or
///   a page fault, and an illegal instruction end the current task and
///   pass control to the next ready one.  The kernel and the other tasks
///   go on.  `stval` is reported as the address of a faulty access.
/// - The supervisor timer preempts the current task, which stays ready,
///   and passes control to the next ready one.
/// - Every other cause is fatal to the kernel; nothing is changed.  A
///   fault on fetching an instruction is among these, as are a misaligned
///   access and a breakpoint: only the data accesses of a task are
///   answered by ending the task.
pub fn trap_handler(
    cause: Trap,
    stval: usize,
    cx: &mut TrapContext,
    manager: &mut TaskManager,
) -> (action: TrapAction)
    requires
        old(manager).wf(),
        cause == Trap::Exception(Exception::UserEnvCall) ==> old(cx).sepc + 4 <= usize::MAX,
    ensures
        final(manager).wf(),
        match cause {
            Trap::Exception(Exception::UserEnvCall) => {
                &&& final(cx)@ == old(cx)@.past_trapped_instruction()
                &&& final(manager)@ == old(manager)@
                &&& action matches TrapAction::Syscall { id, args }
                &&& id == old(cx)@.syscall_id()
                &&& args@ == old(cx)@.syscall_args()
            },
            Trap::Exception(Exception::LoadFault)
            | Trap::Exception(Exception::LoadPageFault)
            | Trap::Exception(Exception::StoreFault)
            | Trap::Exception(Exception::StorePageFault) => {
                &&& final(cx)@ == old(cx)@
                &&& final(manager)@ == old(manager)@.exit_current_and_run_next()
                &&& action == (TrapAction::PageFault {
                    bad_addr: stval,
                    bad_instruction: old(cx).sepc,
                    next: old(manager)@.mark_current_exited().dispatch(),
                })
                &&& old(manager)@.mark_current_exited().moves_on(
                    old(manager)@.mark_current_exited().dispatch(),
                    final(manager)@,
                )
            },
            Trap::Exception(Exception::IllegalInstruction) => {
                &&& final(cx)@ == old(cx)@
                &&& final(manager)@ == old(manager)@.exit_current_and_run_next()
                &&& action == (TrapAction::IllegalInstruction {
                    next: old(manager)@.mark_current_exited().dispatch(),
                })
                &&& old(manager)@.mark_current_exited().moves_on(
                    old(manager)@.mark_current_exited().dispatch(),
                    final(manager)@,
                )
            },
            Trap::Interrupt(Interrupt::SupervisorTimer) => {
                &&& final(cx)@ == old(cx)@
                &&& final(manager)@ == old(manager)@.suspend_current_and_run_next()
                &&& action == (TrapAction::Preempt {
                    next: old(manager)@.mark_current_suspended().dispatch(),
                })
                &&& old(manager)@.mark_current_suspended().moves_on(
                    old(manager)@.mark_current_suspended().dispatch(),
                    final(manager)@,
                )
                &&& old(manager)@.mark_current_suspended().dispatch() is Switch
            },
            _ => {
                &&& final(cx)@ == old(cx)@
                &&& final(manager)@ == old(manager)@
                &&& action == TrapAction::Unsupported
            },
        },
{
    match cause {
        Trap::Exception(Exception::UserEnvCall) => {
            cx.sepc += 4;
            let args = [cx.x[10], cx.x[12], cx.x[12]];
            assert(args@ =~= old(cx)@.syscall_args());
            TrapAction::Syscall { id: cx.x[17], args }
        },
        Trap::Exception(Exception::LoadFault)
        | Trap::Exception(Exception::LoadPageFault)
        | Trap::Exception(Exception::StoreFault)
        | Trap::Exception(Exception::StorePageFault) => {
            let next = exit_current_and_run_next(manager);
            TrapAction::PageFault { bad_addr: stval, bad_instruction: cx.sepc, next }
        },
        Trap::Exception(Exception::IllegalInstruction) => {
            let next = exit_current_and_run_next(manager);
            TrapAction::IllegalInstruction { next }
        },
        Trap::Interrupt(Interrupt::SupervisorTimer) => {
            let next = suspend_current_and_run_next(manager);
            TrapAction::Preempt { next }
        },
        _ => TrapAction::Unsupported,
    }
}

} // verus!
