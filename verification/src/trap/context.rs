//! The registers of a task as they were when it trapped.
use vstd::prelude::*;

verus! {

/// The frame that is saved when user code traps into the kernel and from
/// which user code is resumed: the 32 general registers and the program
/// counter of the trapped instruction.
#[derive(Clone, Copy, Debug, PartialEq, Eq)]
pub struct TrapContext {
    pub x: [usize; 32],
    pub sepc: usize,
}

/// The mathematical value of a [`TrapContext`].
pub struct TrapView {
    pub x: Seq<usize>,
    pub sepc: usize,
}

impl TrapView {
    /// The identifier of the system call that the frame asks for.
    pub open spec fn syscall_id(self) -> usize {
        self.x[17]
    }

    /// The three arguments of the system call that the frame asks for.  The
    /// first is taken from register 10; the second and the third are both
    /// taken from register 12.
    pub open spec fn syscall_args(self) -> Seq<usize> {
        seq![self.x[10], self.x[12], self.x[12]]
    }

    /// The frame with the program counter moved past the 4-byte
    /// instruction that trapped.
    pub open spec fn past_trapped_instruction(self) -> TrapView {
        TrapView { sepc: (self.sepc + 4) as usize, ..self }
    }

    /// The frame with `result` in register 10, where user code looks for
    /// what a system call returned.
    pub open spec fn with_syscall_result(self, result: isize) -> TrapView {
        TrapView { x: self.x.update(10, result as usize), ..self }
    }
}

impl View for TrapContext {
    type V = TrapView;

    open spec fn view(&self) -> TrapView {
        TrapView { x: self.x@, sepc: self.sepc }
    }
}

impl TrapContext {
    /// Stores what a system call returned into register 10, as the
    /// machine word with the same bits: a result that is not negative as
    /// itself, and any result as the word that reads back as that result.
    pub fn set_syscall_result(&mut self, result: isize)
        ensures
            final(self)@ == old(self)@.with_syscall_result(result),
            result >= 0 ==> final(self).x[10] == result,
            final(self).x[10] as isize == result,
    {
        assert((result as usize) as isize == result) by (bit_vector);
        self.x[10] = #[verifier::truncate] (result as usize);
    }
}

} // verus!
