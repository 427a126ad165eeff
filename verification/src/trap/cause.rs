//! Why the machine trapped: the supervisor cause register, decoded.
use vstd::prelude::*;
use riscv::register::scause;

verus! {

/// An asynchronous trap, by its code in the cause register.
#[derive(Clone, Copy, Debug, PartialEq, Eq, Structural)]
pub enum Interrupt {
    UserSoft,
    SupervisorSoft,
    UserTimer,
    SupervisorTimer,
    UserExternal,
    SupervisorExternal,
    Unknown,
}

/// A synchronous trap, by its code in the cause register.
#[derive(Clone, Copy, Debug, PartialEq, Eq, Structural)]
pub enum Exception {
    InstructionMisaligned,
    InstructionFault,
    IllegalInstruction,
    Breakpoint,
    LoadFault,
    StoreMisaligned,
    StoreFault,
    UserEnvCall,
    InstructionPageFault,
    LoadPageFault,
    StorePageFault,
    Unknown,
}

/// The cause of a trap.
#[derive(Clone, Copy, Debug, PartialEq, Eq, Structural)]
pub enum Trap {
    Interrupt(Interrupt),
    Exception(Exception),
}

impl Interrupt {
    /// The interrupt that the code `code` stands for.
    pub open spec fn of_code(code: usize) -> Interrupt {
        if code == 0 {
            Interrupt::UserSoft
        } else if code == 1 {
            Interrupt::SupervisorSoft
        } else if code == 4 {
            Interrupt::UserTimer
        } else if code == 5 {
            Interrupt::SupervisorTimer
        } else if code == 8 {
            Interrupt::UserExternal
        } else if code == 9 {
            Interrupt::SupervisorExternal
        } else {
            Interrupt::Unknown
        }
    }
}

impl Exception {
    /// The exception that the code `code` stands for.
    pub open spec fn of_code(code: usize) -> Exception {
        if code == 0 {
            Exception::InstructionMisaligned
        } else if code == 1 {
            Exception::InstructionFault
        } else if code == 2 {
            Exception::IllegalInstruction
        } else if code == 3 {
            Exception::Breakpoint
        } else if code == 5 {
            Exception::LoadFault
        } else if code == 6 {
            Exception::StoreMisaligned
        } else if code == 7 {
            Exception::StoreFault
        } else if code == 8 {
            Exception::UserEnvCall
        } else if code == 12 {
            Exception::InstructionPageFault
        } else if code == 13 {
            Exception::LoadPageFault
        } else if code == 15 {
            Exception::StorePageFault
        } else {
            Exception::Unknown
        }
    }
}

/// Looks an interrupt code up with `riscv`'s `scause::Interrupt::from`.
///
/// Trusted: the result is claimed to be the interrupt that
/// [`Interrupt::of_code`] lists for `code`, variant for variant as the
/// outside table has it, with `Unknown` for every code it does not list.
#[verifier::external_body]
fn interrupt_from(code: usize) -> (kind: Interrupt)
    ensures
        kind == Interrupt::of_code(code),
{
    match scause::Interrupt::from(code) {
        scause::Interrupt::UserSoft => Interrupt::UserSoft,
        scause::Interrupt::SupervisorSoft => Interrupt::SupervisorSoft,
        scause::Interrupt::UserTimer => Interrupt::UserTimer,
        scause::Interrupt::SupervisorTimer => Interrupt::SupervisorTimer,
        scause::Interrupt::UserExternal => Interrupt::UserExternal,
        scause::Interrupt::SupervisorExternal => Interrupt::SupervisorExternal,
        scause::Interrupt::Unknown => Interrupt::Unknown,
    }
}

/// Looks an exception code up with `riscv`'s `scause::Exception::from`.
///
/// Trusted: the result is claimed to be the exception that
/// [`Exception::of_code`] lists for `code`, variant for variant as the
/// outside table has it, with `Unknown` for every code it does not list.
#[verifier::external_body]
fn exception_from(code: usize) -> (kind: Exception)
    ensures
        kind == Exception::of_code(code),
{
    match scause::Exception::from(code) {
        scause::Exception::InstructionMisaligned => Exception::InstructionMisaligned,
        scause::Exception::InstructionFault => Exception::InstructionFault,
        scause::Exception::IllegalInstruction => Exception::IllegalInstruction,
        scause::Exception::Breakpoint => Exception::Breakpoint,
        scause::Exception::LoadFault => Exception::LoadFault,
        scause::Exception::StoreMisaligned => Exception::StoreMisaligned,
        scause::Exception::StoreFault => Exception::StoreFault,
        scause::Exception::UserEnvCall => Exception::UserEnvCall,
        scause::Exception::InstructionPageFault => Exception::InstructionPageFault,
        scause::Exception::LoadPageFault => Exception::LoadPageFault,
        scause::Exception::StorePageFault => Exception::StorePageFault,
        scause::Exception::Unknown => Exception::Unknown,
    }
}

impl Trap {
    /// Whether the top bit of the cause register `bits` is set, which marks
    /// an interrupt.
    pub open spec fn interrupt_bit(bits: usize) -> bool {
        bits > usize::MAX / 2
    }

    /// The cause register `bits` without its top bit.
    pub open spec fn code(bits: usize) -> usize {
        if Self::interrupt_bit(bits) {
            (bits - usize::MAX / 2 - 1) as usize
        } else {
            bits
        }
    }

    /// The cause that the cause register `bits` stands for.
    pub open spec fn of_scause(bits: usize) -> Trap {
        if Self::interrupt_bit(bits) {
            Trap::Interrupt(Interrupt::of_code(Self::code(bits)))
        } else {
            Trap::Exception(Exception::of_code(Self::code(bits)))
        }
    }

    /// Decodes the raw value `bits` of the supervisor cause register: the
    /// top bit tells an interrupt from an exception, the other bits are
    /// the code.
    pub fn from_scause(bits: usize) -> (cause: Trap)
        ensures
            cause == Trap::of_scause(bits),
    {
        let half: usize = usize::MAX / 2;
        if bits > half {
            Trap::Interrupt(interrupt_from(bits - half - 1))
        } else {
            Trap::Exception(exception_from(bits))
        }
    }
}

} // verus!
