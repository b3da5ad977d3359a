//! Trap classification and dispatch: the decode of the hardware cause
//! register into interrupt and exception kinds, the saved register
//! frame, and the single dispatch step run on every trap.
//!
//! Only one cause is serviced here: the machine-timer interrupt, which
//! is forwarded to the timer driver before the interrupted context is
//! resumed.  Every other decoded cause, and every cause value outside
//! the known encoding, is fatal by design; the dispatcher hands back
//! the diagnostic record (cause, faulting program counter, faulting
//! address) and the platform prints it and halts.

use vstd::prelude::*;

verus! {

use crate::clint::Clint;
use crate::critical::MachineInterrupts;
use crate::queue::WakeEntry;
use crate::time_driver::{MachineTimeDriver, interrupt_handled};

/// The interrupt flag of the cause register: its most significant bit
/// (64-bit machine).
pub const INTERRUPT_FLAG: u64 = 0x8000_0000_0000_0000;

/// Cause-register value of the machine-timer interrupt: interrupt flag
/// plus code 7.
pub const MACHINE_TIMER_CAUSE: u64 = 0x8000_0000_0000_0007;

/// Required alignment of the trap stack region.
pub const TRAP_STACK_ALIGN: usize = 128;

/// Size of the statically reserved trap stack.
pub const TRAP_STACK_SIZE: usize = 16 * 1024;

/// The standard machine-level interrupt kinds.
#[derive(Clone, Copy, PartialEq, Eq, Structural, Debug)]
pub enum InterruptCause {
    SupervisorSoft,
    MachineSoft,
    SupervisorTimer,
    MachineTimer,
    SupervisorExternal,
    MachineExternal,
}

/// The standard exception kinds.
#[derive(Clone, Copy, PartialEq, Eq, Structural, Debug)]
pub enum ExceptionCause {
    InstructionMisaligned,
    InstructionFault,
    IllegalInstruction,
    Breakpoint,
    LoadMisaligned,
    LoadFault,
    StoreMisaligned,
    StoreFault,
    UserEnvCall,
    SupervisorEnvCall,
    MachineEnvCall,
    InstructionPageFault,
    LoadPageFault,
    StorePageFault,
}

/// A decoded trap cause: an interrupt or an exception, with its kind.
#[derive(Clone, Copy, PartialEq, Eq, Structural, Debug)]
pub enum TrapCause {
    Interrupt(InterruptCause),
    Exception(ExceptionCause),
}

/// Why a trap was fatal: a decoded cause this layer has no policy for,
/// or a cause value outside the known encoding.
#[derive(Clone, Copy, PartialEq, Eq, Structural, Debug)]
pub enum TrapError {
    UnsupportedTrap(TrapCause),
    UndecodableCause(u64),
}

/// The diagnostic record of the fatal path: what went wrong, the
/// faulting program counter, and the faulting-address register.
#[derive(Clone, Copy, PartialEq, Eq, Structural, Debug)]
pub struct FatalInfo {
    pub error: TrapError,
    pub mepc: u64,
    pub mtval: u64,
}

/// Whether the cause register records an interrupt: its top bit is set.
pub open spec fn spec_is_interrupt(bits: u64) -> bool {
    bits >= INTERRUPT_FLAG
}

/// The cause code: the register value with the interrupt flag removed.
pub open spec fn spec_cause_code(bits: u64) -> u64 {
    if bits >= INTERRUPT_FLAG {
        (bits - INTERRUPT_FLAG) as u64
    } else {
        bits
    }
}

/// The decode table of the cause register: the standard interrupt
/// codes 1, 3, 5, 7, 9, 11 and exception codes 0 to 9, 11, 12, 13, 15;
/// everything else is outside the known encoding.
pub open spec fn spec_decode(bits: u64) -> Option<TrapCause> {
    let code = spec_cause_code(bits);
    if spec_is_interrupt(bits) {
        if code == 1 {
            Some(TrapCause::Interrupt(InterruptCause::SupervisorSoft))
        } else if code == 3 {
            Some(TrapCause::Interrupt(InterruptCause::MachineSoft))
        } else if code == 5 {
            Some(TrapCause::Interrupt(InterruptCause::SupervisorTimer))
        } else if code == 7 {
            Some(TrapCause::Interrupt(InterruptCause::MachineTimer))
        } else if code == 9 {
            Some(TrapCause::Interrupt(InterruptCause::SupervisorExternal))
        } else if code == 11 {
            Some(TrapCause::Interrupt(InterruptCause::MachineExternal))
        } else {
            None
        }
    } else {
        if code == 0 {
            Some(TrapCause::Exception(ExceptionCause::InstructionMisaligned))
        } else if code == 1 {
            Some(TrapCause::Exception(ExceptionCause::InstructionFault))
        } else if code == 2 {
            Some(TrapCause::Exception(ExceptionCause::IllegalInstruction))
        } else if code == 3 {
            Some(TrapCause::Exception(ExceptionCause::Breakpoint))
        } else if code == 4 {
            Some(TrapCause::Exception(ExceptionCause::LoadMisaligned))
        } else if code == 5 {
            Some(TrapCause::Exception(ExceptionCause::LoadFault))
        } else if code == 6 {
            Some(TrapCause::Exception(ExceptionCause::StoreMisaligned))
        } else if code == 7 {
            Some(TrapCause::Exception(ExceptionCause::StoreFault))
        } else if code == 8 {
            Some(TrapCause::Exception(ExceptionCause::UserEnvCall))
        } else if code == 9 {
            Some(TrapCause::Exception(ExceptionCause::SupervisorEnvCall))
        } else if code == 11 {
            Some(TrapCause::Exception(ExceptionCause::MachineEnvCall))
        } else if code == 12 {
            Some(TrapCause::Exception(ExceptionCause::InstructionPageFault))
        } else if code == 13 {
            Some(TrapCause::Exception(ExceptionCause::LoadPageFault))
        } else if code == 15 {
            Some(TrapCause::Exception(ExceptionCause::StorePageFault))
        } else {
            None
        }
    }
}

/// Whether the cause register records the machine-timer interrupt.
pub open spec fn spec_is_machine_timer(bits: u64) -> bool {
    spec_decode(bits) == Some(TrapCause::Interrupt(InterruptCause::MachineTimer))
}

/// Decode the cause register, or report that its value lies outside
/// the known encoding.
pub fn decode_cause(bits: u64) -> (r: Option<TrapCause>)
    ensures
        r == spec_decode(bits),
{
    let is_interrupt = bits >= INTERRUPT_FLAG;
    let code = if is_interrupt {
        bits - INTERRUPT_FLAG
    } else {
        bits
    };
    if is_interrupt {
        if code == 1 {
            Some(TrapCause::Interrupt(InterruptCause::SupervisorSoft))
        } else if code == 3 {
            Some(TrapCause::Interrupt(InterruptCause::MachineSoft))
        } else if code == 5 {
            Some(TrapCause::Interrupt(InterruptCause::SupervisorTimer))
        } else if code == 7 {
            Some(TrapCause::Interrupt(InterruptCause::MachineTimer))
        } else if code == 9 {
            Some(TrapCause::Interrupt(InterruptCause::SupervisorExternal))
        } else if code == 11 {
            Some(TrapCause::Interrupt(InterruptCause::MachineExternal))
        } else {
            None
        }
    } else {
        if code == 0 {
            Some(TrapCause::Exception(ExceptionCause::InstructionMisaligned))
        } else if code == 1 {
            Some(TrapCause::Exception(ExceptionCause::InstructionFault))
        } else if code == 2 {
            Some(TrapCause::Exception(ExceptionCause::IllegalInstruction))
        } else if code == 3 {
            Some(TrapCause::Exception(ExceptionCause::Breakpoint))
        } else if code == 4 {
            Some(TrapCause::Exception(ExceptionCause::LoadMisaligned))
        } else if code == 5 {
            Some(TrapCause::Exception(ExceptionCause::LoadFault))
        } else if code == 6 {
            Some(TrapCause::Exception(ExceptionCause::StoreMisaligned))
        } else if code == 7 {
            Some(TrapCause::Exception(ExceptionCause::StoreFault))
        } else if code == 8 {
            Some(TrapCause::Exception(ExceptionCause::UserEnvCall))
        } else if code == 9 {
            Some(TrapCause::Exception(ExceptionCause::SupervisorEnvCall))
        } else if code == 11 {
            Some(TrapCause::Exception(ExceptionCause::MachineEnvCall))
        } else if code == 12 {
            Some(TrapCause::Exception(ExceptionCause::InstructionPageFault))
        } else if code == 13 {
            Some(TrapCause::Exception(ExceptionCause::LoadPageFault))
        } else if code == 15 {
            Some(TrapCause::Exception(ExceptionCause::StorePageFault))
        } else {
            None
        }
    }
}

/// The register snapshot captured on trap entry: the interrupted
/// program counter and the argument registers the entry stub saves.
#[derive(Clone, Copy, Debug)]
pub struct TrapFrame {
    pub pc: u64,
    pub a: [u64; 8],
}

/// What the dispatcher decided: resume the interrupted context at the
/// frame's saved program counter, or halt with the diagnostic record.
#[derive(Clone, Copy, PartialEq, Eq, Structural, Debug)]
pub enum TrapOutcome {
    Resume,
    Fatal(FatalInfo),
}

/// Build the diagnostic record of the fatal path: the unsupported
/// decoded cause, or the raw cause value where decoding failed, along
/// with the faulting program counter and address register.
pub fn unsupported_trap(trap: Option<TrapCause>, cause_bits: u64, mepc: u64, mtval: u64) -> (f:
    FatalInfo)
    ensures
        f.mepc == mepc,
        f.mtval == mtval,
        trap matches Some(c) ==> f.error == TrapError::UnsupportedTrap(c),
        trap is None ==> f.error == TrapError::UndecodableCause(cause_bits),
{
    match trap {
        Some(c) => FatalInfo { error: TrapError::UnsupportedTrap(c), mepc, mtval },
        None => FatalInfo { error: TrapError::UndecodableCause(cause_bits), mepc, mtval },
    }
}

/// One dispatch step, run on the trap stack after the entry stub has
/// captured the interrupted program counter and argument registers.
///
/// On the machine-timer interrupt the timer driver services the queue,
/// the argument registers are saved into the frame, and the outcome is
/// to resume at the saved program counter; the expired entries come
/// back for the platform to notify.  On any other cause nothing is
/// touched and the outcome is the fatal diagnostic record.
pub fn on_trap(
    frame: &mut TrapFrame,
    epc: u64,
    cause_bits: u64,
    mtval: u64,
    args: [u64; 8],
    driver: &mut MachineTimeDriver,
    clint: &mut Clint,
    ints: &mut MachineInterrupts,
) -> (r: (TrapOutcome, Vec<WakeEntry>))
    requires
        old(driver).wf(),
    ensures
        final(frame).pc == epc,
        final(driver).wf(),
        spec_is_machine_timer(cause_bits) ==> {
            &&& r.0 is Resume
            &&& final(frame).a == args
            &&& final(driver).synced(*final(clint))
            &&& interrupt_handled(
                *old(driver),
                *old(clint),
                *old(ints),
                *final(driver),
                *final(clint),
                *final(ints),
                r.1@,
            )
        },
        !spec_is_machine_timer(cause_bits) ==> {
            &&& r.0 == TrapOutcome::Fatal(
                FatalInfo {
                    error: match spec_decode(cause_bits) {
                        Some(c) => TrapError::UnsupportedTrap(c),
                        None => TrapError::UndecodableCause(cause_bits),
                    },
                    mepc: epc,
                    mtval,
                },
            )
            &&& final(frame).a == old(frame).a
            &&& *final(driver) == *old(driver)
            &&& *final(clint) == *old(clint)
            &&& *final(ints) == *old(ints)
            &&& r.1@.len() == 0
        },
{
    frame.pc = epc;
    let decoded = decode_cause(cause_bits);
    match decoded {
        Some(TrapCause::Interrupt(InterruptCause::MachineTimer)) => {
            let expired = crate::time_driver::timer_interrupt_handler(driver, clint, ints);
            frame.a = args;
            (TrapOutcome::Resume, expired)
        },
        _ => {
            let info = unsupported_trap(decoded, cause_bits, epc, mtval);
            (TrapOutcome::Fatal(info), Vec::new())
        },
    }
}

/// Whether a byte region can serve as the trap stack: aligned to the
/// hardware-mandated boundary and at least the reserved size.
pub fn trap_stack_region_valid(base: usize, len: usize) -> (ok: bool)
    ensures
        ok == (base % TRAP_STACK_ALIGN == 0 && len >= TRAP_STACK_SIZE),
{
    base % TRAP_STACK_ALIGN == 0 && len >= TRAP_STACK_SIZE
}

} // verus!
