//! Trap decoding: from the machine cause register to a portable record.

use vstd::prelude::*;
use crate::cpu::PrivilegeMode;
use crate::cpu::previous_privilege;
use crate::cpu::spec_previous_privilege;
use crate::csr::Csr;
use crate::csr::Hart;

verus! {

/// Whether a trap was raised by software or by hardware.
#[derive(Clone, Copy, Debug, PartialEq, Eq, Structural)]
pub enum IRQType {
    /// Raised by the instruction that was executing.
    Exception,
    /// Raised by a device or a timer.
    Interrupt,
}

/// A hint whether the interrupted environment can go on if nobody handles
/// the trap.
#[derive(Clone, Copy, Debug, PartialEq, Eq, Structural)]
pub enum IRQSeverity {
    /// End the running environment if the trap is not handled.
    Fatal,
    /// The environment can continue.
    NonFatal,
}

/// What caused a trap.
#[derive(Clone, Copy, Debug, PartialEq, Eq, Structural)]
pub enum IRQCause {
    UserSWI,
    SupervisorSWI,
    MachineSWI,
    UserTimer,
    SupervisorTimer,
    MachineTimer,
    UserInterrupt,
    SupervisorInterrupt,
    MachineInterrupt,
    InstructionAlignment,
    InstructionAccess,
    IllegalInstruction,
    InstructionPageFault,
    LoadAlignment,
    LoadAccess,
    LoadPageFault,
    StoreAlignment,
    StoreAccess,
    StorePageFault,
    Breakpoint,
    UserEnvironmentCall,
    SupervisorEnvironmentCall,
    MachineEnvironmentCall,
    /// Unknown, undefined or reserved.
    Unknown,
}

/// A trap in portable terms.
#[derive(Clone, Copy, Debug)]
pub struct IRQ {
    /// Hint whether this should end the guest.
    pub severity: IRQSeverity,
    /// Privilege level of the interrupted code.
    pub privilege_mode: PrivilegeMode,
    /// Exception or interrupt.
    pub irq_type: IRQType,
    /// Cause of the trap.
    pub cause: IRQCause,
    /// Where the trap occurred.
    pub pc: u64,
    /// Stack pointer of the interrupted code.
    pub sp: u64,
}

pub const REG_ZERO: usize = 0;
pub const REG_RA: usize = 1;
pub const REG_SP: usize = 2;
pub const REG_GP: usize = 3;
pub const REG_TP: usize = 4;
pub const REG_T0: usize = 5;
pub const REG_T1: usize = 6;
pub const REG_T2: usize = 7;
pub const REG_S0: usize = 8;
pub const REG_FP: usize = 8;
pub const REG_S1: usize = 9;
pub const REG_A0: usize = 10;
pub const REG_A1: usize = 11;
pub const REG_A2: usize = 12;
pub const REG_A3: usize = 13;
pub const REG_A4: usize = 14;
pub const REG_A5: usize = 15;
pub const REG_A6: usize = 16;
pub const REG_A7: usize = 17;
pub const REG_S2: usize = 18;
pub const REG_S3: usize = 19;
pub const REG_S4: usize = 20;
pub const REG_S5: usize = 21;
pub const REG_S6: usize = 22;
pub const REG_S7: usize = 23;
pub const REG_S8: usize = 24;
pub const REG_S9: usize = 25;
pub const REG_S10: usize = 26;
pub const REG_S11: usize = 27;
pub const REG_T3: usize = 28;
pub const REG_T4: usize = 29;
pub const REG_T5: usize = 30;
pub const REG_T6: usize = 31;

/// The integer registers as the trap entry stub stacked them. Slot `k` is
/// loaded back into `xk` on return, so a write here reaches the guest.
#[derive(Clone, Copy, Debug)]
pub struct IRQContext {
    pub registers: [u64; 32],
}

impl View for IRQContext {
    type V = Seq<u64>;

    /// The thirty-two register values, `x0` first.
    open spec fn view(&self) -> Seq<u64> {
        self.registers@
    }
}

/// Two to the power 63: the weight of the cause register's top bit.
pub open spec fn interrupt_flag() -> int {
    0x8000_0000_0000_0000
}

/// The type of trap that a cause register value stands for: its top bit
/// tells interrupts from exceptions.
pub open spec fn cause_type(mcause: u64) -> IRQType {
    if mcause >= interrupt_flag() {
        IRQType::Interrupt
    } else {
        IRQType::Exception
    }
}

/// The cause code: the cause register without its top bit.
pub open spec fn cause_code(mcause: u64) -> int {
    mcause as int % interrupt_flag()
}

/// The fixed table from trap type and cause code to the portable cause.
pub open spec fn cause_of(irq_type: IRQType, code: int) -> IRQCause {
    match irq_type {
        IRQType::Exception => {
            if code == 0 {
                IRQCause::InstructionAlignment
            } else if code == 1 {
                IRQCause::InstructionAccess
            } else if code == 2 {
                IRQCause::IllegalInstruction
            } else if code == 3 {
                IRQCause::Breakpoint
            } else if code == 4 {
                IRQCause::LoadAlignment
            } else if code == 5 {
                IRQCause::LoadAccess
            } else if code == 6 {
                IRQCause::StoreAlignment
            } else if code == 7 {
                IRQCause::StoreAccess
            } else if code == 8 {
                IRQCause::UserEnvironmentCall
            } else if code == 9 {
                IRQCause::SupervisorEnvironmentCall
            } else if code == 11 {
                IRQCause::MachineEnvironmentCall
            } else if code == 12 {
                IRQCause::InstructionPageFault
            } else if code == 13 {
                IRQCause::LoadPageFault
            } else if code == 15 {
                IRQCause::StorePageFault
            } else {
                IRQCause::Unknown
            }
        },
        IRQType::Interrupt => {
            if code == 0 {
                IRQCause::UserSWI
            } else if code == 1 {
                IRQCause::SupervisorSWI
            } else if code == 3 {
                IRQCause::MachineSWI
            } else if code == 4 {
                IRQCause::UserTimer
            } else if code == 5 {
                IRQCause::SupervisorTimer
            } else if code == 7 {
                IRQCause::MachineTimer
            } else if code == 8 {
                IRQCause::UserInterrupt
            } else if code == 9 {
                IRQCause::SupervisorInterrupt
            } else if code == 11 {
                IRQCause::MachineInterrupt
            } else {
                IRQCause::Unknown
            }
        },
    }
}

/// The severity that goes with a cause. Alignment and access faults,
/// illegal instructions and breakpoints end the guest unless handled; calls
/// into the environment, page faults, every interrupt and every unknown
/// cause do not.
pub open spec fn severity_of(cause: IRQCause) -> IRQSeverity {
    match cause {
        IRQCause::InstructionAlignment
        | IRQCause::InstructionAccess
        | IRQCause::IllegalInstruction
        | IRQCause::Breakpoint
        | IRQCause::LoadAlignment
        | IRQCause::LoadAccess
        | IRQCause::StoreAlignment
        | IRQCause::StoreAccess => IRQSeverity::Fatal,
        _ => IRQSeverity::NonFatal,
    }
}

/// The record that `dispatch` builds from the registers at trap entry.
pub open spec fn trap_record(context: IRQContext, hart: Hart) -> IRQ {
    let irq_type = cause_type(hart.mcause);
    let cause = cause_of(irq_type, cause_code(hart.mcause));
    IRQ {
        severity: severity_of(cause),
        privilege_mode: spec_previous_privilege(hart.mstatus),
        irq_type,
        cause,
        pc: hart.mepc,
        sp: context.registers[2],
    }
}

/// Describes the trap that the hart has just taken. Every value of the cause
/// register gives a record: codes outside the table come back as
/// `IRQCause::Unknown`, which is not fatal.
pub fn dispatch(context: IRQContext, hart: &Hart) -> (irq: Option<IRQ>)
    ensures
        irq == Some(trap_record(context, *hart)),
{
    let mcause = hart.read_csr(Csr::Mcause);
    let top: u64 = mcause >> 63;
    let code: u64 = mcause & 0x7fff_ffff_ffff_ffff;
    assert(top == 0 <==> mcause < 0x8000_0000_0000_0000) by (bit_vector)
        requires
            top == mcause >> 63,
    ;
    assert(code == mcause % 0x8000_0000_0000_0000) by (bit_vector)
        requires
            code == mcause & 0x7fff_ffff_ffff_ffff,
    ;
    let irq_type = if top == 0 {
        IRQType::Exception
    } else {
        IRQType::Interrupt
    };
    let (severity, cause) = match irq_type {
        IRQType::Exception => match code {
            0 => (IRQSeverity::Fatal, IRQCause::InstructionAlignment),
            1 => (IRQSeverity::Fatal, IRQCause::InstructionAccess),
            2 => (IRQSeverity::Fatal, IRQCause::IllegalInstruction),
            3 => (IRQSeverity::Fatal, IRQCause::Breakpoint),
            4 => (IRQSeverity::Fatal, IRQCause::LoadAlignment),
            5 => (IRQSeverity::Fatal, IRQCause::LoadAccess),
            6 => (IRQSeverity::Fatal, IRQCause::StoreAlignment),
            7 => (IRQSeverity::Fatal, IRQCause::StoreAccess),
            8 => (IRQSeverity::NonFatal, IRQCause::UserEnvironmentCall),
            9 => (IRQSeverity::NonFatal, IRQCause::SupervisorEnvironmentCall),
            11 => (IRQSeverity::NonFatal, IRQCause::MachineEnvironmentCall),
            12 => (IRQSeverity::NonFatal, IRQCause::InstructionPageFault),
            13 => (IRQSeverity::NonFatal, IRQCause::LoadPageFault),
            15 => (IRQSeverity::NonFatal, IRQCause::StorePageFault),
            _ => (IRQSeverity::NonFatal, IRQCause::Unknown),
        },
        IRQType::Interrupt => match code {
            0 => (IRQSeverity::NonFatal, IRQCause::UserSWI),
            1 => (IRQSeverity::NonFatal, IRQCause::SupervisorSWI),
            3 => (IRQSeverity::NonFatal, IRQCause::MachineSWI),
            4 => (IRQSeverity::NonFatal, IRQCause::UserTimer),
            5 => (IRQSeverity::NonFatal, IRQCause::SupervisorTimer),
            7 => (IRQSeverity::NonFatal, IRQCause::MachineTimer),
            8 => (IRQSeverity::NonFatal, IRQCause::UserInterrupt),
            9 => (IRQSeverity::NonFatal, IRQCause::SupervisorInterrupt),
            11 => (IRQSeverity::NonFatal, IRQCause::MachineInterrupt),
            _ => (IRQSeverity::NonFatal, IRQCause::Unknown),
        },
    };
    Some(
        IRQ {
            severity,
            irq_type,
            cause,
            privilege_mode: previous_privilege(hart),
            pc: hart.read_csr(Csr::Mepc),
            sp: context.registers[REG_SP],
        },
    )
}

/// The pending bit that acknowledging a cause clears, if it has one. Only
/// user and supervisor level software, timer and external interrupts are
/// cleared by the monitor; exceptions clear themselves.
pub open spec fn pending_bit(cause: IRQCause) -> Option<u64> {
    match cause {
        IRQCause::UserSWI => Some(0u64),
        IRQCause::SupervisorSWI => Some(1u64),
        IRQCause::UserTimer => Some(4u64),
        IRQCause::SupervisorTimer => Some(5u64),
        IRQCause::UserInterrupt => Some(8u64),
        IRQCause::SupervisorInterrupt => Some(9u64),
        _ => None,
    }
}

/// Clears the pending bit of an interrupt, so that it does not fire again at
/// once on return. Causes without a pending bit leave the hart as it is.
pub fn acknowledge(irq: IRQ, hart: &mut Hart)
    ensures
        match pending_bit(irq.cause) {
            Some(bit) => *final(hart) == (Hart { mip: old(hart).mip & !(1u64 << bit), ..*old(hart) }),
            None => *final(hart) == *old(hart),
        },
{
    let bit: u64 = match irq.cause {
        IRQCause::UserSWI => 0,
        IRQCause::SupervisorSWI => 1,
        IRQCause::UserTimer => 4,
        IRQCause::SupervisorTimer => 5,
        IRQCause::UserInterrupt => 8,
        IRQCause::SupervisorInterrupt => 9,
        _ => {
            return ;
        },
    };
    hart.clear_csr(Csr::Mip, 1u64 << bit);
}

/// No interrupt is ever fatal, and neither is an unknown cause.
pub proof fn lemma_interrupts_are_not_fatal(mcause: u64)
    ensures
        cause_type(mcause) == IRQType::Interrupt ==> severity_of(
            cause_of(cause_type(mcause), cause_code(mcause)),
        ) == IRQSeverity::NonFatal,
        severity_of(IRQCause::Unknown) == IRQSeverity::NonFatal,
{
}

} // verus!
