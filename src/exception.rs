//! Trap classification and dispatch.
use vstd::prelude::*;
use crate::riscv::{
    Csrs, EXCEPTION_BREAKPOINT, EXCEPTION_ECALL_FROM_MACHINE, EXCEPTION_ECALL_FROM_SUPERVISOR,
    EXCEPTION_ECALL_FROM_USER, EXCEPTION_ILLEGAL_INSTRUCTION, EXCEPTION_INSTRUCTION_ACCESS_FAULT,
    EXCEPTION_INSTRUCTION_MISALIGNED, EXCEPTION_LOAD_ACCESS_FAULT,
    EXCEPTION_LOAD_ADDRESS_MISALIGNED, EXCEPTION_STORE_ACCESS_FAULT,
    EXCEPTION_STORE_ADDRESS_MISALIGNED, INTERRUPT_MACHINE_EXTERNAL, INTERRUPT_MACHINE_TIMER,
    MSTATUS_MIE, SYS_EXIT, SYS_WRITE, bit_set, read_mcause, read_mepc, read_mie, read_mtval,
    write_mie, write_mie_global, write_mtvec,
};
use crate::usermode::{UserSyscall, user_syscall_of};

verus! {

/// The top bit of `mcause`: set for interrupts, clear for exceptions.
pub const INTERRUPT_FLAG: usize = !(usize::MAX >> 1);

/// The `mie` bits of the machine timer and machine external interrupt sources.
pub const MACHINE_INTERRUPTS: usize = 0x880;

/// A decoded `mcause`: the kind and the sub-code held in the remaining bits.
#[derive(Debug, Clone, Copy, PartialEq, Eq, Structural)]
pub enum TrapCause {
    Interrupt(usize),
    Exception(usize),
}

pub open spec fn cause_of(mcause: usize) -> TrapCause {
    if mcause & INTERRUPT_FLAG != 0 {
        TrapCause::Interrupt(mcause & !INTERRUPT_FLAG)
    } else {
        TrapCause::Exception(mcause & !INTERRUPT_FLAG)
    }
}

/// Splits `mcause` into the interrupt/exception tag (its top bit) and the sub-code (the
/// remaining bits).
pub fn decode_cause(mcause: usize) -> (r: TrapCause)
    ensures
        r == cause_of(mcause),
{
    let code = mcause & !INTERRUPT_FLAG;
    if mcause & INTERRUPT_FLAG != 0 {
        TrapCause::Interrupt(code)
    } else {
        TrapCause::Exception(code)
    }
}

#[derive(Debug, Clone, Copy, PartialEq, Eq, Structural)]
pub enum InterruptKind {
    Timer,
    External,
    Unknown(usize),
}

pub open spec fn interrupt_of(code: usize) -> InterruptKind {
    if code == INTERRUPT_MACHINE_TIMER {
        InterruptKind::Timer
    } else if code == INTERRUPT_MACHINE_EXTERNAL {
        InterruptKind::External
    } else {
        InterruptKind::Unknown(code)
    }
}

/// Classifies an interrupt. Timer and external interrupts are acknowledged without further
/// action; any other code is reported as unknown.
pub fn handle_interrupt(code: usize) -> (r: InterruptKind)
    ensures
        r == interrupt_of(code),
{
    match code {
        INTERRUPT_MACHINE_TIMER => InterruptKind::Timer,
        INTERRUPT_MACHINE_EXTERNAL => InterruptKind::External,
        _ => InterruptKind::Unknown(code),
    }
}

#[derive(Debug, Clone, Copy, PartialEq, Eq, Structural)]
pub enum ExceptionKind {
    InstructionMisaligned,
    InstructionAccessFault,
    IllegalInstruction,
    Breakpoint,
    LoadAddressMisaligned,
    LoadAccessFault,
    StoreAddressMisaligned,
    StoreAccessFault,
    EcallFromUser(UserSyscall),
    EcallFromSupervisor,
    EcallFromMachine,
    Unknown(usize),
}

pub open spec fn exception_of(code: usize, syscall_num: usize) -> ExceptionKind {
    if code == EXCEPTION_INSTRUCTION_MISALIGNED {
        ExceptionKind::InstructionMisaligned
    } else if code == EXCEPTION_INSTRUCTION_ACCESS_FAULT {
        ExceptionKind::InstructionAccessFault
    } else if code == EXCEPTION_ILLEGAL_INSTRUCTION {
        ExceptionKind::IllegalInstruction
    } else if code == EXCEPTION_BREAKPOINT {
        ExceptionKind::Breakpoint
    } else if code == EXCEPTION_LOAD_ADDRESS_MISALIGNED {
        ExceptionKind::LoadAddressMisaligned
    } else if code == EXCEPTION_LOAD_ACCESS_FAULT {
        ExceptionKind::LoadAccessFault
    } else if code == EXCEPTION_STORE_ADDRESS_MISALIGNED {
        ExceptionKind::StoreAddressMisaligned
    } else if code == EXCEPTION_STORE_ACCESS_FAULT {
        ExceptionKind::StoreAccessFault
    } else if code == EXCEPTION_ECALL_FROM_USER {
        ExceptionKind::EcallFromUser(user_syscall_of(syscall_num))
    } else if code == EXCEPTION_ECALL_FROM_SUPERVISOR {
        ExceptionKind::EcallFromSupervisor
    } else if code == EXCEPTION_ECALL_FROM_MACHINE {
        ExceptionKind::EcallFromMachine
    } else {
        ExceptionKind::Unknown(code)
    }
}

/// Decodes the system call number (register a7) of an environment call.
fn handle_syscall(syscall_num: usize) -> (r: UserSyscall)
    ensures
        r == user_syscall_of(syscall_num),
{
    match syscall_num {
        SYS_WRITE => UserSyscall::Write,
        SYS_EXIT => UserSyscall::Exit,
        _ => UserSyscall::Unknown(syscall_num),
    }
}

/// Classifies an exception. Only an environment call from user mode goes on to system call
/// decoding, with `syscall_num` the value of a7; every other code is only reported.
/// `mepc` and `mtval` are the faulting address and trap value that go with the report.
pub fn handle_exception_code(code: usize, mepc: usize, mtval: usize, syscall_num: usize) -> (r:
    ExceptionKind)
    ensures
        r == exception_of(code, syscall_num),
{
    match code {
        EXCEPTION_INSTRUCTION_MISALIGNED => ExceptionKind::InstructionMisaligned,
        EXCEPTION_INSTRUCTION_ACCESS_FAULT => ExceptionKind::InstructionAccessFault,
        EXCEPTION_ILLEGAL_INSTRUCTION => ExceptionKind::IllegalInstruction,
        EXCEPTION_BREAKPOINT => ExceptionKind::Breakpoint,
        EXCEPTION_LOAD_ADDRESS_MISALIGNED => ExceptionKind::LoadAddressMisaligned,
        EXCEPTION_LOAD_ACCESS_FAULT => ExceptionKind::LoadAccessFault,
        EXCEPTION_STORE_ADDRESS_MISALIGNED => ExceptionKind::StoreAddressMisaligned,
        EXCEPTION_STORE_ACCESS_FAULT => ExceptionKind::StoreAccessFault,
        EXCEPTION_ECALL_FROM_USER => ExceptionKind::EcallFromUser(handle_syscall(syscall_num)),
        EXCEPTION_ECALL_FROM_SUPERVISOR => ExceptionKind::EcallFromSupervisor,
        EXCEPTION_ECALL_FROM_MACHINE => ExceptionKind::EcallFromMachine,
        _ => ExceptionKind::Unknown(code),
    }
}

/// The outcome of one trap, with the faulting address and trap value read at entry.
#[derive(Debug, Clone, Copy, PartialEq, Eq, Structural)]
pub enum TrapReport {
    Interrupt(InterruptKind),
    Exception { kind: ExceptionKind, mepc: usize, mtval: usize },
}

pub open spec fn report_of(hw: Csrs, syscall_num: usize) -> TrapReport {
    match cause_of(hw.mcause) {
        TrapCause::Interrupt(code) => TrapReport::Interrupt(interrupt_of(code)),
        TrapCause::Exception(code) => TrapReport::Exception {
            kind: exception_of(code, syscall_num),
            mepc: hw.mepc,
            mtval: hw.mtval,
        },
    }
}

/// The trap entry: reads `mcause`, `mepc` and `mtval`, classifies the cause and routes it.
/// The registers are only read, so the trap resumes at the `mepc` it was taken with.
pub fn handle_exception(hw: &Csrs, syscall_num: usize) -> (r: TrapReport)
    ensures
        r == report_of(*hw, syscall_num),
{
    let mcause = read_mcause(hw);
    let mepc = read_mepc(hw);
    let mtval = read_mtval(hw);
    match decode_cause(mcause) {
        TrapCause::Interrupt(code) => TrapReport::Interrupt(handle_interrupt(code)),
        TrapCause::Exception(code) => TrapReport::Exception {
            kind: handle_exception_code(code, mepc, mtval, syscall_num),
            mepc,
            mtval,
        },
    }
}

/// Installs `vector` as the trap vector and enables the machine timer and external
/// interrupts, then interrupts globally.
pub fn init_exception_handling(hw: &mut Csrs, vector: usize)
    ensures
        final(hw).mtvec == vector,
        final(hw).mie == old(hw).mie | MACHINE_INTERRUPTS,
        bit_set(final(hw).mstatus, MSTATUS_MIE),
        final(hw).mstatus & !MSTATUS_MIE == old(hw).mstatus & !MSTATUS_MIE,
        *final(hw) == (Csrs {
            mtvec: final(hw).mtvec,
            mie: final(hw).mie,
            mstatus: final(hw).mstatus,
            ..*old(hw)
        }),
{
    write_mtvec(hw, vector);
    let mie = read_mie(hw);
    write_mie(hw, mie | MACHINE_INTERRUPTS);
    write_mie_global(hw, true);
}

} // verus!
