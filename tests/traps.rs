use rust_os::exception::{
    decode_cause, handle_exception, handle_exception_code, handle_interrupt,
    init_exception_handling, ExceptionKind, InterruptKind, TrapCause, TrapReport,
};
use rust_os::riscv::{
    read_csr, read_mie_global, read_mpie, read_mpp, write_csr, write_mie_global,
    write_mpie, write_mpp, Csrs, CSR_MCAUSE, CSR_MEPC, CSR_MSTATUS, CSR_MTVEC,
};
use rust_os::usermode::UserSyscall;

fn zero() -> Csrs {
    Csrs { mstatus: 0, mepc: 0, mcause: 0, mtval: 0, mie: 0, mip: 0, mtvec: 0 }
}

#[test]
fn cause_top_bit_selects_kind() {
    let top = 1usize << (usize::BITS - 1);
    assert_eq!(decode_cause(top | 7), TrapCause::Interrupt(7));
    assert_eq!(decode_cause(8), TrapCause::Exception(8));
    assert_eq!(decode_cause(top | 0x1_0000_0000), TrapCause::Interrupt(0x1_0000_0000));
    assert_eq!(decode_cause(top), TrapCause::Interrupt(0));
}

#[test]
fn interrupts_are_classified() {
    assert_eq!(handle_interrupt(7), InterruptKind::Timer);
    assert_eq!(handle_interrupt(11), InterruptKind::External);
    assert_eq!(handle_interrupt(3), InterruptKind::Unknown(3));
}

#[test]
fn exceptions_are_classified() {
    assert_eq!(handle_exception_code(0, 0, 0, 0), ExceptionKind::InstructionMisaligned);
    assert_eq!(handle_exception_code(2, 0, 0, 0), ExceptionKind::IllegalInstruction);
    assert_eq!(handle_exception_code(5, 0, 0, 0), ExceptionKind::LoadAccessFault);
    assert_eq!(handle_exception_code(7, 0, 0, 0), ExceptionKind::StoreAccessFault);
    assert_eq!(handle_exception_code(8, 0, 0, 64), ExceptionKind::EcallFromUser(UserSyscall::Write));
    assert_eq!(handle_exception_code(8, 0, 0, 93), ExceptionKind::EcallFromUser(UserSyscall::Exit));
    assert_eq!(
        handle_exception_code(8, 0, 0, 5),
        ExceptionKind::EcallFromUser(UserSyscall::Unknown(5))
    );
    assert_eq!(handle_exception_code(9, 0, 0, 0), ExceptionKind::EcallFromSupervisor);
    assert_eq!(handle_exception_code(11, 0, 0, 0), ExceptionKind::EcallFromMachine);
    assert_eq!(handle_exception_code(10, 0, 0, 0), ExceptionKind::Unknown(10));
}

#[test]
fn trap_entry_reads_cause_pc_and_value() {
    let mut hw = zero();
    hw.mcause = 5;
    hw.mepc = 0x8000_0010;
    hw.mtval = 0xdead;
    assert_eq!(
        handle_exception(&hw, 0),
        TrapReport::Exception { kind: ExceptionKind::LoadAccessFault, mepc: 0x8000_0010, mtval: 0xdead }
    );
    hw.mcause = (1usize << (usize::BITS - 1)) | 7;
    assert_eq!(handle_exception(&hw, 0), TrapReport::Interrupt(InterruptKind::Timer));
    assert_eq!(hw.mepc, 0x8000_0010);
}

#[test]
fn exception_setup_installs_vector_and_enables() {
    let mut hw = zero();
    hw.mie = 0x1;
    hw.mstatus = 0x1800;
    init_exception_handling(&mut hw, 0x8000_0000);
    assert_eq!(hw.mtvec, 0x8000_0000);
    assert_eq!(hw.mie, 0x881);
    assert_eq!(hw.mstatus, 0x1808);
}

#[test]
fn csr_access_by_address() {
    let mut hw = zero();
    write_csr(&mut hw, CSR_MEPC, 42);
    write_csr(&mut hw, CSR_MTVEC, 7);
    write_csr(&mut hw, CSR_MCAUSE, 9);
    write_csr(&mut hw, 0x123, 9);
    assert_eq!(read_csr(&hw, CSR_MEPC), 42);
    assert_eq!(read_csr(&hw, CSR_MTVEC), 7);
    assert_eq!(read_csr(&hw, CSR_MCAUSE), 0);
    assert_eq!(read_csr(&hw, 0x123), 0);
    write_csr(&mut hw, CSR_MSTATUS, 0x88);
    assert_eq!(hw.mstatus, 0x88);
}

#[test]
fn mstatus_fields() {
    let mut hw = zero();
    hw.mstatus = 0xffff_0000;
    write_mpp(&mut hw, 3);
    assert_eq!(read_mpp(&hw), 3);
    assert_eq!(hw.mstatus, 0xffff_1800);
    write_mpp(&mut hw, 5);
    assert_eq!(read_mpp(&hw), 1);
    assert_eq!(hw.mstatus & 0x1800, 0x0800);
    write_mpp(&mut hw, 0);
    assert_eq!(hw.mstatus, 0xffff_0000);
    write_mpie(&mut hw, true);
    assert!(read_mpie(&hw));
    assert_eq!(hw.mstatus, 0xffff_0080);
    write_mie_global(&mut hw, true);
    assert!(read_mie_global(&hw));
    write_mpie(&mut hw, false);
    assert!(!read_mpie(&hw));
    assert_eq!(hw.mstatus, 0xffff_0008);
}
