use rust_os::riscv::{read_mpp, Csrs, PRIVILEGE_MACHINE, PRIVILEGE_USER};
use rust_os::usermode::{UserContext, UserModeManager, UserProgram, UserSyscall, UserTrap};

fn hw() -> Csrs {
    Csrs { mstatus: 0x1800, mepc: 0, mcause: 0, mtval: 0, mie: 0x880, mip: 0, mtvec: 0 }
}

fn manager() -> UserModeManager {
    let mut m = UserModeManager::new();
    m.init();
    m
}

#[test]
fn enter_sets_user_privilege_and_context() {
    let mut m = manager();
    let mut hw = hw();
    assert!(m.switch_to_user(&mut hw, 1));
    assert_eq!(read_mpp(&hw), PRIVILEGE_USER);
    assert_eq!(hw.mepc, 0x1001000);
    assert_eq!(hw.mie, 0x891);
    let ctx = m.current_user_context.unwrap();
    assert_eq!(ctx.pc, 0x1001000);
    assert_eq!(ctx.sp, 0x10000000);
    assert_eq!(ctx.get_register(2), 0x10000000);
}

#[test]
fn leave_restores_machine_privilege() {
    let mut m = manager();
    let mut hw = hw();
    assert!(m.switch_to_user(&mut hw, 0));
    m.return_to_kernel(&mut hw);
    assert_eq!(read_mpp(&hw), PRIVILEGE_MACHINE);
    assert!(m.current_user_context.is_none());
    assert_eq!(hw.mie, 0x880);
    // leaving again only repeats the register writes
    m.return_to_kernel(&mut hw);
    assert_eq!(read_mpp(&hw), PRIVILEGE_MACHINE);
    assert_eq!(hw.mie, 0x880);
}

#[test]
fn enter_with_invalid_index_changes_nothing() {
    let mut m = manager();
    let mut hw = hw();
    assert!(!m.switch_to_user(&mut hw, 5));
    assert!(!m.switch_to_user(&mut hw, 8));
    assert!(!m.switch_to_user(&mut hw, usize::MAX));
    assert_eq!(hw.mstatus, 0x1800);
    assert_eq!(hw.mepc, 0);
    assert_eq!(hw.mie, 0x880);
    assert!(m.current_user_context.is_none());
}

#[test]
fn user_faults_force_return_to_kernel() {
    for code in [2usize, 5, 7, 12] {
        let mut m = manager();
        let mut hw = hw();
        assert!(m.switch_to_user(&mut hw, 0));
        let trap = m.handle_user_exception(&mut hw, code, 0x1000000, 0, 0);
        assert!(m.current_user_context.is_none());
        assert_eq!(read_mpp(&hw), PRIVILEGE_MACHINE);
        match code {
            2 => assert_eq!(trap, UserTrap::IllegalInstruction),
            5 => assert_eq!(trap, UserTrap::LoadAccessFault),
            7 => assert_eq!(trap, UserTrap::StoreAccessFault),
            _ => assert_eq!(trap, UserTrap::Unknown(12)),
        }
    }
}

#[test]
fn user_syscalls_stay_in_user_mode_except_exit() {
    let mut m = manager();
    let mut hw = hw();
    assert!(m.switch_to_user(&mut hw, 0));
    assert_eq!(
        m.handle_user_exception(&mut hw, 8, 0x1000004, 0, 64),
        UserTrap::Syscall(UserSyscall::Write)
    );
    assert_eq!(
        m.handle_user_exception(&mut hw, 8, 0x1000004, 0, 1),
        UserTrap::Syscall(UserSyscall::Unknown(1))
    );
    assert!(m.current_user_context.is_some());
    assert_eq!(read_mpp(&hw), PRIVILEGE_USER);
    assert_eq!(
        m.handle_user_exception(&mut hw, 8, 0x1000008, 0, 93),
        UserTrap::Syscall(UserSyscall::Exit)
    );
    assert!(m.current_user_context.is_none());
    assert_eq!(read_mpp(&hw), PRIVILEGE_MACHINE);
}

#[test]
fn catalog_lists_registered_programs() {
    let m = manager();
    assert_eq!(m.list_programs(), vec![(0, "hello"), (1, "test")]);
    assert!(UserModeManager::new().list_programs().is_empty());
}

#[test]
fn context_registers() {
    let mut c = UserContext::new(0x400, 0x8000);
    assert_eq!(c.get_register(2), 0x8000);
    assert_eq!(c.get_register(1), 0);
    c.set_register(10, 5);
    c.set_register(32, 9);
    assert_eq!(c.get_register(10), 5);
    assert_eq!(c.get_register(32), 0);
    assert_eq!(c.pc, 0x400);
    let p = UserProgram::new("x", 0x2000, 512);
    let ctx = p.create_context();
    assert_eq!(ctx.pc, 0x2000);
    assert_eq!(ctx.sp, 0x10000000);
}
