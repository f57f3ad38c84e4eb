//! Entering and leaving user mode: register snapshots, the program catalog and the
//! privilege switch.
use vstd::prelude::*;
use crate::riscv::{
    Csrs, EXCEPTION_ECALL_FROM_USER, EXCEPTION_ILLEGAL_INSTRUCTION, EXCEPTION_LOAD_ACCESS_FAULT,
    EXCEPTION_STORE_ACCESS_FAULT, MSTATUS_MPP, PRIVILEGE_MACHINE, PRIVILEGE_USER, REG_SP,
    SYS_EXIT, SYS_WRITE, mpp_of, read_mie, write_mepc, write_mie, write_mpp,
};

verus! {

/// Number of general-purpose registers.
pub const NUM_REGS: usize = 32;

/// Stack base given to every user context.
pub const USER_STACK_TOP: usize = 0x10000000;

/// Number of entries in the program catalog.
pub const MAX_PROGRAMS: usize = 8;

/// The `mie` bits of the user-tier interrupt sources: user software and user timer.
pub const USER_INTERRUPTS: usize = 0x11;

/// A register snapshot of one user execution flow.
#[derive(Debug, Clone, Copy)]
pub struct UserContext {
    pub regs: [usize; 32],
    pub pc: usize,
    pub sp: usize,
}

/// The registers of a fresh context: all zero except the stack pointer.
pub open spec fn initial_regs(sp: usize) -> Seq<usize> {
    Seq::new(NUM_REGS as nat, |i: int| if i == REG_SP { sp } else { 0 })
}

impl UserContext {
    pub fn new(pc: usize, sp: usize) -> (r: Self)
        ensures
            r.regs@ == initial_regs(sp),
            r.pc == pc,
            r.sp == sp,
    {
        let mut regs = [0usize; 32];
        regs[REG_SP] = sp;
        assert(regs@ =~= initial_regs(sp));
        Self { regs, pc, sp }
    }

    /// Writes register `reg`; an index past the register file is ignored.
    pub fn set_register(&mut self, reg: usize, value: usize)
        ensures
            reg < NUM_REGS ==> final(self).regs@ == old(self).regs@.update(reg as int, value),
            reg >= NUM_REGS ==> final(self).regs@ == old(self).regs@,
            final(self).pc == old(self).pc,
            final(self).sp == old(self).sp,
    {
        if reg < NUM_REGS {
            self.regs[reg] = value;
        }
    }

    /// Reads register `reg`; an index past the register file reads as zero.
    pub fn get_register(&self, reg: usize) -> (r: usize)
        ensures
            r == (if reg < NUM_REGS {
                self.regs@[reg as int]
            } else {
                0
            }),
    {
        if reg < NUM_REGS {
            self.regs[reg]
        } else {
            0
        }
    }
}

/// An entry of the program catalog.
#[derive(Debug, Clone, Copy)]
pub struct UserProgram {
    pub name: &'static str,
    pub entry_point: usize,
    pub stack_size: usize,
}

impl UserProgram {
    pub fn new(name: &'static str, entry_point: usize, stack_size: usize) -> (r: Self)
        ensures
            r == (UserProgram { name, entry_point, stack_size }),
    {
        Self { name, entry_point, stack_size }
    }

    /// A fresh context that starts at the program's entry point on the user stack.
    pub fn create_context(&self) -> (r: UserContext)
        ensures
            r.regs@ == initial_regs(USER_STACK_TOP),
            r.pc == self.entry_point,
            r.sp == USER_STACK_TOP,
    {
        UserContext::new(self.entry_point, USER_STACK_TOP)
    }
}

/// The registers after entering user mode at `entry`: MPP reads User, `mepc` holds the
/// entry point and the user-tier interrupt sources are enabled.
pub open spec fn entered(hw: Csrs, entry: usize) -> Csrs {
    Csrs {
        mstatus: hw.mstatus & !MSTATUS_MPP,
        mepc: entry,
        mie: hw.mie | USER_INTERRUPTS,
        ..hw
    }
}

/// The registers after leaving user mode: MPP reads Machine and the user-tier interrupt
/// sources are disabled.
pub open spec fn left(hw: Csrs) -> Csrs {
    Csrs { mstatus: hw.mstatus | MSTATUS_MPP, mie: hw.mie & !USER_INTERRUPTS, ..hw }
}

pub proof fn lemma_entered_left_privilege(hw: Csrs, entry: usize)
    ensures
        mpp_of(entered(hw, entry).mstatus) == PRIVILEGE_USER,
        mpp_of(left(hw).mstatus) == PRIVILEGE_MACHINE,
{
    let m = hw.mstatus;
    assert(((m & !0x1800usize) & 0x1800usize) >> 11usize == 0) by (bit_vector);
    assert(((m | 0x1800usize) & 0x1800usize) >> 11usize == 3) by (bit_vector);
}

/// What a trap taken in user mode was.
#[derive(Debug, Clone, Copy, PartialEq, Eq, Structural)]
pub enum UserTrap {
    Syscall(UserSyscall),
    IllegalInstruction,
    LoadAccessFault,
    StoreAccessFault,
    Unknown(usize),
}

/// The system call behind an environment call from user mode.
#[derive(Debug, Clone, Copy, PartialEq, Eq, Structural)]
pub enum UserSyscall {
    Write,
    Exit,
    Unknown(usize),
}

pub open spec fn user_syscall_of(num: usize) -> UserSyscall {
    if num == SYS_WRITE {
        UserSyscall::Write
    } else if num == SYS_EXIT {
        UserSyscall::Exit
    } else {
        UserSyscall::Unknown(num)
    }
}

pub open spec fn user_trap_of(code: usize, syscall_num: usize) -> UserTrap {
    if code == EXCEPTION_ECALL_FROM_USER {
        UserTrap::Syscall(user_syscall_of(syscall_num))
    } else if code == EXCEPTION_ILLEGAL_INSTRUCTION {
        UserTrap::IllegalInstruction
    } else if code == EXCEPTION_LOAD_ACCESS_FAULT {
        UserTrap::LoadAccessFault
    } else if code == EXCEPTION_STORE_ACCESS_FAULT {
        UserTrap::StoreAccessFault
    } else {
        UserTrap::Unknown(code)
    }
}

/// Whether a user trap forces the return to Machine mode: every fault does, and of the
/// system calls only exit.
pub open spec fn forces_leave(trap: UserTrap) -> bool {
    match trap {
        UserTrap::Syscall(call) => call == UserSyscall::Exit,
        _ => true,
    }
}

/// The catalog entries that are set, with their indexes, in index order, among the first `n`.
pub open spec fn registered_programs(programs: Seq<Option<UserProgram>>, n: nat) -> Seq<
    (usize, &'static str),
>
    decreases n,
{
    if n == 0 {
        Seq::empty()
    } else {
        let k = n - 1;
        let rest = registered_programs(programs, k as nat);
        match programs[k] {
            Some(p) => rest.push((k as usize, p.name)),
            None => rest,
        }
    }
}

pub struct UserModeManager {
    pub current_user_context: Option<UserContext>,
    pub user_programs: [Option<UserProgram>; 8],
}

impl UserModeManager {
    /// The hardware privilege field and the active context agree: there is an active context
    /// exactly when MPP reads User.
    pub open spec fn privilege_agrees(self, hw: Csrs) -> bool {
        self.current_user_context is Some <==> mpp_of(hw.mstatus) == PRIVILEGE_USER
    }

    /// No active context and an empty catalog.
    pub fn new() -> (r: Self)
        ensures
            r.current_user_context is None,
            forall|i: int| 0 <= i < MAX_PROGRAMS ==> r.user_programs@[i] is None,
    {
        Self { current_user_context: None, user_programs: [None; 8] }
    }

    /// Registers the two built-in programs in catalog slots zero and one.
    pub fn init(&mut self)
        ensures
            final(self).current_user_context == old(self).current_user_context,
            final(self).user_programs@ == old(self).user_programs@.update(
                0,
                Some(UserProgram { name: "hello", entry_point: 0x1000000, stack_size: 4096 }),
            ).update(1, Some(UserProgram { name: "test", entry_point: 0x1001000, stack_size: 4096 })),
    {
        self.user_programs[0] = Some(UserProgram::new("hello", 0x1000000, 4096));
        self.user_programs[1] = Some(UserProgram::new("test", 0x1001000, 4096));
        assert(self.user_programs@ =~= old(self).user_programs@.update(
            0,
            Some(UserProgram { name: "hello", entry_point: 0x1000000, stack_size: 4096 }),
        ).update(1, Some(UserProgram { name: "test", entry_point: 0x1001000, stack_size: 4096 })));
    }
    /// Enters the program at catalog index `program_index`: a fresh context for it becomes
    /// the active one, MPP is set to User, `mepc` to the entry point, and the user-tier
    /// interrupt sources are enabled. `false`, with nothing changed, when the index is past
    /// the catalog or names an empty entry.
    pub fn switch_to_user(&mut self, hw: &mut Csrs, program_index: usize) -> (r: bool)
        ensures
            r == (program_index < MAX_PROGRAMS && old(self).user_programs@[program_index as int] is Some),
            final(self).user_programs == old(self).user_programs,
            r ==> ({
                let prog = old(self).user_programs@[program_index as int]->Some_0;
                &&& final(self).current_user_context matches Some(ctx) && ctx.pc
                    == prog.entry_point && ctx.sp == USER_STACK_TOP && ctx.regs@ == initial_regs(
                    USER_STACK_TOP,
                )
                &&& *final(hw) == entered(*old(hw), prog.entry_point)
                &&& mpp_of(final(hw).mstatus) == PRIVILEGE_USER
                &&& final(self).privilege_agrees(*final(hw))
            }),
            !r ==> final(self).current_user_context == old(self).current_user_context && *final(hw)
                == *old(hw),
    {
        if program_index >= MAX_PROGRAMS {
            return false;
        }
        match self.user_programs[program_index] {
            Some(program) => {
                let context = program.create_context();
                self.current_user_context = Some(context);
                write_mpp(hw, PRIVILEGE_USER);
                let ghost m = hw.mstatus;
                let ghost o = old(hw).mstatus;
                assert(m == o & !0x1800usize) by (bit_vector)
                    requires
                        (m & 0x1800usize) >> 11usize == 0usize & 3usize,
                        m & !0x1800usize == o & !0x1800usize,
                ;
                write_mepc(hw, program.entry_point);
                let mie = read_mie(hw);
                write_mie(hw, mie | USER_INTERRUPTS);
                proof {
                    lemma_entered_left_privilege(*old(hw), program.entry_point);
                }
                true
            },
            None => false,
        }
    }

    /// Leaves user mode: clears the active context, sets MPP to Machine and disables the
    /// user-tier interrupt sources. With no active context only the register writes happen.
    pub fn return_to_kernel(&mut self, hw: &mut Csrs)
        ensures
            final(self).current_user_context is None,
            final(self).user_programs == old(self).user_programs,
            *final(hw) == left(*old(hw)),
            mpp_of(final(hw).mstatus) == PRIVILEGE_MACHINE,
            final(self).privilege_agrees(*final(hw)),
    {
        self.current_user_context = None;
        write_mpp(hw, PRIVILEGE_MACHINE);
        let ghost m = hw.mstatus;
        let ghost o = old(hw).mstatus;
        assert(m == o | 0x1800usize) by (bit_vector)
            requires
                (m & 0x1800usize) >> 11usize == 3usize & 3usize,
                m & !0x1800usize == o & !0x1800usize,
        ;
        let mie = read_mie(hw);
        write_mie(hw, mie & !USER_INTERRUPTS);
        proof {
            lemma_entered_left_privilege(*old(hw), 0);
        }
    }

    /// Handles a trap taken in user mode with cause `exception_code`; `syscall_num` is the
    /// value of the syscall-number register (a7) at the trap. Environment calls go to system
    /// call decoding and only exit leaves user mode; every other cause forcibly returns to
    /// Machine mode.
    pub fn handle_user_exception(
        &mut self,
        hw: &mut Csrs,
        exception_code: usize,
        mepc: usize,
        mtval: usize,
        syscall_num: usize,
    ) -> (r: UserTrap)
        ensures
            r == user_trap_of(exception_code, syscall_num),
            final(self).user_programs == old(self).user_programs,
            forces_leave(r) ==> final(self).current_user_context is None && *final(hw) == left(
                *old(hw),
            ),
            !forces_leave(r) ==> *final(self) == *old(self) && *final(hw) == *old(hw),
    {
        match exception_code {
            EXCEPTION_ECALL_FROM_USER => UserTrap::Syscall(self.handle_user_syscall(hw, syscall_num)),
            EXCEPTION_ILLEGAL_INSTRUCTION => {
                self.return_to_kernel(hw);
                UserTrap::IllegalInstruction
            },
            EXCEPTION_LOAD_ACCESS_FAULT => {
                self.return_to_kernel(hw);
                UserTrap::LoadAccessFault
            },
            EXCEPTION_STORE_ACCESS_FAULT => {
                self.return_to_kernel(hw);
                UserTrap::StoreAccessFault
            },
            _ => {
                self.return_to_kernel(hw);
                UserTrap::Unknown(exception_code)
            },
        }
    }

    /// Decodes a system call made from user mode; exit leaves user mode.
    fn handle_user_syscall(&mut self, hw: &mut Csrs, syscall_num: usize) -> (r: UserSyscall)
        ensures
            r == user_syscall_of(syscall_num),
            final(self).user_programs == old(self).user_programs,
            r == UserSyscall::Exit ==> final(self).current_user_context is None && *final(hw)
                == left(*old(hw)),
            r != UserSyscall::Exit ==> *final(self) == *old(self) && *final(hw) == *old(hw),
    {
        match syscall_num {
            SYS_WRITE => UserSyscall::Write,
            SYS_EXIT => {
                self.return_to_kernel(hw);
                UserSyscall::Exit
            },
            _ => UserSyscall::Unknown(syscall_num),
        }
    }

    /// The registered programs with their catalog indexes, in index order.
    pub fn list_programs(&self) -> (r: Vec<(usize, &'static str)>)
        ensures
            r@ == registered_programs(self.user_programs@, MAX_PROGRAMS as nat),
    {
        let mut out: Vec<(usize, &'static str)> = Vec::new();
        let mut i: usize = 0;
        while i < MAX_PROGRAMS
            invariant
                i <= MAX_PROGRAMS,
                out@ == registered_programs(self.user_programs@, i as nat),
            decreases MAX_PROGRAMS - i,
        {
            if let Some(prog) = self.user_programs[i] {
                out.push((i, prog.name));
            }
            i += 1;
        }
        out
    }
}

} // verus!
