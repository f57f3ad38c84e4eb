//! The system call interface: argument decoding and the dispatch table.
use vstd::prelude::*;
use crate::memory::Allocator;
use crate::process::{Scheduler, lemma_slot_holding};
use crate::usermode::UserContext;

verus! {

pub const SYS_WRITE: usize = 64;
pub const SYS_EXIT: usize = 93;
pub const SYS_GETPID: usize = 172;
pub const SYS_FORK: usize = 220;
pub const SYS_EXECVE: usize = 221;
pub const SYS_WAITPID: usize = 260;

/// The value returned for a failed or unknown system call.
pub const SYSCALL_ERROR: usize = 0xFFFFFFFF;

/// Stack size of a process created by fork.
pub const FORK_STACK_SIZE: usize = 4096;

/// Register numbers of a7 and a0 in the register file.
pub const REG_A7: usize = 17;
pub const REG_A0: usize = 10;

/// The system call number (a7) and the six arguments (a0 to a5) of a call.
#[derive(Debug, Clone, Copy)]
pub struct SyscallArgs {
    pub syscall_num: usize,
    pub arg0: usize,
    pub arg1: usize,
    pub arg2: usize,
    pub arg3: usize,
    pub arg4: usize,
    pub arg5: usize,
}

impl SyscallArgs {
    /// Takes the call number from a7 and the arguments from a0 to a5 of a register snapshot.
    pub fn from_registers(ctx: &UserContext) -> (r: Self)
        ensures
            r.syscall_num == ctx.regs@[17],
            r.arg0 == ctx.regs@[10],
            r.arg1 == ctx.regs@[11],
            r.arg2 == ctx.regs@[12],
            r.arg3 == ctx.regs@[13],
            r.arg4 == ctx.regs@[14],
            r.arg5 == ctx.regs@[15],
    {
        SyscallArgs {
            syscall_num: ctx.regs[REG_A7],
            arg0: ctx.regs[REG_A0],
            arg1: ctx.regs[REG_A0 + 1],
            arg2: ctx.regs[REG_A0 + 2],
            arg3: ctx.regs[REG_A0 + 3],
            arg4: ctx.regs[REG_A0 + 4],
            arg5: ctx.regs[REG_A0 + 5],
        }
    }
}

/// A write goes to the console when its descriptor (a0) is stdout or stderr.
pub open spec fn writes_console(args: SyscallArgs) -> bool {
    args.arg0 == 1 || args.arg0 == 2
}

/// The value a system call returns when it does not touch the process table: the byte
/// count for a console write, id 1 for getpid, the id asked for by waitpid
/// (a0), and the error value for a write to any other descriptor, for execve and for an
/// unknown number.
pub open spec fn plain_result(args: SyscallArgs) -> usize {
    let n = args.syscall_num;
    if n == SYS_WRITE {
        if writes_console(args) {
            args.arg2
        } else {
            SYSCALL_ERROR
        }
    } else if n == SYS_GETPID {
        1
    } else if n == SYS_WAITPID {
        args.arg0
    } else {
        SYSCALL_ERROR
    }
}

/// The bytes a write sends to the console, as the buffer address (a1) and the count (a2);
/// `None` when the call is not a write to stdout or stderr.
pub fn console_target(args: &SyscallArgs) -> (r: Option<(usize, usize)>)
    ensures
        r == (if args.syscall_num == SYS_WRITE && writes_console(*args) {
            Some((args.arg1, args.arg2))
        } else {
            None
        }),
{
    if args.syscall_num == SYS_WRITE && (args.arg0 == 1 || args.arg0 == 2) {
        Some((args.arg1, args.arg2))
    } else {
        None
    }
}

pub struct SyscallHandler {
    pub syscall_count: usize,
}

impl SyscallHandler {
    pub fn new() -> (r: Self)
        ensures
            r.syscall_count == 0,
    {
        Self { syscall_count: 0 }
    }

    /// Counts and dispatches one system call. Fork creates a process with a stack of
    /// `FORK_STACK_SIZE` bytes and returns its id, or the error value when the table or
    /// the arena is full; exit terminates the current process and returns zero. The other
    /// calls return `plain_result` and leave the table alone.
    pub fn handle_syscall(
        &mut self,
        sched: &mut Scheduler,
        alloc: &mut Allocator,
        args: SyscallArgs,
    ) -> (r: usize)
        requires
            old(self).syscall_count < usize::MAX,
            old(sched)@.wf(),
            old(alloc)@.wf(),
        ensures
            final(self).syscall_count == old(self).syscall_count + 1,
            final(sched)@.wf(),
            final(alloc)@.wf(),
            args.syscall_num != SYS_FORK && args.syscall_num != SYS_EXIT ==> r == plain_result(
                args,
            ) && final(sched)@ == old(sched)@ && final(alloc)@ == old(alloc)@,
            args.syscall_num == SYS_EXIT ==> r == 0 && final(sched)@ == old(sched)@.exited()
                && final(alloc)@ == old(alloc)@,
            args.syscall_num == SYS_FORK && old(sched)@.can_create(old(alloc)@, FORK_STACK_SIZE)
                ==> {
                &&& r == old(sched)@.next_pid
                &&& exists|i: int|
                    old(sched)@.first_free(i) && final(sched)@ == old(sched)@.created_at(
                        i,
                        old(alloc)@,
                        FORK_STACK_SIZE,
                    )
                &&& final(alloc)@ == old(alloc)@.bumped(FORK_STACK_SIZE)
            },
            args.syscall_num == SYS_FORK && !old(sched)@.can_create(old(alloc)@, FORK_STACK_SIZE)
                ==> r == SYSCALL_ERROR && final(sched)@ == old(sched)@ && final(alloc)@ == old(
                alloc,
            )@,
    {
        self.syscall_count = self.syscall_count + 1;
        match args.syscall_num {
            SYS_WRITE => self.handle_write(args),
            SYS_EXIT => self.handle_exit(sched, alloc, args),
            SYS_GETPID => self.handle_getpid(args),
            SYS_FORK => self.handle_fork(sched, alloc, args),
            SYS_EXECVE => self.handle_execve(args),
            SYS_WAITPID => self.handle_waitpid(args),
            _ => SYSCALL_ERROR,
        }
    }

    /// write(fd, buf, count): the count when `fd` is stdout or stderr, the error value
    /// otherwise. The bytes themselves go out through `console_target`.
    fn handle_write(&self, args: SyscallArgs) -> (r: usize)
        ensures
            r == (if writes_console(args) {
                args.arg2
            } else {
                SYSCALL_ERROR
            }),
    {
        if args.arg0 == 1 || args.arg0 == 2 {
            args.arg2
        } else {
            SYSCALL_ERROR
        }
    }

    /// exit(code): terminates the current process, if there is one in the table, and
    /// returns zero.
    fn handle_exit(&self, sched: &mut Scheduler, alloc: &mut Allocator, args: SyscallArgs) -> (r:
        usize)
        requires
            old(sched)@.wf(),
        ensures
            r == 0,
            final(sched)@ == old(sched)@.exited(),
            final(sched)@.wf(),
            final(alloc)@ == old(alloc)@,
    {
        if let Some(current) = sched.current_pid() {
            let found = sched.terminate_process(alloc, current);
            proof {
                let o = old(sched)@;
                if found {
                    let i = choose|i: int| o.first_with(current, i) && sched@ == o.terminated_at(
                        i,
                        current,
                    );
                    lemma_slot_holding(o, i);
                }
            }
        }
        0
    }

    fn handle_getpid(&self, args: SyscallArgs) -> (r: usize)
        ensures
            r == 1,
    {
        1
    }

    /// fork(): a new process with a stack of `FORK_STACK_SIZE` bytes.
    fn handle_fork(&self, sched: &mut Scheduler, alloc: &mut Allocator, args: SyscallArgs) -> (r:
        usize)
        requires
            old(sched)@.wf(),
            old(alloc)@.wf(),
        ensures
            final(sched)@.wf(),
            final(alloc)@.wf(),
            old(sched)@.can_create(old(alloc)@, FORK_STACK_SIZE) ==> {
                &&& r == old(sched)@.next_pid
                &&& exists|i: int|
                    old(sched)@.first_free(i) && final(sched)@ == old(sched)@.created_at(
                        i,
                        old(alloc)@,
                        FORK_STACK_SIZE,
                    )
                &&& final(alloc)@ == old(alloc)@.bumped(FORK_STACK_SIZE)
            },
            !old(sched)@.can_create(old(alloc)@, FORK_STACK_SIZE) ==> r == SYSCALL_ERROR
                && final(sched)@ == old(sched)@ && final(alloc)@ == old(alloc)@,
    {
        match sched.create_process(alloc, FORK_STACK_SIZE) {
            Some(pid) => pid,
            None => SYSCALL_ERROR,
        }
    }

    /// execve(path, argv, envp): loading programs is not supported.
    fn handle_execve(&self, args: SyscallArgs) -> (r: usize)
        ensures
            r == SYSCALL_ERROR,
    {
        SYSCALL_ERROR
    }

    /// waitpid(pid, status, options): returns `pid` at once. Storing zero through the
    /// status pointer is left to the code that owns user memory.
    fn handle_waitpid(&self, args: SyscallArgs) -> (r: usize)
        ensures
            r == args.arg0,
    {
        args.arg0
    }
}

/// A fresh handler for the kernel, with no call counted yet.
pub fn init_syscalls() -> (r: SyscallHandler)
    ensures
        r.syscall_count == 0,
{
    SyscallHandler::new()
}

/// Issues write(fd, buf, count) through `handler`.
pub fn sys_write(
    handler: &mut SyscallHandler,
    sched: &mut Scheduler,
    alloc: &mut Allocator,
    fd: usize,
    buf: usize,
    count: usize,
) -> (r: usize)
    requires
        old(handler).syscall_count < usize::MAX,
        old(sched)@.wf(),
        old(alloc)@.wf(),
    ensures
        r == (if fd == 1 || fd == 2 {
            count
        } else {
            SYSCALL_ERROR
        }),
        final(handler).syscall_count == old(handler).syscall_count + 1,
        final(sched)@ == old(sched)@,
        final(alloc)@ == old(alloc)@,
{
    let args = SyscallArgs {
        syscall_num: SYS_WRITE,
        arg0: fd,
        arg1: buf,
        arg2: count,
        arg3: 0,
        arg4: 0,
        arg5: 0,
    };
    handler.handle_syscall(sched, alloc, args)
}

/// Issues exit(code) through `handler`: the current process, if any, is terminated.
pub fn sys_exit(
    handler: &mut SyscallHandler,
    sched: &mut Scheduler,
    alloc: &mut Allocator,
    exit_code: usize,
) -> (r: usize)
    requires
        old(handler).syscall_count < usize::MAX,
        old(sched)@.wf(),
        old(alloc)@.wf(),
    ensures
        r == 0,
        final(handler).syscall_count == old(handler).syscall_count + 1,
        final(sched)@ == old(sched)@.exited(),
        final(sched)@.wf(),
        final(alloc)@ == old(alloc)@,
{
    let args = SyscallArgs {
        syscall_num: SYS_EXIT,
        arg0: exit_code,
        arg1: 0,
        arg2: 0,
        arg3: 0,
        arg4: 0,
        arg5: 0,
    };
    handler.handle_syscall(sched, alloc, args)
}

/// Issues getpid() through `handler`.
pub fn sys_getpid(handler: &mut SyscallHandler, sched: &mut Scheduler, alloc: &mut Allocator) -> (r:
    usize)
    requires
        old(handler).syscall_count < usize::MAX,
        old(sched)@.wf(),
        old(alloc)@.wf(),
    ensures
        r == 1,
        final(handler).syscall_count == old(handler).syscall_count + 1,
        final(sched)@ == old(sched)@,
        final(alloc)@ == old(alloc)@,
{
    let args = SyscallArgs {
        syscall_num: SYS_GETPID,
        arg0: 0,
        arg1: 0,
        arg2: 0,
        arg3: 0,
        arg4: 0,
        arg5: 0,
    };
    handler.handle_syscall(sched, alloc, args)
}

} // verus!
