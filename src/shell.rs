//! The command shell: parsing a command line and carrying it out.
use vstd::prelude::*;
use vstd::string::StringSliceAdditionalSpecFns;
use crate::memory::Allocator;
use crate::process::{Process, Scheduler, live_processes};
use crate::string::strcmp;

verus! {

/// Stack size of a process created from the shell.
pub const SHELL_STACK_SIZE: usize = 4096;

#[derive(Debug, Clone, Copy)]
pub enum Command {
    Help,
    List,
    Create,
    Exit,
    Unknown(&'static str),
}

/// Whether `c` has the Unicode White_Space property, the definition of whitespace that
/// `char::is_whitespace` and `str::trim` use.
pub open spec fn is_white_space(c: char) -> bool {
    let n = c as u32;
    ||| 0x9 <= n <= 0xD
    ||| n == 0x20
    ||| n == 0x85
    ||| n == 0xA0
    ||| n == 0x1680
    ||| 0x2000 <= n <= 0x200A
    ||| n == 0x2028
    ||| n == 0x2029
    ||| n == 0x202F
    ||| n == 0x205F
    ||| n == 0x3000
}

/// `s` without its leading whitespace.
pub open spec fn trim_start(s: Seq<char>) -> Seq<char>
    decreases s.len(),
{
    if s.len() > 0 && is_white_space(s[0]) {
        trim_start(s.drop_first())
    } else {
        s
    }
}

/// `s` without its trailing whitespace.
pub open spec fn trim_end(s: Seq<char>) -> Seq<char>
    decreases s.len(),
{
    if s.len() > 0 && is_white_space(s.last()) {
        trim_end(s.drop_last())
    } else {
        s
    }
}

/// `s` without leading and trailing whitespace.
pub open spec fn trimmed(s: Seq<char>) -> Seq<char> {
    trim_end(trim_start(s))
}

/// Relies on str::trim: the string with leading and trailing White_Space characters
/// removed.
#[verifier::external_body]
fn trim_str(s: &str) -> (r: &str)
    ensures
        r@ == trimmed(s@),
{
    s.trim()
}

/// The command named by the bytes of a trimmed line. An empty line is an unknown command
/// with an empty name; any other unknown word is reported as "unknown".
pub open spec fn command_for(line: Seq<u8>) -> Command {
    if line == "help".spec_bytes() {
        Command::Help
    } else if line == "list".spec_bytes() {
        Command::List
    } else if line == "create".spec_bytes() {
        Command::Create
    } else if line == "exit".spec_bytes() {
        Command::Exit
    } else if line.len() == 0 {
        Command::Unknown("")
    } else {
        Command::Unknown("unknown")
    }
}

/// The command for a raw input line: its trimmed text, as UTF-8 bytes.
pub open spec fn parsed(input: Seq<char>) -> Command {
    command_for(vstd::utf8::encode_utf8(trimmed(input)))
}

impl Command {
    /// Parses a command line, ignoring surrounding whitespace.
    pub fn parse(input: &str) -> (r: Command)
        ensures
            r == parsed(input@),
    {
        let line = trim_str(input);
        proof {
            reveal_strlit("");
            assert("".spec_bytes().len() == 0);
        }
        if strcmp(line, "help") == 0 {
            Command::Help
        } else if strcmp(line, "list") == 0 {
            Command::List
        } else if strcmp(line, "create") == 0 {
            Command::Create
        } else if strcmp(line, "exit") == 0 {
            Command::Exit
        } else if strcmp(line, "") == 0 {
            Command::Unknown("")
        } else {
            Command::Unknown("unknown")
        }
    }
}

/// What the shell reports for a command.
pub enum ShellReply {
    Help,
    List(Vec<Process>),
    Created(Option<usize>),
    Goodbye,
    Unknown(&'static str),
}

pub struct Shell {
    running: bool,
}

impl Shell {
    /// A shell that accepts commands.
    pub fn new() -> (r: Self)
        ensures
            r.is_running_spec(),
    {
        Self { running: true }
    }

    pub closed spec fn is_running_spec(self) -> bool {
        self.running
    }

    /// Whether the shell still accepts commands: true until `exit`.
    pub fn is_running(&self) -> (r: bool)
        ensures
            r == self.is_running_spec(),
    {
        self.running
    }

    /// Carries out one command line: `list` reports the live processes, `create` creates a
    /// process with a stack of `SHELL_STACK_SIZE` bytes, `exit` stops the shell.
    pub fn execute_command(&mut self, sched: &mut Scheduler, alloc: &mut Allocator, input: &str) -> (r:
        ShellReply)
        requires
            old(sched)@.wf(),
            old(alloc)@.wf(),
        ensures
            final(sched)@.wf(),
            final(alloc)@.wf(),
            final(self).is_running_spec() == (old(self).is_running_spec() && !(parsed(input@) is Exit)),
            !(parsed(input@) is Create) ==> final(sched)@ == old(sched)@ && final(alloc)@ == old(
                alloc,
            )@,
            parsed(input@) is Help ==> r is Help,
            parsed(input@) is List ==> (r matches ShellReply::List(v) && v@ == live_processes(
                old(sched)@.slots,
            )),
            parsed(input@) is Exit ==> r is Goodbye,
            parsed(input@) matches Command::Unknown(name) ==> (r matches ShellReply::Unknown(n)
                && n == name),
            parsed(input@) is Create ==> (r matches ShellReply::Created(res) && (res is Some
                <==> old(sched)@.can_create(old(alloc)@, SHELL_STACK_SIZE)) && (res matches Some(
                pid,
            ) ==> pid == old(sched)@.next_pid && final(alloc)@ == old(alloc)@.bumped(
                SHELL_STACK_SIZE,
            ) && exists|i: int|
                old(sched)@.first_free(i) && final(sched)@ == old(sched)@.created_at(
                    i,
                    old(alloc)@,
                    SHELL_STACK_SIZE,
                )) && (res is None ==> final(sched)@ == old(sched)@ && final(alloc)@ == old(
                alloc,
            )@)),
    {
        match Command::parse(input) {
            Command::Help => ShellReply::Help,
            Command::List => ShellReply::List(sched.list_processes()),
            Command::Create => ShellReply::Created(sched.create_process(alloc, SHELL_STACK_SIZE)),
            Command::Exit => {
                self.running = false;
                ShellReply::Goodbye
            },
            Command::Unknown(name) => ShellReply::Unknown(name),
        }
    }
}

} // verus!
