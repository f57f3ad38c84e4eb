//! Process control blocks and the round-robin scheduler.
use vstd::prelude::*;
use crate::memory::{Allocator, HeapView};

verus! {

/// Number of slots in the process table.
pub const MAX_PROCESSES: usize = 16;

#[derive(Debug, Clone, Copy, PartialEq, Eq, Structural)]
pub enum ProcessState {
    Ready,
    Running,
    Blocked,
    Terminated,
}

/// A process control block. `stack` is the base address of the stack region, zero once the
/// region has been given back.
#[derive(Debug, Clone, Copy)]
pub struct Process {
    pub pid: usize,
    pub state: ProcessState,
    pub stack_pointer: usize,
    pub program_counter: usize,
    pub stack: usize,
    pub stack_size: usize,
}

/// A fresh PCB for `pid` whose stack of `size` bytes starts at `base`: Ready, with the stack
/// pointer at the top of the region (stacks grow downward) and no program counter yet.
pub open spec fn fresh_process(pid: usize, base: int, size: usize) -> Process {
    Process {
        pid,
        state: ProcessState::Ready,
        stack_pointer: (base + size) as usize,
        program_counter: 0,
        stack: base as usize,
        stack_size: size,
    }
}

impl Process {
    /// Allocates a stack of `stack_size` bytes and builds a Ready PCB for `pid` on it;
    /// `None`, with the allocator untouched, when the allocation fails.
    pub fn new(alloc: &mut Allocator, pid: usize, stack_size: usize) -> (r: Option<Self>)
        requires
            old(alloc)@.wf(),
        ensures
            final(alloc)@.wf(),
            old(alloc)@.fits(stack_size) ==> r == Some(
                fresh_process(pid, old(alloc)@.next, stack_size),
            ) && final(alloc)@ == old(alloc)@.bumped(stack_size),
            !old(alloc)@.fits(stack_size) ==> r is None && final(alloc)@ == old(alloc)@,
    {
        match alloc.allocate(stack_size) {
            Some(base) => Some(
                Process {
                    pid,
                    state: ProcessState::Ready,
                    stack_pointer: base + stack_size,
                    program_counter: 0,
                    stack: base,
                    stack_size,
                },
            ),
            None => None,
        }
    }

    /// Gives the stack back to the allocator and marks the PCB Terminated.
    pub fn destroy(&mut self, alloc: &mut Allocator)
        ensures
            *final(self) == (Process { state: ProcessState::Terminated, stack: 0, ..*old(self) }),
            final(alloc)@ == old(alloc)@,
    {
        if self.stack != 0 {
            alloc.deallocate(self.stack, self.stack_size);
            self.stack = 0;
        }
        self.state = ProcessState::Terminated;
    }
}

/// The scheduler as values: the table's slots, the id of the current process and the id
/// that the next created process will get.
pub struct SchedulerView {
    pub slots: Seq<Option<Process>>,
    pub current: Option<usize>,
    pub next_pid: usize,
}

impl SchedulerView {
    pub open spec fn live(self, i: int) -> bool {
        0 <= i < self.slots.len() && self.slots[i] is Some
    }

    pub open spec fn process_at(self, i: int) -> Process {
        self.slots[i]->Some_0
    }

    pub open spec fn pid_at(self, i: int) -> usize {
        self.process_at(i).pid
    }

    pub open spec fn ready(self, i: int) -> bool {
        self.live(i) && self.process_at(i).state == ProcessState::Ready
    }

    pub open spec fn running(self, i: int) -> bool {
        self.live(i) && self.process_at(i).state == ProcessState::Running
    }

    pub open spec fn has_pid(self, pid: usize) -> bool {
        exists|i: int| self.live(i) && self.pid_at(i) == pid
    }

    /// Slot `i` is the first slot that holds `pid`.
    pub open spec fn first_with(self, pid: usize, i: int) -> bool {
        &&& self.live(i)
        &&& self.pid_at(i) == pid
        &&& forall|j: int| 0 <= j < i ==> !(self.live(j) && self.pid_at(j) == pid)
    }

    pub open spec fn free(self, i: int) -> bool {
        0 <= i < self.slots.len() && self.slots[i] is None
    }

    /// Slot `i` is the first free slot.
    pub open spec fn first_free(self, i: int) -> bool {
        self.free(i) && forall|j: int| 0 <= j < i ==> !self.free(j)
    }

    /// The invariant of the table: ids below the counter and pairwise distinct, and the
    /// only process that may be Running is the current one.
    pub open spec fn wf(self) -> bool {
        &&& self.slots.len() == MAX_PROCESSES
        &&& self.next_pid >= 1
        &&& forall|i: int| #[trigger] self.live(i) ==> 1 <= self.pid_at(i) < self.next_pid
        &&& forall|i: int, j: int|
            #[trigger] self.live(i) && #[trigger] self.live(j) && i != j ==> self.pid_at(i)
                != self.pid_at(j)
        &&& forall|i: int| #[trigger] self.running(i) ==> self.current == Some(self.pid_at(i))
    }

    /// The slot that holds `pid` (under `wf` there is at most one).
    pub open spec fn slot_holding(self, pid: usize) -> int {
        choose|i: int| self.live(i) && self.pid_at(i) == pid
    }

    /// Where the round-robin scan starts: at the slot after the current process's slot,
    /// circularly, or at slot zero when there is no current process in the table.
    pub open spec fn start_index(self) -> int {
        match self.current {
            Some(c) => if self.has_pid(c) {
                (self.slot_holding(c) + 1) % (MAX_PROCESSES as int)
            } else {
                0
            },
            None => 0,
        }
    }

    /// The slot visited at step `k` of the scan.
    pub open spec fn scan(self, k: int) -> int {
        (self.start_index() + k) % (MAX_PROCESSES as int)
    }

    /// Step `k` of the scan is the first that meets a Ready process.
    pub open spec fn is_pick(self, k: int) -> bool {
        &&& 0 <= k < MAX_PROCESSES
        &&& self.ready(self.scan(k))
        &&& forall|j: int| 0 <= j < k ==> !self.ready(#[trigger] self.scan(j))
    }

    pub open spec fn has_ready(self) -> bool {
        exists|i: int| self.ready(i)
    }

    /// The slots with the current process, if any, put back to Ready.
    pub open spec fn demoted(self) -> Seq<Option<Process>> {
        self.slots.map_values(
            |s: Option<Process>|
                match s {
                    Some(p) => if self.current == Some(p.pid) {
                        Some(Process { state: ProcessState::Ready, ..p })
                    } else {
                        s
                    },
                    None => s,
                },
        )
    }

    /// The scan step at which slot `i` is visited.
    pub open spec fn scan_step_of(self, i: int) -> int {
        (i - self.start_index() + 2 * MAX_PROCESSES) % (MAX_PROCESSES as int)
    }

    /// The scan step that `schedule` stops at, when some process is Ready.
    pub open spec fn pick(self) -> int {
        choose|k: int| self.is_pick(k)
    }

    /// The id that `schedule` returns.
    pub open spec fn picked(self) -> Option<usize> {
        if self.has_ready() {
            Some(self.pid_at(self.scan(self.pick())))
        } else {
            None
        }
    }

    /// The state that `schedule` leaves.
    pub open spec fn scheduled(self) -> SchedulerView {
        if self.has_ready() {
            self.switched_to(self.pick())
        } else {
            self
        }
    }

    /// Whether `create_process` succeeds: a slot is free, ids are left and the arena can
    /// serve the stack.
    pub open spec fn can_create(self, heap: HeapView, stack_size: usize) -> bool {
        &&& exists|i: int| self.free(i)
        &&& self.next_pid < usize::MAX
        &&& heap.fits(stack_size)
    }

    /// The state after a process with the next id and a stack at the arena's first free
    /// byte has been put in slot `i`.
    pub open spec fn created_at(self, i: int, heap: HeapView, stack_size: usize) -> SchedulerView {
        SchedulerView {
            slots: self.slots.update(i, Some(fresh_process(self.next_pid, heap.next, stack_size))),
            current: self.current,
            next_pid: (self.next_pid + 1) as usize,
        }
    }

    /// The state after the process with id `pid` in slot `i` has been terminated.
    pub open spec fn terminated_at(self, i: int, pid: usize) -> SchedulerView {
        SchedulerView {
            slots: self.slots.update(i, None),
            current: if self.current == Some(pid) {
                None
            } else {
                self.current
            },
            next_pid: self.next_pid,
        }
    }

    /// The state after the current process exits: it is terminated when it is in the table;
    /// otherwise nothing changes.
    pub open spec fn exited(self) -> SchedulerView {
        match self.current {
            Some(c) => if self.has_pid(c) {
                self.terminated_at(self.slot_holding(c), c)
            } else {
                self
            },
            None => self,
        }
    }

    /// The state after `schedule` has picked the slot at scan step `k`.
    pub open spec fn switched_to(self, k: int) -> SchedulerView {
        let i = self.scan(k);
        SchedulerView {
            slots: self.demoted().update(
                i,
                Some(Process { state: ProcessState::Running, ..self.process_at(i) }),
            ),
            current: Some(self.pid_at(i)),
            next_pid: self.next_pid,
        }
    }
}

pub struct Scheduler {
    processes: Vec<Option<Process>>,
    current_pid: Option<usize>,
    next_pid: usize,
}

impl View for Scheduler {
    type V = SchedulerView;

    closed spec fn view(&self) -> SchedulerView {
        SchedulerView {
            slots: self.processes@,
            current: self.current_pid,
            next_pid: self.next_pid,
        }
    }
}

impl Scheduler {
    /// An empty table; the first process will get id 1.
    pub fn new() -> (r: Self)
        ensures
            r@.wf(),
            r@.slots == Seq::new(MAX_PROCESSES as nat, |i: int| None::<Process>),
            r@.current is None,
            r@.next_pid == 1,
    {
        let mut processes: Vec<Option<Process>> = Vec::new();
        let mut i: usize = 0;
        while i < MAX_PROCESSES
            invariant
                i <= MAX_PROCESSES,
                processes@ == Seq::new(i as nat, |j: int| None::<Process>),
            decreases MAX_PROCESSES - i,
        {
            processes.push(None);
            i += 1;
        }
        Scheduler { processes, current_pid: None, next_pid: 1 }
    }

    /// Creates a Ready process with a fresh id and a stack of `stack_size` bytes in the first
    /// free slot. `None`, with nothing changed, when the table is full, the ids are used up or
    /// the allocator cannot serve the stack.
    pub fn create_process(&mut self, alloc: &mut Allocator, stack_size: usize) -> (r: Option<
        usize,
    >)
        requires
            old(self)@.wf(),
            old(alloc)@.wf(),
        ensures
            final(self)@.wf(),
            final(alloc)@.wf(),
            r is Some <==> old(self)@.can_create(old(alloc)@, stack_size),
            r matches Some(pid) ==> {
                &&& pid == old(self)@.next_pid
                &&& !old(self)@.has_pid(pid)
                &&& exists|i: int|
                    old(self)@.first_free(i) && final(self)@ == old(self)@.created_at(
                        i,
                        old(alloc)@,
                        stack_size,
                    )
                &&& final(alloc)@ == old(alloc)@.bumped(stack_size)
            },
            r is None ==> final(self)@ == old(self)@ && final(alloc)@ == old(alloc)@,
    {
        let mut i: usize = 0;
        while i < MAX_PROCESSES
            invariant
                i <= MAX_PROCESSES,
                self@ == old(self)@,
                alloc@ == old(alloc)@,
                alloc@.wf(),
                self@.wf(),
                forall|j: int| 0 <= j < i ==> !self@.free(j),
            decreases MAX_PROCESSES - i,
        {
            if self.processes[i].is_none() {
                assert(self@.first_free(i as int));
                if self.next_pid == usize::MAX {
                    return None;
                }
                match Process::new(alloc, self.next_pid, stack_size) {
                    Some(process) => {
                        let pid = self.next_pid;
                        self.processes.set(i, Some(process));
                        self.next_pid = pid + 1;
                        proof {
                            assert(self@ == old(self)@.created_at(i as int, old(alloc)@, stack_size));
                            lemma_create_keeps_ids_unique(old(self)@, i as int, old(alloc)@, stack_size);
                        }
                        return Some(pid);
                    },
                    None => {
                        return None;
                    },
                }
            }
            i += 1;
        }
        None
    }
    /// Terminates the process with id `pid`: its stack goes back to the allocator, its slot
    /// is freed and, if it was the current process, there is no current process any more.
    /// `false`, with nothing changed, when no process has that id.
    pub fn terminate_process(&mut self, alloc: &mut Allocator, pid: usize) -> (r: bool)
        requires
            old(self)@.wf(),
        ensures
            final(self)@.wf(),
            final(alloc)@ == old(alloc)@,
            r == old(self)@.has_pid(pid),
            r ==> exists|i: int|
                old(self)@.first_with(pid, i) && final(self)@ == old(self)@.terminated_at(i, pid),
            !r ==> final(self)@ == old(self)@,
    {
        let mut i: usize = 0;
        while i < MAX_PROCESSES
            invariant
                i <= MAX_PROCESSES,
                self@ == old(self)@,
                alloc@ == old(alloc)@,
                self@.wf(),
                forall|j: int| 0 <= j < i ==> !(self@.live(j) && self@.pid_at(j) == pid),
            decreases MAX_PROCESSES - i,
        {
            if let Some(process) = self.processes[i] {
                if process.pid == pid {
                    let mut dead = process;
                    dead.destroy(alloc);
                    self.processes.set(i, None);
                    if self.current_pid == Some(pid) {
                        self.current_pid = None;
                    }
                    proof {
                        assert(old(self)@.first_with(pid, i as int));
                        assert(self@ == old(self)@.terminated_at(i as int, pid));
                        lemma_terminate_keeps_ids_unique(old(self)@, i as int, pid);
                    }
                    return true;
                }
            }
            i += 1;
        }
        false
    }
    /// The slot after the current process's slot, circularly; zero when there is no current
    /// process in the table.
    fn scan_start(&self) -> (r: usize)
        requires
            self@.wf(),
        ensures
            r == self@.start_index(),
            r < MAX_PROCESSES,
    {
        if let Some(current) = self.current_pid {
            let mut j: usize = 0;
            while j < MAX_PROCESSES
                invariant
                    j <= MAX_PROCESSES,
                    self@.wf(),
                    self@.current == Some(current),
                    forall|a: int| 0 <= a < j ==> !(self@.live(a) && self@.pid_at(a) == current),
                decreases MAX_PROCESSES - j,
            {
                if let Some(p) = &self.processes[j] {
                    if p.pid == current {
                        proof {
                            lemma_slot_holding(self@, j as int);
                        }
                        return (j + 1) % MAX_PROCESSES;
                    }
                }
                j += 1;
            }
            0
        } else {
            0
        }
    }

    /// The id of the current process, if any.
    pub fn current_pid(&self) -> (r: Option<usize>)
        ensures
            r == self@.current,
    {
        self.current_pid
    }

    /// Round-robin choice of the next process: scans the table circularly from
    /// `start_index()` and switches to the first Ready process met. The previous current
    /// process goes back to Ready, the chosen one becomes Running and current, and its id is
    /// returned. `None`, with nothing changed, when no process is Ready.
    pub fn schedule(&mut self) -> (r: Option<usize>)
        requires
            old(self)@.wf(),
        ensures
            final(self)@.wf(),
            r is Some <==> old(self)@.has_ready(),
            r matches Some(pid) ==> exists|k: int|
                old(self)@.is_pick(k) && pid == old(self)@.pid_at(old(self)@.scan(k))
                    && final(self)@ == old(self)@.switched_to(k),
            r is None ==> final(self)@ == old(self)@,
            r == old(self)@.picked(),
            final(self)@ == old(self)@.scheduled(),
            forall|i: int, j: int|
                final(self)@.running(i) && final(self)@.running(j) ==> i == j,
            r matches Some(pid) ==> exists|i: int|
                final(self)@.running(i) && final(self)@.pid_at(i) == pid,
            r matches Some(pid) ==> forall|i: int|
                #[trigger] final(self)@.live(i) ==> (final(self)@.running(i)
                    <==> final(self)@.pid_at(i) == pid),
    {
        let ghost o = self@;
        let start = self.scan_start();
        let mut k: usize = 0;
        while k < MAX_PROCESSES
            invariant
                k <= MAX_PROCESSES,
                self@ == o,
                o == old(self)@,
                o.wf(),
                start == o.start_index(),
                forall|j: int| 0 <= j < k ==> !o.ready(#[trigger] o.scan(j)),
            decreases MAX_PROCESSES - k,
        {
            let index = (start + k) % MAX_PROCESSES;
            assert(index == o.scan(k as int));
            if let Some(chosen) = self.processes[index] {
                if chosen.state == ProcessState::Ready {
                    assert(o.is_pick(k as int));
                    if let Some(current) = self.current_pid {
                        let mut j: usize = 0;
                        while j < MAX_PROCESSES
                            invariant
                                j <= MAX_PROCESSES,
                                o.wf(),
                                o.current == Some(current),
                                self.processes@.len() == MAX_PROCESSES,
                                self.current_pid == o.current,
                                self.next_pid == o.next_pid,
                                forall|a: int| 0 <= a < j ==> self.processes@[a] == o.demoted()[a],
                                forall|a: int|
                                    j <= a < MAX_PROCESSES ==> self.processes@[a] == o.slots[a],
                            decreases MAX_PROCESSES - j,
                        {
                            if let Some(p) = self.processes[j] {
                                if p.pid == current {
                                    self.processes.set(
                                        j,
                                        Some(Process { state: ProcessState::Ready, ..p }),
                                    );
                                }
                            }
                            j += 1;
                        }
                        assert(self.processes@ =~= o.demoted());
                    } else {
                        assert(self.processes@ =~= o.demoted());
                    }
                    self.processes.set(
                        index,
                        Some(Process { state: ProcessState::Running, ..chosen }),
                    );
                    self.current_pid = Some(chosen.pid);
                    proof {
                        assert(self@ == o.switched_to(k as int));
                        lemma_switch_keeps_wf(o, k as int);
                        lemma_pick_unique(o, k as int);
                    }
                    return Some(chosen.pid);
                }
            }
            k += 1;
        }
        proof {
            lemma_scan_covers(o);
            assert forall|i: int| !o.ready(i) by {
                if 0 <= i < MAX_PROCESSES {
                    let k2 = o.scan_step_of(i);
                    assert(!o.ready(o.scan(k2)));
                }
            }
            assert forall|a: int, b: int|
                self@.running(a) && self@.running(b) implies a == b by {
                assert(o.live(a) && o.live(b));
            }
        }
        None
    }
    /// The PCB with id `pid`; `None` when no live process has it.
    pub fn get_process(&self, pid: usize) -> (r: Option<&Process>)
        ensures
            r is None <==> !self@.has_pid(pid),
            r matches Some(p) ==> exists|i: int|
                self@.first_with(pid, i) && *p == self@.process_at(i),
    {
        let n = self.processes.len();
        let mut i: usize = 0;
        while i < n
            invariant
                i <= n,
                n == self@.slots.len(),
                forall|j: int| 0 <= j < i ==> !(self@.live(j) && self@.pid_at(j) == pid),
            decreases n - i,
        {
            if let Some(p) = &self.processes[i] {
                if p.pid == pid {
                    assert(self@.first_with(pid, i as int));
                    return Some(p);
                }
            }
            i += 1;
        }
        None
    }

    /// The PCB with id `pid`, for changing it in place; `None` when no live process has it.
    /// What is written through the reference lands in that PCB's slot and nowhere else.
    pub fn get_process_mut(&mut self, pid: usize) -> (r: Option<&mut Process>)
        ensures
            r is None <==> !old(self)@.has_pid(pid),
            r is None ==> final(self)@ == old(self)@,
            r is Some ==> exists|i: int|
                old(self)@.first_with(pid, i) && *r.unwrap() == old(self)@.process_at(i)
                    && final(self)@ == (SchedulerView {
                    slots: old(self)@.slots.update(i, Some(*final(r.unwrap()))),
                    ..old(self)@
                }),
    {
        let n = self.processes.len();
        let mut i: usize = 0;
        while i < n
            invariant
                i <= n,
                n == self@.slots.len(),
                self@ == old(self)@,
                forall|j: int| 0 <= j < i ==> !(self@.live(j) && self@.pid_at(j) == pid),
            decreases n - i,
        {
            let found = match &self.processes[i] {
                Some(p) => p.pid == pid,
                None => false,
            };
            if found {
                assert(old(self)@.first_with(pid, i as int));
                return self.processes[i].as_mut();
            }
            i += 1;
        }
        None
    }

    /// The live PCBs in slot order.
    pub fn list_processes(&self) -> (r: Vec<Process>)
        ensures
            r@ == live_processes(self@.slots),
    {
        let n = self.processes.len();
        let mut out: Vec<Process> = Vec::new();
        let mut i: usize = 0;
        while i < n
            invariant
                i <= n,
                n == self@.slots.len(),
                out@ == live_processes(self@.slots.take(i as int)),
            decreases n - i,
        {
            assert(self@.slots.take(i + 1).drop_last() == self@.slots.take(i as int));
            if let Some(p) = self.processes[i] {
                out.push(p);
            }
            i += 1;
        }
        assert(self@.slots.take(n as int) == self@.slots);
        out
    }
}

/// Under `wf`, the slot holding the id of a live slot `i` is `i`.
pub proof fn lemma_slot_holding(s: SchedulerView, i: int)
    requires
        s.wf(),
        s.live(i),
    ensures
        s.has_pid(s.pid_at(i)),
        s.slot_holding(s.pid_at(i)) == i,
{
    let x = s.slot_holding(s.pid_at(i));
    assert(s.live(x) && s.pid_at(x) == s.pid_at(i));
}

/// Slot `i` is visited by the scan at step `scan_step_of(i)`.
proof fn lemma_scan_step(s: SchedulerView, i: int)
    requires
        0 <= i < MAX_PROCESSES,
    ensures
        0 <= s.scan_step_of(i) < MAX_PROCESSES,
        s.scan(s.scan_step_of(i)) == i,
{
    let st = s.start_index();
    assert(0 <= st <= MAX_PROCESSES);
    let k = s.scan_step_of(i);
    if i - st + 2 * MAX_PROCESSES < 2 * MAX_PROCESSES {
        assert(k == i - st + MAX_PROCESSES);
        assert(st + k == i + MAX_PROCESSES);
    } else {
        assert(k == i - st);
        assert(st + k == i);
    }
}

/// Each slot is visited by the scan, at step `scan_step_of`.
pub proof fn lemma_scan_covers(s: SchedulerView)
    ensures
        forall|i: int|
            0 <= i < MAX_PROCESSES ==> 0 <= #[trigger] s.scan_step_of(i) < MAX_PROCESSES && s.scan(
                s.scan_step_of(i),
            ) == i,
{
    assert forall|i: int| 0 <= i < MAX_PROCESSES implies 0 <= #[trigger] s.scan_step_of(i)
        < MAX_PROCESSES && s.scan(s.scan_step_of(i)) == i by {
        lemma_scan_step(s, i);
    }
}

/// The scan stops at one step only; when it stops at `k`, `schedule`'s result is determined.
pub proof fn lemma_pick_unique(s: SchedulerView, k: int)
    requires
        s.is_pick(k),
    ensures
        s.pick() == k,
        s.has_ready(),
        s.picked() == Some(s.pid_at(s.scan(k))),
        s.scheduled() == s.switched_to(k),
{
    assert(s.ready(s.scan(k)));
    let k2 = s.pick();
    assert(s.is_pick(k2));
    if k2 < k {
        assert(!s.ready(s.scan(k2)));
    }
    if k < k2 {
        assert(!s.ready(s.scan(k)));
    }
}

/// Switching to the picked slot keeps the table's invariant, keeps every slot's process
/// and id, and leaves that slot's process the only one Running.
pub proof fn lemma_switch_keeps_wf(o: SchedulerView, k: int)
    requires
        o.wf(),
        o.is_pick(k),
    ensures
        ({
            let v = o.switched_to(k);
            &&& v.wf()
            &&& v.running(o.scan(k))
            &&& forall|a: int| #[trigger] v.running(a) ==> a == o.scan(k)
            &&& forall|a: int| #[trigger] v.live(a) <==> o.live(a)
            &&& forall|a: int| v.live(a) ==> #[trigger] v.pid_at(a) == o.pid_at(a)
        }),
{
    let v = o.switched_to(k);
    let i = o.scan(k);
    assert forall|a: int| #[trigger] v.live(a) <==> o.live(a) by {}
    assert forall|a: int| v.live(a) implies #[trigger] v.pid_at(a) == o.pid_at(a) by {}
    assert forall|a: int| #[trigger] v.running(a) implies a == i by {
        if a != i {
            assert(o.live(a));
            if o.current == Some(o.pid_at(a)) {
            } else {
                assert(o.running(a));
            }
        }
    }
    assert(v.running(i));
    assert forall|a: int| #[trigger] v.live(a) implies 1 <= v.pid_at(a) < v.next_pid by {
        assert(o.live(a));
    }
    assert forall|a: int, b: int|
        #[trigger] v.live(a) && #[trigger] v.live(b) && a != b implies v.pid_at(a) != v.pid_at(
            b,
        ) by {
        assert(o.live(a));
        assert(o.live(b));
    }
}

/// After any `schedule` call at most one process is Running, and when the call returned an
/// id, the process with that id is the one Running.
pub proof fn lemma_single_running(s: SchedulerView)
    requires
        s.wf(),
    ensures
        s.scheduled().wf(),
        forall|i: int, j: int|
            s.scheduled().running(i) && s.scheduled().running(j) ==> i == j,
        s.picked() matches Some(pid) ==> forall|i: int|
            #[trigger] s.scheduled().live(i) ==> (s.scheduled().running(i)
                <==> s.scheduled().pid_at(i) == pid),
        s.picked() matches Some(pid) ==> exists|i: int|
            s.scheduled().running(i) && s.scheduled().pid_at(i) == pid,
{
    if s.has_ready() {
        let i = choose|i: int| s.ready(i);
        lemma_scan_covers(s);
        let k0 = s.scan_step_of(i);
        assert(s.ready(s.scan(k0)));
        let k = lemma_least_pick(s, k0);
        lemma_pick_unique(s, k);
        lemma_switch_keeps_wf(s, k);
        let v = s.scheduled();
        let pid = s.pid_at(s.scan(k));
        assert forall|a: int| #[trigger] v.live(a) implies (v.running(a) <==> v.pid_at(a) == pid) by {
            if v.pid_at(a) == pid {
                assert(s.live(a) && s.live(s.scan(k)));
            }
        }
    } else {
        assert forall|a: int, b: int| s.running(a) && s.running(b) implies a == b by {
            assert(s.live(a) && s.live(b));
        }
    }
}

/// Some scan step at or before `k` is a pick, when step `k` meets a Ready process.
proof fn lemma_least_pick(s: SchedulerView, k: int) -> (p: int)
    requires
        0 <= k < MAX_PROCESSES,
        s.ready(s.scan(k)),
    ensures
        0 <= p <= k,
        s.is_pick(p),
    decreases k,
{
    if forall|j: int| 0 <= j < k ==> !s.ready(#[trigger] s.scan(j)) {
        k
    } else {
        let j = choose|j: int| 0 <= j < k && s.ready(#[trigger] s.scan(j));
        lemma_least_pick(s, j)
    }
}

/// The processes held by `slots`, in order.
pub open spec fn live_processes(slots: Seq<Option<Process>>) -> Seq<Process>
    decreases slots.len(),
{
    if slots.len() == 0 {
        Seq::empty()
    } else {
        let rest = live_processes(slots.drop_last());
        match slots.last() {
            Some(p) => rest.push(p),
            None => rest,
        }
    }
}

/// Creating a process keeps the invariant, and the new id is held by no other process.
pub proof fn lemma_create_keeps_ids_unique(s: SchedulerView, i: int, heap: HeapView, stack_size: usize)
    requires
        s.wf(),
        s.first_free(i),
        s.next_pid < usize::MAX,
    ensures
        s.created_at(i, heap, stack_size).wf(),
        !s.has_pid(s.next_pid),
        forall|j: int|
            #[trigger] s.created_at(i, heap, stack_size).live(j) && j != i ==> s.created_at(
                i,
                heap,
                stack_size,
            ).pid_at(j) != s.next_pid,
{
    let v = s.created_at(i, heap, stack_size);
    assert forall|a: int| #[trigger] v.live(a) implies 1 <= v.pid_at(a) < v.next_pid by {
        if a != i {
            assert(s.live(a));
        }
    }
    assert forall|a: int, b: int|
        #[trigger] v.live(a) && #[trigger] v.live(b) && a != b implies v.pid_at(a) != v.pid_at(
            b,
        ) by {
        if a != i {
            assert(s.live(a));
        }
        if b != i {
            assert(s.live(b));
        }
    }
    assert forall|a: int| #[trigger] v.running(a) implies v.current == Some(v.pid_at(a)) by {
        assert(a != i);
        assert(s.running(a));
    }
    assert forall|j: int| #[trigger] v.live(j) && j != i implies v.pid_at(j) != s.next_pid by {
        assert(s.live(j));
    }
}

/// Terminating a process keeps the invariant.
pub proof fn lemma_terminate_keeps_ids_unique(s: SchedulerView, i: int, pid: usize)
    requires
        s.wf(),
        s.first_with(pid, i),
    ensures
        s.terminated_at(i, pid).wf(),
{
    let v = s.terminated_at(i, pid);
    assert forall|a: int| #[trigger] v.live(a) implies 1 <= v.pid_at(a) < v.next_pid by {
        assert(s.live(a));
    }
    assert forall|a: int, b: int|
        #[trigger] v.live(a) && #[trigger] v.live(b) && a != b implies v.pid_at(a) != v.pid_at(
            b,
        ) by {
        assert(s.live(a));
        assert(s.live(b));
    }
    assert forall|a: int| #[trigger] v.running(a) implies v.current == Some(v.pid_at(a)) by {
        assert(s.running(a));
        assert(s.live(i));
    }
}

/// No two live processes share an id. `Scheduler::new` gives a state with `wf`, and
/// creating and terminating processes keep it (`lemma_create_keeps_ids_unique`,
/// `lemma_terminate_keeps_ids_unique`), as `schedule` does (`lemma_single_running`); so this
/// holds after any sequence of those calls.
pub proof fn lemma_ids_unique(s: SchedulerView, i: int, j: int)
    requires
        s.wf(),
        s.live(i),
        s.live(j),
        i != j,
    ensures
        s.pid_at(i) != s.pid_at(j),
{
}

/// A fresh scheduler for the kernel: an empty table.
pub fn init_scheduler() -> (r: Scheduler)
    ensures
        r@.wf(),
        r@.slots == Seq::new(MAX_PROCESSES as nat, |i: int| None::<Process>),
        r@.current is None,
        r@.next_pid == 1,
{
    Scheduler::new()
}

} // verus!
