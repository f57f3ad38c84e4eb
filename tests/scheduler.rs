use rust_os::memory::Allocator;
use rust_os::process::{init_scheduler, Process, ProcessState, Scheduler};

fn heap() -> Allocator {
    let mut alloc = Allocator::new();
    alloc.init(0x20000000, 1024 * 1024);
    alloc
}

fn states(s: &Scheduler) -> Vec<(usize, ProcessState)> {
    s.list_processes().iter().map(|p| (p.pid, p.state)).collect()
}

#[test]
fn two_processes_get_increasing_ids_and_take_turns() {
    let mut alloc = heap();
    let mut s = Scheduler::new();
    assert_eq!(s.create_process(&mut alloc, 4096), Some(1));
    assert_eq!(s.create_process(&mut alloc, 4096), Some(2));
    assert_eq!(s.schedule(), Some(1));
    assert_eq!(s.schedule(), Some(2));
    assert_eq!(
        states(&s),
        vec![(1, ProcessState::Ready), (2, ProcessState::Running)]
    );
}

#[test]
fn create_sets_up_stack_and_state() {
    let mut alloc = heap();
    let mut s = init_scheduler();
    assert_eq!(s.create_process(&mut alloc, 4096), Some(1));
    assert_eq!(s.create_process(&mut alloc, 100), Some(2));
    let p1 = *s.get_process(1).unwrap();
    assert_eq!(p1.state, ProcessState::Ready);
    assert_eq!(p1.stack, 0x20000000);
    assert_eq!(p1.stack_pointer, 0x20000000 + 4096);
    assert_eq!(p1.program_counter, 0);
    assert_eq!(p1.stack_size, 4096);
    let p2 = *s.get_process(2).unwrap();
    assert_eq!(p2.stack, 0x20001000);
    assert_eq!(p2.stack_pointer, 0x20001000 + 100);
    // 100 bytes are rounded up to 104 in the arena.
    assert_eq!(alloc.available(), 1024 * 1024 - 4096 - 104);
}

#[test]
fn terminate_running_process_frees_slot_and_current() {
    let mut alloc = heap();
    let mut s = Scheduler::new();
    assert_eq!(s.create_process(&mut alloc, 4096), Some(1));
    assert_eq!(s.create_process(&mut alloc, 4096), Some(2));
    assert!(s.terminate_process(&mut alloc, 2));
    assert_eq!(s.schedule(), Some(1));
    assert!(s.terminate_process(&mut alloc, 1));
    assert!(s.list_processes().is_empty());
    // no current process any more: the next scan starts at slot zero
    assert_eq!(s.create_process(&mut alloc, 4096), Some(3));
    assert_eq!(s.schedule(), Some(3));
    assert_eq!(states(&s), vec![(3, ProcessState::Running)]);
}

#[test]
fn terminate_unknown_pid_is_reported() {
    let mut alloc = heap();
    let mut s = Scheduler::new();
    assert!(!s.terminate_process(&mut alloc, 1));
    assert_eq!(s.create_process(&mut alloc, 4096), Some(1));
    assert!(!s.terminate_process(&mut alloc, 7));
    assert!(!s.terminate_process(&mut alloc, 0));
    assert_eq!(states(&s), vec![(1, ProcessState::Ready)]);
}

#[test]
fn ids_stay_unique_across_create_and_terminate() {
    let mut alloc = heap();
    let mut s = Scheduler::new();
    for _ in 0..16 {
        assert!(s.create_process(&mut alloc, 64).is_some());
    }
    assert_eq!(s.create_process(&mut alloc, 64), None);
    assert!(s.terminate_process(&mut alloc, 5));
    assert!(s.terminate_process(&mut alloc, 9));
    assert_eq!(s.create_process(&mut alloc, 64), Some(17));
    assert_eq!(s.create_process(&mut alloc, 64), Some(18));
    let mut pids: Vec<usize> = s.list_processes().iter().map(|p| p.pid).collect();
    // slot 4 and slot 8 were reused
    assert_eq!(pids[4], 17);
    assert_eq!(pids[8], 18);
    pids.sort();
    pids.dedup();
    assert_eq!(pids.len(), 16);
}

#[test]
fn create_fails_when_arena_is_exhausted() {
    let mut alloc = Allocator::new();
    alloc.init(0x1000, 8192);
    let mut s = Scheduler::new();
    assert_eq!(s.create_process(&mut alloc, 4096), Some(1));
    assert_eq!(s.create_process(&mut alloc, 4096), Some(2));
    assert_eq!(s.create_process(&mut alloc, 1), None);
    assert_eq!(s.list_processes().len(), 2);
    assert_eq!(alloc.available(), 0);
    // a failed creation does not use up an id
    assert!(s.terminate_process(&mut alloc, 2));
    assert_eq!(s.create_process(&mut alloc, 0), Some(3));
}

#[test]
fn schedule_on_empty_or_blocked_table_is_idle() {
    let mut alloc = heap();
    let mut s = Scheduler::new();
    assert_eq!(s.schedule(), None);
    assert_eq!(s.create_process(&mut alloc, 4096), Some(1));
    s.get_process_mut(1).unwrap().state = ProcessState::Blocked;
    assert_eq!(s.schedule(), None);
    assert_eq!(states(&s), vec![(1, ProcessState::Blocked)]);
}

#[test]
fn at_most_one_process_running_after_schedule() {
    let mut alloc = heap();
    let mut s = Scheduler::new();
    for _ in 0..5 {
        s.create_process(&mut alloc, 256);
    }
    for _ in 0..12 {
        let pid = s.schedule().unwrap();
        let running: Vec<usize> = s
            .list_processes()
            .iter()
            .filter(|p| p.state == ProcessState::Running)
            .map(|p| p.pid)
            .collect();
        assert_eq!(running, vec![pid]);
    }
}

#[test]
fn running_process_alone_keeps_running() {
    let mut alloc = heap();
    let mut s = Scheduler::new();
    s.create_process(&mut alloc, 4096);
    assert_eq!(s.schedule(), Some(1));
    // only Ready processes are candidates: nothing else is Ready, so the scheduler is idle
    assert_eq!(s.schedule(), None);
    assert_eq!(states(&s), vec![(1, ProcessState::Running)]);
}

#[test]
fn round_robin_over_reused_slots() {
    let mut alloc = heap();
    let mut s = Scheduler::new();
    for _ in 0..15 {
        s.create_process(&mut alloc, 64);
    }
    for pid in 1..16 {
        assert!(s.terminate_process(&mut alloc, pid));
    }
    // ids 16, 17 and 18 land in slots 0, 1 and 2
    assert_eq!(s.create_process(&mut alloc, 64), Some(16));
    assert_eq!(s.create_process(&mut alloc, 64), Some(17));
    assert_eq!(s.create_process(&mut alloc, 64), Some(18));
    let picks: Vec<usize> = (0..3).map(|_| s.schedule().unwrap()).collect();
    assert_eq!(picks, vec![16, 17, 18]);
    assert_eq!(s.schedule(), Some(16));
}

#[test]
fn scan_starts_after_current_slot() {
    let mut alloc = heap();
    let mut s = Scheduler::new();
    for _ in 0..3 {
        s.create_process(&mut alloc, 64);
    }
    let picks: Vec<usize> = (0..4).map(|_| s.schedule().unwrap()).collect();
    assert_eq!(picks, vec![1, 2, 3, 1]);
}

#[test]
fn every_ready_process_gets_a_turn_after_slot_reuse() {
    let mut alloc = heap();
    let mut s = Scheduler::new();
    for _ in 0..6 {
        s.create_process(&mut alloc, 64);
    }
    assert_eq!(s.schedule(), Some(1));
    assert!(s.terminate_process(&mut alloc, 3));
    assert!(s.terminate_process(&mut alloc, 5));
    // ids 7 and 8 reuse slots 2 and 4
    assert_eq!(s.create_process(&mut alloc, 64), Some(7));
    assert_eq!(s.create_process(&mut alloc, 64), Some(8));
    s.get_process_mut(4).unwrap().state = ProcessState::Blocked;
    let picks: Vec<usize> = (0..5).map(|_| s.schedule().unwrap()).collect();
    assert_eq!(picks, vec![2, 7, 8, 6, 1]);
}

#[test]
fn get_process_mut_writes_through() {
    let mut alloc = heap();
    let mut s = Scheduler::new();
    s.create_process(&mut alloc, 4096);
    assert!(s.get_process_mut(2).is_none());
    s.get_process_mut(1).unwrap().program_counter = 0x1000000;
    let p: Process = *s.get_process(1).unwrap();
    assert_eq!(p.program_counter, 0x1000000);
    assert!(s.get_process(2).is_none());
}

#[test]
fn destroy_releases_stack() {
    let mut alloc = heap();
    let mut p = Process::new(&mut alloc, 7, 4096).unwrap();
    assert_eq!(p.pid, 7);
    assert_eq!(p.state, ProcessState::Ready);
    let before = alloc.available();
    p.destroy(&mut alloc);
    assert_eq!(p.stack, 0);
    assert_eq!(p.state, ProcessState::Terminated);
    assert_eq!(alloc.available(), before);
}

#[test]
fn process_new_fails_without_memory() {
    let mut alloc = Allocator::new();
    assert!(Process::new(&mut alloc, 1, 8).is_none());
    assert!(Process::new(&mut alloc, 1, 0).is_some());
}
