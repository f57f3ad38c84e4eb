//! Round-robin fairness of the scheduler, proved over `SchedulerView`.
use vstd::prelude::*;
use crate::process::{
    MAX_PROCESSES, SchedulerView, lemma_pick_unique, lemma_slot_holding, lemma_switch_keeps_wf,
};

verus! {

impl SchedulerView {
    /// The ids returned by `n` consecutive `schedule` calls.
    pub open spec fn schedule_run(self, n: nat) -> Seq<Option<usize>>
        decreases n,
    {
        if n == 0 {
            Seq::empty()
        } else {
            seq![self.picked()] + self.scheduled().schedule_run((n - 1) as nat)
        }
    }

    /// The slot where the next scan starts.
    pub open spec fn scan_origin(self) -> int {
        self.start_index() % (MAX_PROCESSES as int)
    }

    /// The number of Ready processes, counted in scan order.
    pub open spec fn ready_count(self) -> nat {
        ready_from(self, self.scan_origin(), MAX_PROCESSES as int)
    }
}

/// The slot `d` steps after slot `o`, circularly.
pub open spec fn slot_at(o: int, d: int) -> int {
    (o + d) % (MAX_PROCESSES as int)
}

/// How many steps after slot `o` slot `i` comes, circularly.
pub open spec fn position(o: int, i: int) -> int {
    (i - o + MAX_PROCESSES) % (MAX_PROCESSES as int)
}

/// Number of Ready processes among the first `m` slots visited from slot `o`.
pub open spec fn ready_from(s: SchedulerView, o: int, m: int) -> nat
    decreases m,
{
    if m <= 0 {
        0
    } else {
        ready_from(s, o, m - 1) + if s.ready(slot_at(o, m - 1)) {
            1nat
        } else {
            0nat
        }
    }
}

proof fn lemma_position_slot(o: int, i: int)
    requires
        0 <= o < MAX_PROCESSES,
        0 <= i < MAX_PROCESSES,
    ensures
        0 <= position(o, i) < MAX_PROCESSES,
        slot_at(o, position(o, i)) == i,
{
    let d = position(o, i);
    if i - o + MAX_PROCESSES < MAX_PROCESSES {
        assert(d == i - o + MAX_PROCESSES);
        assert(o + d == i + MAX_PROCESSES);
    } else {
        assert(d == i - o);
        assert(o + d == i);
    }
}

proof fn lemma_ready_from_mono(s: SchedulerView, o: int, a: int, b: int)
    requires
        0 <= a <= b,
    ensures
        ready_from(s, o, a) <= ready_from(s, o, b),
    decreases b - a,
{
    if a < b {
        lemma_ready_from_mono(s, o, a, b - 1);
    }
}

proof fn lemma_ready_from_gap(s: SchedulerView, o: int, a: int, b: int)
    requires
        0 <= a <= b,
        forall|d: int| a <= d < b ==> !s.ready(#[trigger] slot_at(o, d)),
    ensures
        ready_from(s, o, a) == ready_from(s, o, b),
    decreases b - a,
{
    if a < b {
        lemma_ready_from_gap(s, o, a, b - 1);
    }
}

/// The first position in `[a, b)` after slot `o` that holds a Ready process, given that one
/// does.
proof fn lemma_first_ready(s: SchedulerView, o: int, a: int, b: int) -> (q: int)
    requires
        0 <= a <= b,
        ready_from(s, o, a) < ready_from(s, o, b),
    ensures
        a <= q < b,
        s.ready(slot_at(o, q)),
        forall|d: int| a <= d < q ==> !s.ready(#[trigger] slot_at(o, d)),
    decreases b - a,
{
    if s.ready(slot_at(o, a)) {
        a
    } else {
        if a < b {
            assert(ready_from(s, o, a + 1) == ready_from(s, o, a));
        }
        lemma_first_ready(s, o, a + 1, b)
    }
}

/// Past position `p` of the scan from slot `o`, `t` has the same Ready slots as `s`, except
/// that the last position may be Ready in `t` and not in `s` (a current process put back to
/// Ready).
pub open spec fn ready_agrees_above(s: SchedulerView, t: SchedulerView, o: int, p: int) -> bool {
    forall|d: int|
        p < d < MAX_PROCESSES ==> (t.ready(#[trigger] slot_at(o, d)) == s.ready(slot_at(o, d)) || (
        d == MAX_PROCESSES - 1 && !s.ready(slot_at(o, d))))
}

/// The two tables hold the same processes, by id, in the same slots.
pub open spec fn same_ids(s: SchedulerView, t: SchedulerView) -> bool {
    &&& forall|i: int| #[trigger] t.live(i) <==> s.live(i)
    &&& forall|i: int| t.live(i) ==> #[trigger] t.pid_at(i) == s.pid_at(i)
}

proof fn lemma_slot_position(o: int, d: int)
    requires
        0 <= o < MAX_PROCESSES,
        0 <= d < MAX_PROCESSES,
    ensures
        0 <= slot_at(o, d) < MAX_PROCESSES,
        position(o, slot_at(o, d)) == d,
{
    let i = slot_at(o, d);
    if o + d < MAX_PROCESSES {
        assert(i == o + d);
        assert(i - o + MAX_PROCESSES == d + MAX_PROCESSES);
    } else {
        assert(i == o + d - MAX_PROCESSES);
        assert(i - o + MAX_PROCESSES == d);
    }
}

/// A scan whose origin is position `a` from slot `o` visits position `a + j` at step `j`.
proof fn lemma_scan_at(t: SchedulerView, o: int, a: int, j: int)
    requires
        0 <= o < MAX_PROCESSES,
        0 <= a,
        0 <= j,
        a + j < MAX_PROCESSES,
        t.scan_origin() == slot_at(o, a),
    ensures
        t.scan(j) == slot_at(o, a + j),
{
    let x = t.start_index();
    let y = o + a;
    let m = MAX_PROCESSES as int;
    vstd::arithmetic::div_mod::lemma_add_mod_noop(x, j, m);
    vstd::arithmetic::div_mod::lemma_add_mod_noop(y, j, m);
    assert(x % m == y % m);
    assert((x + j) % m == ((x % m) + (j % m)) % m);
    assert((y + j) % m == ((y % m) + (j % m)) % m);
}

/// The preconditions that the round-robin induction carries from one pick to the next.
pub open spec fn run_state(s: SchedulerView, o: int, t: SchedulerView, p: int) -> bool {
    &&& s.wf()
    &&& t.wf()
    &&& same_ids(s, t)
    &&& 0 <= o < MAX_PROCESSES
    &&& -1 <= p < MAX_PROCESSES
    &&& t.scan_origin() == slot_at(o, p + 1)
    &&& p >= 0 ==> t.live(slot_at(o, p)) && t.current == Some(t.pid_at(slot_at(o, p)))
    &&& p == -1 ==> t.current is None || (forall|i: int|
        #[trigger] t.live(i) && t.current == Some(t.pid_at(i)) ==> i == slot_at(
            o,
            MAX_PROCESSES - 1,
        ))
    &&& ready_agrees_above(s, t, o, p)
}

/// The next pick from `t` is the first Ready process of `s` past position `p`.
proof fn lemma_next_pick(s: SchedulerView, o: int, t: SchedulerView, p: int) -> (q: int)
    requires
        run_state(s, o, t, p),
        ready_from(s, o, p + 1) < ready_from(s, o, MAX_PROCESSES as int),
    ensures
        p < q < MAX_PROCESSES,
        s.ready(slot_at(o, q)),
        forall|d: int| p + 1 <= d < q ==> !s.ready(#[trigger] slot_at(o, d)),
        t.is_pick(q - p - 1),
        t.picked() == Some(s.pid_at(slot_at(o, q))),
        t.scheduled() == t.switched_to(q - p - 1),
{
    lemma_ready_from_mono(s, o, 0, p + 1);
    let q = lemma_first_ready(s, o, p + 1, MAX_PROCESSES as int);
    let qs = slot_at(o, q);
    assert(t.ready(qs));
    let k = q - p - 1;
    lemma_scan_at(t, o, p + 1, k);
    assert forall|j: int| 0 <= j < k implies !t.ready(#[trigger] t.scan(j)) by {
        lemma_scan_at(t, o, p + 1, j);
        assert(!s.ready(slot_at(o, p + 1 + j)));
    }
    assert(t.is_pick(k));
    lemma_pick_unique(t, k);
    q
}

proof fn lemma_next_origin(o: int, q: int)
    requires
        0 <= o < MAX_PROCESSES,
        0 <= q < MAX_PROCESSES,
    ensures
        (slot_at(o, q) + 1) % (MAX_PROCESSES as int) == slot_at(o, q + 1),
{
    let m = MAX_PROCESSES as int;
    if o + q + 1 < m {
        assert(slot_at(o, q) == o + q);
        assert(slot_at(o, q + 1) == o + q + 1);
    } else if o + q + 1 == m {
        assert(slot_at(o, q) == m - 1);
        assert(slot_at(o, q + 1) == 0);
    } else {
        assert(slot_at(o, q) == o + q - m);
        assert(slot_at(o, q + 1) == o + q + 1 - m);
    }
}

/// Past the picked position, the table after the pick agrees with `s` as `t` did.
proof fn lemma_next_agrees(s: SchedulerView, o: int, t: SchedulerView, p: int, q: int)
    requires
        t.wf(),
        0 <= o < MAX_PROCESSES,
        -1 <= p < q < MAX_PROCESSES,
        p >= 0 ==> t.live(slot_at(o, p)) && t.current == Some(t.pid_at(slot_at(o, p))),
        p == -1 ==> t.current is None || (forall|i: int|
            #[trigger] t.live(i) && t.current == Some(t.pid_at(i)) ==> i == slot_at(
                o,
                MAX_PROCESSES - 1,
            )),
        ready_agrees_above(s, t, o, p),
        t.is_pick(q - p - 1),
        t.scan(q - p - 1) == slot_at(o, q),
    ensures
        ready_agrees_above(s, t.switched_to(q - p - 1), o, q),
{
    let k = q - p - 1;
    let t2 = t.switched_to(k);
    let qs = slot_at(o, q);
    assert forall|d: int| q < d < MAX_PROCESSES implies (t2.ready(#[trigger] slot_at(o, d))
        == s.ready(slot_at(o, d)) || (d == MAX_PROCESSES - 1 && !s.ready(slot_at(o, d)))) by {
        let i = slot_at(o, d);
        lemma_slot_position(o, d);
        lemma_slot_position(o, q);
        if p >= 0 {
            lemma_slot_position(o, p);
        }
        assert(i != qs);
        assert(t2.slots[i] == t.demoted()[i]);
        if t.live(i) && t.current == Some(t.pid_at(i)) {
            if p >= 0 {
                assert(i == slot_at(o, p));
            } else {
                assert(i == slot_at(o, MAX_PROCESSES - 1));
            }
        } else {
            assert(t2.slots[i] == t.slots[i]);
        }
    }
}

/// After the pick at position `q`, the induction's preconditions hold again with `q` in
/// place of `p`.
proof fn lemma_next_state(s: SchedulerView, o: int, t: SchedulerView, p: int, q: int)
    requires
        run_state(s, o, t, p),
        p < q < MAX_PROCESSES,
        s.ready(slot_at(o, q)),
        t.is_pick(q - p - 1),
        t.scheduled() == t.switched_to(q - p - 1),
    ensures
        run_state(s, o, t.scheduled(), q),
{
    let k = q - p - 1;
    lemma_scan_at(t, o, p + 1, k);
    lemma_switch_keeps_wf(t, k);
    let t2 = t.scheduled();
    let qs = slot_at(o, q);
    lemma_slot_position(o, q);
    assert(s.live(qs));
    assert(t2.live(qs));
    lemma_slot_holding(t2, qs);
    lemma_next_origin(o, q);
    assert(t2.scan_origin() == slot_at(o, q + 1));
    lemma_next_agrees(s, o, t, p, q);
}

/// From a state `t` that agrees with `s` on the Ready processes past position `p` of the scan
/// from slot `o`, and whose next scan starts at position `p + 1`, the next `m` picks are the
/// next `m` Ready processes of `s` in that scan order.
proof fn lemma_round_robin_from(s: SchedulerView, o: int, t: SchedulerView, p: int, m: nat)
    requires
        run_state(s, o, t, p),
        ready_from(s, o, p + 1) + m == ready_from(s, o, MAX_PROCESSES as int),
    ensures
        t.schedule_run(m).len() == m,
        forall|j: int|
            0 <= j < m ==> {
                let r = #[trigger] t.schedule_run(m)[j];
                &&& r is Some
                &&& s.ready(s.slot_holding(r->Some_0))
                &&& s.pid_at(s.slot_holding(r->Some_0)) == r->Some_0
                &&& ready_from(s, o, position(o, s.slot_holding(r->Some_0)) + 1) == ready_from(s, o, p + 1)
                    + j + 1
            },
    decreases m,
{
    if m > 0 {
        let q = lemma_next_pick(s, o, t, p);
        let qs = slot_at(o, q);
        lemma_slot_position(o, q);
        lemma_next_state(s, o, t, p, q);
        let t2 = t.scheduled();
        lemma_ready_from_gap(s, o, p + 1, q);
        assert(ready_from(s, o, q + 1) == ready_from(s, o, p + 1) + 1);
        lemma_round_robin_from(s, o, t2, q, (m - 1) as nat);
        let rest = t2.schedule_run((m - 1) as nat);
        assert(t.schedule_run(m) == seq![t.picked()] + rest);
        assert(s.live(qs));
        lemma_slot_holding(s, qs);
        assert forall|j: int| 0 <= j < m implies {
            let r = #[trigger] t.schedule_run(m)[j];
            &&& r is Some
            &&& s.ready(s.slot_holding(r->Some_0))
            &&& s.pid_at(s.slot_holding(r->Some_0)) == r->Some_0
            &&& ready_from(s, o, position(o, s.slot_holding(r->Some_0)) + 1) == ready_from(s, o, p + 1) + j
                + 1
        } by {
            if j > 0 {
                assert(t.schedule_run(m)[j] == rest[j - 1]);
            }
        }
    }
}

/// Round-robin fairness: as many consecutive `schedule` calls as there are Ready
/// processes, with nothing else changing the table, return the id of every Ready process
/// exactly once.
pub proof fn lemma_round_robin(s: SchedulerView)
    requires
        s.wf(),
    ensures
        ({
            let n = s.ready_count();
            let run = s.schedule_run(n);
            &&& run.len() == n
            &&& forall|j: int|
                0 <= j < n ==> (#[trigger] run[j] matches Some(pid) && exists|i: int|
                    s.ready(i) && s.pid_at(i) == pid)
            &&& forall|j1: int, j2: int|
                0 <= j1 < j2 < n ==> #[trigger] run[j1] != #[trigger] run[j2]
            &&& forall|i: int|
                #[trigger] s.ready(i) ==> exists|j: int| 0 <= j < n && run[j] == Some(s.pid_at(i))
        }),
{
    let o = s.scan_origin();
    let n = s.ready_count();
    assert(0 <= s.start_index() < MAX_PROCESSES);
    assert forall|i: int|
        #[trigger] s.live(i) && s.current == Some(s.pid_at(i)) implies i == slot_at(
        o,
        MAX_PROCESSES - 1,
    ) by {
        lemma_slot_holding(s, i);
        if i + 1 < MAX_PROCESSES {
            assert(o == i + 1);
        } else {
            assert(o == 0);
        }
    }
    assert(run_state(s, o, s, -1));
    lemma_round_robin_from(s, o, s, -1, n);
    let run = s.schedule_run(n);
    assert forall|j: int| 0 <= j < n implies (#[trigger] run[j] matches Some(pid) && exists|i: int|
        s.ready(i) && s.pid_at(i) == pid) by {
        let pid = run[j]->Some_0;
        assert(s.ready(s.slot_holding(pid)) && s.pid_at(s.slot_holding(pid)) == pid);
    }
    assert forall|j1: int, j2: int| 0 <= j1 < j2 < n implies #[trigger] run[j1]
        != #[trigger] run[j2] by {
        let a = run[j1];
        let b = run[j2];
        assert(ready_from(s, o, position(o, s.slot_holding(a->Some_0)) + 1) == j1 + 1);
        assert(ready_from(s, o, position(o, s.slot_holding(b->Some_0)) + 1) == j2 + 1);
    }
    assert forall|i: int| #[trigger] s.ready(i) implies exists|j: int|
        0 <= j < n && run[j] == Some(s.pid_at(i)) by {
        let d = position(o, i);
        lemma_position_slot(o, i);
        let c = ready_from(s, o, d + 1);
        assert(c == ready_from(s, o, d) + 1);
        lemma_ready_from_mono(s, o, d + 1, MAX_PROCESSES as int);
        let j = c - 1;
        let x = s.slot_holding(run[j]->Some_0);
        let q = position(o, x);
        lemma_position_slot(o, x);
        assert(ready_from(s, o, q + 1) == c);
        assert(s.ready(slot_at(o, q)));
        if q < d {
            lemma_ready_from_mono(s, o, q + 1, d);
        }
        if d < q {
            lemma_ready_from_mono(s, o, d + 1, q);
            assert(ready_from(s, o, q + 1) == ready_from(s, o, q) + 1);
        }
        assert(q == d);
        assert(x == i);
    }
}

} // verus!
