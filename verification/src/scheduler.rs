//! The round-robin process scheduler: a FIFO run queue with admission,
//! context save/restore, next-process selection, and process removal.
//!
//! Each operation's effect on the queue is stated by a specification-level
//! transition function (`spec_schedule_out`, `spec_switch_to_queue`,
//! `spec_kill_queue`, …), and the executable methods are proved to match
//! them exactly; the scheduling laws are proved once about the transition
//! functions.

use vstd::prelude::*;

use std::collections::VecDeque;

use crate::frame::TrapFrame;
use crate::pmem::PageAllocator;
use crate::process::{Id, Process, State};

verus! {

/// True when the queue's head exists and is the currently running
/// process.
pub open spec fn head_running(q: Seq<Process>) -> bool {
    q.len() > 0 && q[0].state is Running
}

/// The process `p` with its state replaced by `st` and its saved context
/// replaced by `tf`.
pub open spec fn saved(p: Process, st: State, tf: TrapFrame) -> Process {
    Process { context: tf, state: st, ..p }
}

/// The process `p` with its state set to `Running`.
pub open spec fn make_running(p: Process) -> Process {
    Process { state: State::Running, ..p }
}

/// The queue after scheduling out: a `Running` head has its state and
/// saved context replaced and moves to the tail; otherwise the queue is
/// untouched.
pub open spec fn spec_schedule_out(q: Seq<Process>, st: State, tf: TrapFrame) -> Seq<Process> {
    if head_running(q) {
        q.subrange(1, q.len() as int).push(saved(q[0], st, tf))
    } else {
        q
    }
}

/// The index of the first entry at or after `i` that is ready at
/// `now_ns`, or `q.len()` if there is none.
pub open spec fn first_ready_from(q: Seq<Process>, now_ns: u64, i: int) -> int
    decreases q.len() - i,
{
    if i < 0 || i >= q.len() {
        q.len() as int
    } else if q[i].ready_spec(now_ns) {
        i
    } else {
        first_ready_from(q, now_ns, i + 1)
    }
}

/// The index of the first ready entry of the queue, or `q.len()` if no
/// entry is ready.
pub open spec fn first_ready(q: Seq<Process>, now_ns: u64) -> int {
    first_ready_from(q, now_ns, 0)
}

/// True when some entry of the queue is ready at `now_ns`.
pub open spec fn has_ready(q: Seq<Process>, now_ns: u64) -> bool {
    exists|i: int| 0 <= i < q.len() && (#[trigger] q[i]).ready_spec(now_ns)
}

/// The process a successful switch installs: the first ready entry,
/// woken, with state `Running`.
pub open spec fn chosen(q: Seq<Process>, now_ns: u64) -> Process {
    make_running(q[first_ready(q, now_ns)].woken(now_ns))
}

/// The queue rotated by one step: the head moves to the tail.
pub open spec fn rotate1(q: Seq<Process>) -> Seq<Process> {
    if q.len() == 0 {
        q
    } else {
        q.subrange(1, q.len() as int).push(q[0])
    }
}

/// The queue after a switch attempt at `now_ns`.
///
/// If some entry is ready, the first ready entry — skipped entries keep
/// their scan order at the tail, so relative order among still-pending
/// entries is preserved — is woken, set `Running`, and rotated to the
/// head. If no entry is ready, exactly one rotation step occurs.
pub open spec fn spec_switch_to_queue(q: Seq<Process>, now_ns: u64) -> Seq<Process> {
    let k = first_ready(q, now_ns);
    if k < q.len() {
        seq![chosen(q, now_ns)] + q.subrange(k + 1, q.len() as int) + q.subrange(0, k)
    } else {
        rotate1(q)
    }
}

/// The id a switch attempt returns: the first ready entry's id, or
/// `None`.
pub open spec fn spec_switch_to_ret(q: Seq<Process>, now_ns: u64) -> Option<Id> {
    let k = first_ready(q, now_ns);
    if k < q.len() {
        Some(q[k].id())
    } else {
        None
    }
}

/// The queue after a kill: a `Running` head is removed outright (never
/// re-enqueued); otherwise the queue is untouched.
pub open spec fn spec_kill_queue(q: Seq<Process>) -> Seq<Process> {
    if head_running(q) {
        q.subrange(1, q.len() as int)
    } else {
        q
    }
}

/// Every process of the queue has its frames live in `alloc`, and the
/// address spaces of distinct processes are disjoint.
pub open spec fn vm_ok_queue(q: Seq<Process>, alloc: &PageAllocator) -> bool {
    &&& forall|i: int| 0 <= i < q.len() ==> (#[trigger] q[i]).vmap.0.frames_ok(alloc)
    &&& forall|i: int, j: int|
        0 <= i < q.len() && 0 <= j < q.len() && i != j ==> (#[trigger] q[i]).vmap.0.disjoint_from(
            &(#[trigger] q[j]).vmap.0,
        )
}

/// No process of the queue is `Running`: the state between scheduling
/// the current process out and switching the next one in.
pub open spec fn no_running(q: Seq<Process>) -> bool {
    forall|i: int| 0 <= i < q.len() ==> !((#[trigger] q[i]).state is Running)
}

/// At most one process is `Running`, and when one is, it is the head:
/// the run-queue invariant between switches.
pub open spec fn running_ok(q: Seq<Process>) -> bool {
    forall|i: int| 1 <= i < q.len() ==> !((#[trigger] q[i]).state is Running)
}

/// Process scheduler: the run queue, in scheduling order, and the last
/// process id handed out.
pub struct Scheduler {
    processes: VecDeque<Process>,
    last_id: Option<Id>,
}

impl Scheduler {
    /// The run queue, head first.
    pub closed spec fn queue(&self) -> Seq<Process> {
        self.processes@
    }

    /// The most recently allocated process id, if any process was ever
    /// admitted.
    pub closed spec fn spec_last_id(&self) -> Option<Id> {
        self.last_id
    }

    /// Scheduler consistency: every queued process is well-formed, ids
    /// never exceed the last id handed out, and no two queued processes
    /// share an id.
    pub open spec fn wf(&self) -> bool {
        &&& forall|i: int| 0 <= i < self.queue().len() ==> (#[trigger] self.queue()[i]).wf()
        &&& forall|i: int|
            0 <= i < self.queue().len() ==> self.spec_last_id() is Some && (#[trigger] self.queue()[
            i]).id() <= self.spec_last_id().unwrap()
        &&& forall|i: int, j: int|
            0 <= i < self.queue().len() && 0 <= j < self.queue().len() && i != j ==> (
            #[trigger] self.queue()[i]).id() != (#[trigger] self.queue()[j]).id()
    }

    /// True when the id was handed out in the past and no longer names
    /// any queued process. A retired id is dead for good: no operation
    /// ever brings it back (see the retirement lemmas).
    pub open spec fn retired(&self, id: Id) -> bool {
        &&& self.spec_last_id() is Some
        &&& id <= self.spec_last_id().unwrap()
        &&& forall|i: int| 0 <= i < self.queue().len() ==> (#[trigger] self.queue()[i]).id() != id
    }

    /// Every queued process's frames are live in `alloc`, and the address
    /// spaces of distinct queued processes are disjoint.
    pub open spec fn vm_ok(&self, alloc: &PageAllocator) -> bool {
        vm_ok_queue(self.queue(), alloc)
    }

    /// Returns a scheduler with an empty queue and no ids handed out.
    pub fn new() -> (r: Scheduler)
        ensures
            r.wf(),
            r.queue().len() == 0,
            r.spec_last_id() is None,
    {
        Scheduler { processes: VecDeque::new(), last_id: None }
    }

    /// True when the queue's head exists and is currently `Running`.
    pub fn head_is_running(&self) -> (r: bool)
        ensures
            r == head_running(self.queue()),
    {
        if self.processes.len() == 0 {
            false
        } else {
            match self.processes[0].state {
                State::Running => true,
                _ => false,
            }
        }
    }

    /// The ids of the queued processes, head first.
    pub fn ids(&self) -> (r: Vec<Id>)
        ensures
            r@.len() == self.queue().len(),
            forall|i: int| 0 <= i < r@.len() ==> r@[i] == self.queue()[i].id(),
    {
        let mut r: Vec<Id> = Vec::new();
        let n = self.processes.len();
        let mut i: usize = 0;
        while i < n
            invariant
                n == self.queue().len(),
                i <= n,
                r@.len() == i,
                forall|j: int| 0 <= j < i ==> r@[j] == self.queue()[j].id(),
            decreases n - i,
        {
            r.push(self.processes[i].context.tpidr);
            i = i + 1;
        }
        r
    }

    /// The next id to hand out.
    pub open spec fn next_id(&self) -> Id {
        match self.spec_last_id() {
            None => 0,
            Some(l) => (l + 1) as u64,
        }
    }

    /// Admits a process: stamps a fresh id — one larger than the last,
    /// starting at zero — into the process's saved context and appends it
    /// to the tail of the queue. When the id space is exhausted, returns
    /// `None` and leaves the scheduler untouched.
    ///
    /// Ids handed out over any sequence of calls are strictly increasing,
    /// so an id never names two processes.
    pub fn add(&mut self, process: Process) -> (r: Option<Id>)
        requires
            old(self).wf(),
            process.wf(),
            !(process.state is Running),
        ensures
            final(self).wf(),
            running_ok(old(self).queue()) ==> running_ok(final(self).queue()),
            no_running(old(self).queue()) ==> no_running(final(self).queue()),
            r is None <==> old(self).spec_last_id() == Some(u64::MAX),
            r is None ==> *final(self) == *old(self),
            r is Some ==> {
                let id = r->0;
                &&& id == old(self).next_id()
                &&& (old(self).spec_last_id() is Some ==> id > old(self).spec_last_id().unwrap())
                &&& final(self).spec_last_id() == Some(id)
                &&& final(self).queue() =~= old(self).queue().push(
                    saved(process, process.state, TrapFrame { tpidr: id, ..process.context }),
                )
            },
            forall|i: Id| old(self).retired(i) ==> final(self).retired(i),
    {
        let id: Id = match self.last_id {
            None => 0,
            Some(l) => {
                if l == u64::MAX {
                    return None;
                }
                l + 1
            },
        };
        let mut process = process;
        process.context.tpidr = id;
        self.processes.push_back(process);
        self.last_id = Some(id);
        proof {
            let q0 = old(self).queue();
            assert forall|i: int| 0 <= i < self.queue().len() implies (#[trigger] self.queue()[
            i]).wf() && self.queue()[i].id() <= id by {
                if i < q0.len() {
                    assert(q0[i].wf());
                    assert(q0[i].id() <= old(self).spec_last_id().unwrap());
                }
            }
            assert forall|i: int, j: int|
                0 <= i < self.queue().len() && 0 <= j < self.queue().len() && i
                    != j implies (#[trigger] self.queue()[i]).id() != (#[trigger] self.queue()[
            j]).id() by {
                if i < q0.len() && j < q0.len() {
                    assert(q0[i].id() != q0[j].id());
                } else if i < q0.len() {
                    assert(q0[i].id() <= old(self).spec_last_id().unwrap());
                } else if j < q0.len() {
                    assert(q0[j].id() <= old(self).spec_last_id().unwrap());
                }
            }
        }
        Some(id)
    }

    /// Prepares a context switch away from the running process: a
    /// `Running` head takes the state `new_state` and the live context
    /// `tf` as its saved context and moves to the tail, and the call
    /// returns `true`. Any other queue — empty, or a head that is not
    /// `Running` — is left untouched and the call returns `false`,
    /// signalling a caller protocol violation.
    pub fn schedule_out(&mut self, new_state: State, tf: &TrapFrame) -> (r: bool)
        requires
            old(self).wf(),
            !(new_state is Running),
            running_ok(old(self).queue()),
            head_running(old(self).queue()) ==> tf.tpidr == old(self).queue()[0].id(),
        ensures
            final(self).wf(),
            no_running(final(self).queue()),
            r == head_running(old(self).queue()),
            final(self).queue() =~= spec_schedule_out(old(self).queue(), new_state, *tf),
            final(self).spec_last_id() == old(self).spec_last_id(),
            forall|i: Id| old(self).retired(i) ==> final(self).retired(i),
            forall|al: PageAllocator| #[trigger] old(self).vm_ok(&al) ==> final(self).vm_ok(&al),
    {
        let ghost q0 = self.queue();
        let head = match self.processes.pop_front() {
            Some(p) => p,
            None => {
                return false;
            },
        };
        let is_running = match head.state {
            State::Running => true,
            _ => false,
        };
        if !is_running {
            self.processes.push_front(head);
            proof {
                assert(self.queue() =~= q0);
            }
            return false;
        }
        let mut head = head;
        head.state = new_state;
        head.context = *tf;
        self.processes.push_back(head);
        proof {
            let n = q0.len() as int;
            let qn = self.queue();
            assert(qn =~= spec_schedule_out(q0, new_state, *tf));
            assert forall|m: int| 0 <= m < n implies (#[trigger] qn[m]).id() == q0[rot_src(
                m,
                1,
                n,
            )].id() && qn[m].wf() && qn[m].vmap == q0[rot_src(m, 1, n)].vmap && !(
            qn[m].state is Running) by {
                if m < n - 1 {
                    assert(qn[m] == q0[m + 1]);
                }
            }
            lemma_ids_distinct_rotation(q0, qn, 1);
            lemma_vm_ok_rotation(q0, qn, 1);
        }
        true
    }

    /// Selects the next process to run at time `now_ns`.
    ///
    /// Scans from the head: each entry that is not ready is rotated to
    /// the tail in scan order; the first ready entry is woken, set
    /// `Running`, rotated to the head, its saved context copied out into
    /// `tf`, and its id returned. If no entry is ready after one full
    /// pass, exactly one rotation step occurs, `tf` is untouched, and
    /// the call returns `None` — so relative order is preserved across
    /// repeated empty scans and no process is starved.
    pub fn switch_to(&mut self, tf: &mut TrapFrame, now_ns: u64) -> (r: Option<Id>)
        requires
            old(self).wf(),
            no_running(old(self).queue()),
        ensures
            final(self).wf(),
            running_ok(final(self).queue()),
            r is Some ==> head_running(final(self).queue()) && final(self).queue()[0].id() == r->0,
            r is None ==> no_running(final(self).queue()),
            final(self).spec_last_id() == old(self).spec_last_id(),
            r == spec_switch_to_ret(old(self).queue(), now_ns),
            final(self).queue() =~= spec_switch_to_queue(old(self).queue(), now_ns),
            r is Some <==> has_ready(old(self).queue(), now_ns),
            r is Some ==> *final(tf) == chosen(old(self).queue(), now_ns).context,
            r is None ==> *final(tf) == *old(tf),
            forall|i: Id| old(self).retired(i) ==> final(self).retired(i),
            forall|al: PageAllocator| #[trigger] old(self).vm_ok(&al) ==> final(self).vm_ok(&al),
    {
        let ghost q0 = self.queue();
        let n = self.processes.len();
        if n == 0 {
            return None;
        }
        let mut i: usize = 0;
        while i < n
            invariant
                old(self).wf(),
                no_running(q0),
                q0 == old(self).queue(),
                n == q0.len(),
                i <= n,
                self.queue() =~= q0.subrange(i as int, n as int) + q0.subrange(0, i as int),
                self.spec_last_id() == old(self).spec_last_id(),
                *tf == *old(tf),
                forall|j: int| 0 <= j < i ==> !(#[trigger] q0[j]).ready_spec(now_ns),
            decreases n - i,
        {
            let mut p = match self.processes.pop_front() {
                Some(p) => p,
                None => {
                    proof {
                        assert(false);
                    }
                    return None;
                },
            };
            proof {
                assert(p == q0[i as int]);
            }
            if p.is_ready(now_ns) {
                proof {
                    lemma_first_ready_skip(q0, now_ns, i as int);
                    assert(first_ready(q0, now_ns) == i);
                }
                p.state = State::Running;
                let id = p.context.tpidr;
                *tf = p.context;
                self.processes.push_front(p);
                proof {
                    let k = i as int;
                    let qn = self.queue();
                    assert(qn =~= spec_switch_to_queue(q0, now_ns));
                    assert(id == q0[k].id());
                    assert forall|m: int| 0 <= m < n implies (#[trigger] qn[m]).id() == q0[rot_src(
                        m,
                        k,
                        n as int,
                    )].id() && qn[m].wf() && qn[m].vmap == q0[rot_src(m, k, n as int)].vmap && (m
                        >= 1 ==> !(qn[m].state is Running)) by {
                        if m == 0 {
                            assert(qn[0] == chosen(q0, now_ns));
                        } else if m <= n - 1 - k {
                            assert(qn[m] == q0[k + m]);
                            assert(!(q0[k + m].state is Running));
                        } else {
                            assert(qn[m] == q0[m - (n - k)]);
                            assert(!(q0[m - (n - k)].state is Running));
                        }
                    }
                    lemma_ids_distinct_rotation(q0, qn, k);
                    lemma_vm_ok_rotation(q0, qn, k);
                }
                return Some(id);
            }
            self.processes.push_back(p);
            i = i + 1;
            proof {
                assert(self.queue() =~= q0.subrange(i as int, n as int) + q0.subrange(
                    0,
                    i as int,
                ));
            }
        }
        proof {
            lemma_first_ready_skip(q0, now_ns, n as int);
            assert(first_ready(q0, now_ns) == n);
            assert(!has_ready(q0, now_ns));
        }
        if n > 0 {
            let p = match self.processes.pop_front() {
                Some(p) => p,
                None => {
                    proof {
                        assert(false);
                    }
                    return None;
                },
            };
            self.processes.push_back(p);
        }
        proof {
            let qn = self.queue();
            assert(qn =~= spec_switch_to_queue(q0, now_ns));
            assert forall|m: int| 0 <= m < n implies (#[trigger] qn[m]).id() == q0[rot_src(
                m,
                1,
                n as int,
            )].id() && qn[m].wf() && qn[m].vmap == q0[rot_src(m, 1, n as int)].vmap && !(
            qn[m].state is Running) by {
                if m < n - 1 {
                    assert(qn[m] == q0[m + 1]);
                } else if n > 0 {
                    assert(qn[m] == q0[0]);
                }
            }
            lemma_ids_distinct_rotation(q0, self.queue(), 1);
            lemma_vm_ok_rotation(q0, self.queue(), 1);
        }
        None
    }

    /// Kills the currently running process: a `Running` head is removed
    /// from the queue for good — never re-enqueued — its memory is
    /// returned to the allocator, and its id is returned; the id is
    /// retired and no later operation ever hands it out or schedules it
    /// again. If the head is not `Running` (or the queue is empty), the
    /// call changes nothing and returns `None`. The interrupted context
    /// arrives through the trap path but is not consulted: the dying
    /// process's saved state no longer matters.
    pub fn kill(&mut self, _tf: &TrapFrame, alloc: &mut PageAllocator) -> (r: Option<Id>)
        requires
            old(self).wf(),
            old(alloc).wf(),
            running_ok(old(self).queue()),
            old(self).vm_ok(old(alloc)),
        ensures
            final(self).wf(),
            final(alloc).wf(),
            no_running(final(self).queue()),
            final(self).vm_ok(final(alloc)),
            final(self).spec_last_id() == old(self).spec_last_id(),
            final(alloc).spec_base() == old(alloc).spec_base(),
            final(alloc).num_frames() == old(alloc).num_frames(),
            r == if head_running(old(self).queue()) {
                Some(old(self).queue()[0].id())
            } else {
                None
            },
            final(self).queue() =~= spec_kill_queue(old(self).queue()),
            r is Some ==> final(self).retired(r->0),
            r is Some ==> final(alloc).spec_free() == old(alloc).spec_free() + 3 + old(self).queue()[0].vmap.mapped_count(),
            r is None ==> final(self).queue() =~= old(self).queue() && *final(alloc) == *old(alloc),
            forall|pa: u64, off: int|
                final(alloc).is_frame(pa) ==> #[trigger] final(alloc).byte_at(pa, off) == old(alloc).byte_at(pa, off),
            forall|i: Id| old(self).retired(i) ==> final(self).retired(i),
    {
        let ghost q0 = self.queue();
        let head = match self.processes.pop_front() {
            Some(p) => p,
            None => {
                return None;
            },
        };
        let is_running = match head.state {
            State::Running => true,
            _ => false,
        };
        if !is_running {
            self.processes.push_front(head);
            proof {
                assert(self.queue() =~= q0);
            }
            return None;
        }
        let id = head.context.tpidr;
        let mut head = head;
        head.state = State::Dead;
        proof {
            assert(q0[0].vmap.0.frames_ok(old(alloc)));
        }
        head.teardown(alloc);
        proof {
            assert(self.queue() =~= q0.subrange(1, q0.len() as int));
            assert forall|i: int|
                0 <= i < self.queue().len() implies (#[trigger] self.queue()[i]).vmap.0.frames_ok(
                alloc,
            ) by {
                assert(self.queue()[i] == q0[i + 1]);
                assert(q0[i + 1].vmap.0.frames_ok(old(alloc)));
                assert(q0[i + 1].vmap.0.disjoint_from(&q0[0].vmap.0));
                assert forall|pa: u64| #[trigger] self.queue()[i].vmap.0.owns_addr(pa) implies alloc
                    .is_allocated(pa) by {
                    assert(!q0[0].vmap.0.owns_addr(pa));
                }
            }
            assert forall|i: int, j: int|
                0 <= i < self.queue().len() && 0 <= j < self.queue().len() && i
                    != j implies (#[trigger] self.queue()[i]).vmap.0.disjoint_from(
                &(#[trigger] self.queue()[j]).vmap.0,
            ) by {
                assert(self.queue()[i] == q0[i + 1] && self.queue()[j] == q0[j + 1]);
            }
        }
        Some(id)
    }
}

/// The index of the entry of the unrotated queue that an entry of the
/// queue rotated by `k` steps came from.
pub open spec fn rot_src(m: int, k: int, n: int) -> int {
    if m <= n - 1 - k {
        k + m
    } else {
        m - (n - k)
    }
}

proof fn lemma_ids_distinct_rotation(q0: Seq<Process>, qn: Seq<Process>, k: int)
    requires
        qn.len() == q0.len(),
        0 <= k <= q0.len(),
        forall|i: int, j: int|
            0 <= i < q0.len() && 0 <= j < q0.len() && i != j ==> (#[trigger] q0[i]).id() != (
            #[trigger] q0[j]).id(),
        forall|m: int|
            0 <= m < qn.len() ==> (#[trigger] qn[m]).id() == q0[rot_src(m, k, q0.len() as int)].id(),
    ensures
        forall|i: int, j: int|
            0 <= i < qn.len() && 0 <= j < qn.len() && i != j ==> (#[trigger] qn[i]).id() != (
            #[trigger] qn[j]).id(),
{
    let n = q0.len() as int;
    assert forall|i: int, j: int|
        0 <= i < qn.len() && 0 <= j < qn.len() && i != j implies (#[trigger] qn[i]).id() != (
    #[trigger] qn[j]).id() by {
        assert(0 <= rot_src(i, k, n) < n);
        assert(0 <= rot_src(j, k, n) < n);
        assert(rot_src(i, k, n) != rot_src(j, k, n));
        assert(q0[rot_src(i, k, n)].id() != q0[rot_src(j, k, n)].id());
    }
}

proof fn lemma_vm_ok_rotation(q0: Seq<Process>, qn: Seq<Process>, k: int)
    requires
        qn.len() == q0.len(),
        0 <= k <= q0.len(),
        forall|m: int|
            0 <= m < qn.len() ==> (#[trigger] qn[m]).vmap == q0[rot_src(m, k, q0.len() as int)].vmap,
    ensures
        forall|al: PageAllocator|
            #[trigger] vm_ok_queue(q0, &al) ==> vm_ok_queue(qn, &al),
{
    let n = q0.len() as int;
    assert forall|al: PageAllocator| #[trigger] vm_ok_queue(q0, &al) implies vm_ok_queue(
        qn,
        &al,
    ) by {
        assert forall|i: int| 0 <= i < qn.len() implies (#[trigger] qn[i]).vmap.0.frames_ok(
            &al,
        ) by {
            assert(0 <= rot_src(i, k, n) < n);
            assert(q0[rot_src(i, k, n)].vmap.0.frames_ok(&al));
        }
        assert forall|i: int, j: int|
            0 <= i < qn.len() && 0 <= j < qn.len() && i != j implies (
        #[trigger] qn[i]).vmap.0.disjoint_from(&(#[trigger] qn[j]).vmap.0) by {
            assert(0 <= rot_src(i, k, n) < n && 0 <= rot_src(j, k, n) < n);
            assert(rot_src(i, k, n) != rot_src(j, k, n));
            assert(q0[rot_src(i, k, n)].vmap.0.disjoint_from(&q0[rot_src(j, k, n)].vmap.0));
        }
    }
}

proof fn lemma_first_ready_bounds(q: Seq<Process>, now_ns: u64, i: int)
    requires
        0 <= i <= q.len(),
    ensures
        i <= first_ready_from(q, now_ns, i) <= q.len(),
        first_ready_from(q, now_ns, i) < q.len() ==> q[first_ready_from(q, now_ns, i)].ready_spec(
            now_ns,
        ),
    decreases q.len() - i,
{
    if i < q.len() && !q[i].ready_spec(now_ns) {
        lemma_first_ready_bounds(q, now_ns, i + 1);
    }
}

proof fn lemma_first_ready_all_waiting(q: Seq<Process>, now_ns: u64, i: int)
    requires
        0 <= i <= q.len(),
        forall|j: int| i <= j < q.len() ==> !(#[trigger] q[j]).ready_spec(now_ns),
    ensures
        first_ready_from(q, now_ns, i) == q.len(),
    decreases q.len() - i,
{
    if i < q.len() {
        lemma_first_ready_all_waiting(q, now_ns, i + 1);
    }
}

/// On a queue where no entry is ready — every entry is waiting on an
/// unexpired deadline, or dead, or the not-yet-rescheduled running head
/// — a switch attempt returns `None` and performs exactly one rotation
/// step: the head moves to the tail and the queue's relative order is
/// otherwise unchanged.
pub proof fn lemma_switch_to_idle(q: Seq<Process>, now_ns: u64)
    requires
        forall|j: int| 0 <= j < q.len() ==> !(#[trigger] q[j]).ready_spec(now_ns),
    ensures
        spec_switch_to_ret(q, now_ns) is None,
        spec_switch_to_queue(q, now_ns) == rotate1(q),
{
    lemma_first_ready_all_waiting(q, now_ns, 0);
}

/// With exactly one schedulable process — entry `k` is `Ready` and no
/// other entry is ready — a switch attempt always returns that entry's
/// id, and the context it copies out into the live trap frame is exactly
/// the context last saved for that entry: a `Ready` process is installed
/// without any modification of its saved registers.
pub proof fn lemma_switch_to_unique_ready(q: Seq<Process>, now_ns: u64, k: int)
    requires
        0 <= k < q.len(),
        q[k].state is Ready,
        forall|j: int| 0 <= j < q.len() && j != k ==> !(#[trigger] q[j]).ready_spec(now_ns),
    ensures
        spec_switch_to_ret(q, now_ns) == Some(q[k].id()),
        chosen(q, now_ns).context == q[k].context,
{
    lemma_first_ready_skip(q, now_ns, k);
    assert(first_ready(q, now_ns) == k);
}

impl Scheduler {
    /// A retired id stays off the processor: no switch attempt on the
    /// current queue can ever return it. Together with the retirement
    /// clauses of `add`, `schedule_out`, `switch_to` and `kill` — each
    /// preserves every retired id, `kill` retires the id it removes, and
    /// `add` hands out only ids above every retired one — a killed
    /// process's id is never scheduled again by any later sequence of
    /// scheduler operations.
    pub proof fn lemma_retired_never_scheduled(&self, now_ns: u64, id: Id)
        requires
            self.retired(id),
        ensures
            spec_switch_to_ret(self.queue(), now_ns) != Some(id),
    {
        let q = self.queue();
        lemma_first_ready_bounds(q, now_ns, 0);
        if first_ready(q, now_ns) < q.len() {
            assert(q[first_ready(q, now_ns)].id() != id);
        }
    }

    /// A retired id is below every id `add` will ever hand out, so no
    /// later admission can reuse it.
    pub proof fn lemma_retired_below_next(&self, id: Id)
        requires
            self.retired(id),
        ensures
            id < self.next_id() || self.spec_last_id() == Some(u64::MAX),
    {
    }
}

proof fn lemma_first_ready_skip(q: Seq<Process>, now_ns: u64, i: int)
    requires
        0 <= i <= q.len(),
        forall|j: int| 0 <= j < i ==> !(#[trigger] q[j]).ready_spec(now_ns),
    ensures
        first_ready(q, now_ns) == first_ready_from(q, now_ns, i),
    decreases i,
{
    if i > 0 {
        lemma_first_ready_skip(q, now_ns, i - 1);
    }
}

} // verus!
