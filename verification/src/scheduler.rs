use vstd::prelude::*;
use crate::error::{ThreadError, ThreadResult};
use crate::thread::{Thread, ThreadId, ThreadState, MAX_THREADS};

verus! {

/// Whether `id` names a slot of `table` holding a ready thread.
pub open spec fn runnable(table: Seq<Option<Thread>>, id: int) -> bool {
    0 <= id < table.len() && table[id] is Some && table[id]->0.state == ThreadState::Ready
}

/// Priority of the thread in slot `id` (0 when the slot is empty).
pub open spec fn priority_of(table: Seq<Option<Thread>>, id: int) -> u8 {
    if 0 <= id < table.len() && table[id] is Some {
        table[id]->0.priority
    } else {
        0
    }
}

/// Highest priority among the runnable threads of the first `n` queue
/// entries, and 0 when there is none.
pub open spec fn max_runnable_priority(table: Seq<Option<Thread>>, q: Seq<ThreadId>, n: int) -> u8
    decreases n,
{
    if n <= 0 {
        0
    } else {
        let m = max_runnable_priority(table, q, n - 1);
        if runnable(table, q[n - 1] as int) && priority_of(table, q[n - 1] as int) > m {
            priority_of(table, q[n - 1] as int)
        } else {
            m
        }
    }
}

/// Whether queue entry `i` is a runnable thread of priority `p`.
pub open spec fn candidate(table: Seq<Option<Thread>>, q: Seq<ThreadId>, p: u8, i: int) -> bool {
    runnable(table, q[i] as int) && priority_of(table, q[i] as int) == p
}

/// Position of the first candidate of priority `p` at or after `k`, or -1.
pub open spec fn first_candidate(table: Seq<Option<Thread>>, q: Seq<ThreadId>, p: u8, k: int) -> int
    decreases q.len() - k,
{
    if k < 0 || k >= q.len() {
        -1
    } else if candidate(table, q, p, k) {
        k
    } else {
        first_candidate(table, q, p, k + 1)
    }
}

/// The queue position the priority scheduler picks: the oldest runnable
/// thread among those of the highest runnable priority, or -1.
pub open spec fn pick_position(table: Seq<Option<Thread>>, q: Seq<ThreadId>) -> int {
    first_candidate(table, q, max_runnable_priority(table, q, q.len() as int), 0)
}

/// The pick is -1 or a queue position.
pub proof fn lemma_pick_range(table: Seq<Option<Thread>>, q: Seq<ThreadId>)
    ensures
        -1 <= pick_position(table, q) < q.len(),
{
    lemma_first_candidate_range(table, q, max_runnable_priority(table, q, q.len() as int), 0);
}

proof fn lemma_first_candidate_range(table: Seq<Option<Thread>>, q: Seq<ThreadId>, p: u8, k: int)
    ensures
        first_candidate(table, q, p, k) == -1 || (k <= first_candidate(table, q, p, k) < q.len()),
    decreases q.len() - k,
{
    if 0 <= k < q.len() {
        lemma_first_candidate_range(table, q, p, k + 1);
    }
}

proof fn lemma_first_candidate_found(
    table: Seq<Option<Thread>>,
    q: Seq<ThreadId>,
    p: u8,
    k: int,
    b: int,
)
    requires
        0 <= k <= b < q.len(),
        candidate(table, q, p, b),
        forall|j: int| k <= j < b ==> !#[trigger] candidate(table, q, p, j),
    ensures
        first_candidate(table, q, p, k) == b,
    decreases b - k,
{
    if k < b {
        lemma_first_candidate_found(table, q, p, k + 1, b);
    }
}

proof fn lemma_first_candidate_none(table: Seq<Option<Thread>>, q: Seq<ThreadId>, p: u8, k: int)
    requires
        0 <= k <= q.len(),
        forall|j: int| k <= j < q.len() ==> !#[trigger] candidate(table, q, p, j),
    ensures
        first_candidate(table, q, p, k) == -1,
    decreases q.len() - k,
{
    if k < q.len() {
        lemma_first_candidate_none(table, q, p, k + 1);
    }
}

/// Table and queue after the running thread, when it is in state
/// `Running`, becomes ready and is appended to the queue (unless the queue
/// is full).
pub open spec fn requeue_current(
    table: Seq<Option<Thread>>,
    q: Seq<ThreadId>,
    current: Option<ThreadId>,
) -> (Seq<Option<Thread>>, Seq<ThreadId>) {
    match current {
        Some(c) => if 0 <= c < table.len() && table[c as int] is Some && table[c as int]->0.state
            == ThreadState::Running {
            (
                table.update(c as int, Some(Thread { state: ThreadState::Ready, ..table[c as int]->0 })),
                if q.len() < MAX_THREADS {
                    q.push(c)
                } else {
                    q
                },
            )
        } else {
            (table, q)
        },
        None => (table, q),
    }
}

/// Table after the running thread changes from `old_current` to
/// `new_current`: the old one, if running, becomes ready; the new one, if it
/// exists, becomes running.
pub open spec fn switch_states(
    table: Seq<Option<Thread>>,
    old_current: Option<ThreadId>,
    new_current: Option<ThreadId>,
) -> Seq<Option<Thread>> {
    let t1 = match old_current {
        Some(c) => if 0 <= c < table.len() && table[c as int] is Some && table[c as int]->0.state
            == ThreadState::Running {
            table.update(c as int, Some(Thread { state: ThreadState::Ready, ..table[c as int]->0 }))
        } else {
            table
        },
        None => table,
    };
    match new_current {
        Some(n) => if 0 <= n < t1.len() && t1[n as int] is Some {
            t1.update(n as int, Some(Thread { state: ThreadState::Running, ..t1[n as int]->0 }))
        } else {
            t1
        },
        None => t1,
    }
}

/// Table and queue after waking, in order, the first `k` of `waiters`: a
/// waiter whose slot holds a blocked thread becomes ready and is appended to
/// the queue (unless the queue is full).
pub open spec fn wake_waiters(
    table: Seq<Option<Thread>>,
    q: Seq<ThreadId>,
    waiters: Seq<Option<ThreadId>>,
    k: int,
) -> (Seq<Option<Thread>>, Seq<ThreadId>)
    decreases k,
{
    if k <= 0 {
        (table, q)
    } else {
        let (tb, qq) = wake_waiters(table, q, waiters, k - 1);
        if waiters[k - 1] is Some {
            let w = waiters[k - 1]->0;
            if 0 <= w < tb.len() && tb[w as int] is Some && tb[w as int]->0.state
                == ThreadState::Blocked {
                (
                    tb.update(w as int, Some(Thread { state: ThreadState::Ready, ..tb[w as int]->0 })),
                    if qq.len() < MAX_THREADS {
                        qq.push(w)
                    } else {
                        qq
                    },
                )
            } else {
                (tb, qq)
            }
        } else {
            (tb, qq)
        }
    }
}

/// Waking only turns blocked threads ready: the table keeps its length,
/// empty slots stay empty and threads that are not blocked are unchanged.
pub proof fn lemma_wake_waiters_frame(
    table: Seq<Option<Thread>>,
    q: Seq<ThreadId>,
    waiters: Seq<Option<ThreadId>>,
    k: int,
)
    ensures
        wake_waiters(table, q, waiters, k).0.len() == table.len(),
        forall|i: int|
            0 <= i < table.len() && (table[i] is None || table[i]->0.state != ThreadState::Blocked)
                ==> #[trigger] wake_waiters(table, q, waiters, k).0[i] == table[i],
    decreases k,
{
    if k > 0 {
        lemma_wake_waiters_frame(table, q, waiters, k - 1);
    }
}

/// Table and queue after the thread in slot `c` exits: it is marked
/// finished and the threads blocked joining it are woken.
pub open spec fn exit_effect(table: Seq<Option<Thread>>, q: Seq<ThreadId>, c: int) -> (
    Seq<Option<Thread>>,
    Seq<ThreadId>,
) {
    let exiting = table[c] is Some;
    let table1 = if exiting {
        table.update(c, Some(Thread { state: ThreadState::Finished, ..table[c]->0 }))
    } else {
        table
    };
    let waiters = if exiting {
        table[c]->0.join_waiters@
    } else {
        seq![None::<ThreadId>, None, None, None]
    };
    wake_waiters(table1, q, waiters, 4)
}

/// Index of the first free join-waiter slot, or -1.
pub open spec fn first_free_waiter(waiters: Seq<Option<ThreadId>>, k: int) -> int
    decreases waiters.len() - k,
{
    if k < 0 || k >= waiters.len() {
        -1
    } else if waiters[k] is None {
        k
    } else {
        first_free_waiter(waiters, k + 1)
    }
}

proof fn lemma_first_free_waiter(waiters: Seq<Option<ThreadId>>, k: int, b: int)
    requires
        0 <= k <= b <= waiters.len(),
        forall|j: int| k <= j < b ==> #[trigger] waiters[j] is Some,
        b < waiters.len() ==> waiters[b] is None,
    ensures
        first_free_waiter(waiters, k) == if b < waiters.len() {
            b
        } else {
            -1
        },
    decreases b - k,
{
    if k < b {
        lemma_first_free_waiter(waiters, k + 1, b);
    }
}

/// Whether `join_thread(target, _)` registers a waiter: the target exists,
/// has not finished and has a free waiter slot.
pub open spec fn join_registers(table: Seq<Option<Thread>>, target: ThreadId) -> bool {
    &&& target < table.len()
    &&& table[target as int] is Some
    &&& table[target as int]->0.state != ThreadState::Finished
    &&& first_free_waiter(table[target as int]->0.join_waiters@, 0) >= 0
}

/// Cooperative round-robin scheduler with priorities: a table of threads and
/// one FIFO run queue.
pub struct Scheduler {
    threads: Vec<Option<Thread>>,
    current_thread: Option<ThreadId>,
    next_thread_id: ThreadId,
    run_queue: Vec<Option<ThreadId>>,
    run_queue_head: usize,
    run_queue_tail: usize,
    run_queue_count: usize,
}

impl Scheduler {
    /// Well-formedness: fixed-size table and ring, slots filled exactly below
    /// the next id, every queued id and join waiter names a slot, and the
    /// ring starts at slot 0 (entries are removed by compaction).
    pub closed spec fn wf(&self) -> bool {
        &&& self.threads@.len() == MAX_THREADS
        &&& self.run_queue@.len() == MAX_THREADS
        &&& self.next_thread_id <= MAX_THREADS
        &&& forall|i: int|
            0 <= i < MAX_THREADS ==> ((#[trigger] self.threads@[i] is Some) <==> i
                < self.next_thread_id)
        &&& forall|i: int|
            0 <= i < MAX_THREADS && (#[trigger] self.threads@[i]) is Some ==> self.threads@[i]->0.id
                == i
        &&& forall|i: int, k: int|
            0 <= i < MAX_THREADS && self.threads@[i] is Some && 0 <= k < 4 && (
            #[trigger] self.threads@[i]->0.join_waiters[k]) is Some ==> self.threads@[i]->0.join_waiters[k]->0
                < MAX_THREADS
        &&& self.run_queue_head == 0
        &&& self.run_queue_count <= MAX_THREADS
        &&& self.run_queue_tail == self.run_queue_count % MAX_THREADS
        &&& forall|i: int|
            0 <= i < self.run_queue_count ==> (#[trigger] self.run_queue@[i]) is Some
                && self.run_queue@[i]->0 < MAX_THREADS
        &&& self.current_thread matches Some(c) ==> c < MAX_THREADS
    }

    /// The thread table.
    pub closed spec fn table(&self) -> Seq<Option<Thread>> {
        self.threads@
    }

    /// The run queue, oldest first.
    pub closed spec fn queue(&self) -> Seq<ThreadId> {
        Seq::new(self.run_queue_count as nat, |i: int| self.run_queue@[i]->0)
    }

    /// The running thread, if any.
    pub closed spec fn current(&self) -> Option<ThreadId> {
        self.current_thread
    }

    /// The id the next spawned thread gets.
    pub closed spec fn next_id(&self) -> ThreadId {
        self.next_thread_id
    }

    /// Facts every well-formed scheduler satisfies.
    pub proof fn lemma_wf_facts(&self)
        requires
            self.wf(),
        ensures
            self.table().len() == MAX_THREADS,
            self.queue().len() <= MAX_THREADS,
            self.next_id() <= MAX_THREADS,
            forall|i: int| 0 <= i < self.queue().len() ==> #[trigger] self.queue()[i] < MAX_THREADS,
            forall|i: int|
                0 <= i < MAX_THREADS ==> ((#[trigger] self.table()[i] is Some) <==> i
                    < self.next_id()),
            self.current() matches Some(c) ==> c < MAX_THREADS,
    {
        assert forall|i: int| 0 <= i < self.queue().len() implies #[trigger] self.queue()[i]
            < MAX_THREADS by {
            assert(self.run_queue@[i] is Some);
        }
    }

    /// An empty scheduler: no thread, empty queue, nothing running.
    pub fn new() -> (s: Self)
        ensures
            s.wf(),
            s.table() == Seq::new(MAX_THREADS as nat, |i: int| None::<Thread>),
            s.queue() == Seq::<ThreadId>::empty(),
            s.current() is None,
            s.next_id() == 0,
    {
        let mut threads: Vec<Option<Thread>> = Vec::new();
        let mut run_queue: Vec<Option<ThreadId>> = Vec::new();
        let mut i: usize = 0;
        while i < MAX_THREADS
            invariant
                i <= MAX_THREADS,
                threads@.len() == i,
                run_queue@.len() == i,
                forall|k: int| 0 <= k < i ==> #[trigger] threads@[k] is None,
            decreases MAX_THREADS - i,
        {
            threads.push(None);
            run_queue.push(None);
            i = i + 1;
        }
        let s = Scheduler {
            threads,
            current_thread: None,
            next_thread_id: 0,
            run_queue,
            run_queue_head: 0,
            run_queue_tail: 0,
            run_queue_count: 0,
        };
        assert(s.table() =~= Seq::new(MAX_THREADS as nat, |i: int| None::<Thread>));
        assert(s.queue() =~= Seq::<ThreadId>::empty());
        s
    }

    /// Appends `thread_id` to the run queue; fails when the queue is full.
    fn enqueue_thread(&mut self, thread_id: ThreadId) -> (r: ThreadResult<()>)
        requires
            old(self).wf(),
            thread_id < MAX_THREADS,
        ensures
            final(self).wf(),
            final(self).table() == old(self).table(),
            final(self).current() == old(self).current(),
            final(self).next_id() == old(self).next_id(),
            r is Ok <==> old(self).queue().len() < MAX_THREADS,
            r is Ok ==> final(self).queue() == old(self).queue().push(thread_id),
            r is Err ==> r == Err::<(), ThreadError>(ThreadError::SchedulerFull) && final(self).queue()
                == old(self).queue(),
    {
        if self.run_queue_count >= MAX_THREADS {
            return Err(ThreadError::SchedulerFull);
        }
        let ghost old_q = self.queue();
        let tail = self.run_queue_tail;
        self.run_queue.set(tail, Some(thread_id));
        self.run_queue_tail = (tail + 1) % MAX_THREADS;
        self.run_queue_count = self.run_queue_count + 1;
        assert(self.queue() =~= old_q.push(thread_id));
        Ok(())
    }

    /// Creates a ready thread with the next id and queues it. Fails with
    /// `MaxThreadsReached` once all ids are used, and with `SchedulerFull`
    /// (after creating the thread) when the run queue is full.
    pub fn spawn_thread(&mut self, stack_size: usize, priority: u8) -> (r: ThreadResult<ThreadId>)
        requires
            old(self).wf(),
        ensures
            final(self).wf(),
            final(self).current() == old(self).current(),
            old(self).next_id() >= MAX_THREADS ==> r == Err::<ThreadId, ThreadError>(
                ThreadError::MaxThreadsReached,
            ) && final(self).table() == old(self).table() && final(self).queue() == old(self).queue() && final(self).next_id() == old(self).next_id(),
            old(self).next_id() < MAX_THREADS ==> ({
                let id = old(self).next_id();
                &&& old(self).table()[id as int] is None
                &&& final(self).next_id() == id + 1
                &&& final(self).table() == old(self).table().update(
                    id as int,
                    Some(
                        Thread {
                            id,
                            state: ThreadState::Ready,
                            priority,
                            join_waiters: [None, None, None, None],
                            stack_size,
                        },
                    ),
                )
                &&& old(self).queue().len() < MAX_THREADS ==> r == Ok::<ThreadId, ThreadError>(id)
                    && final(self).queue() == old(self).queue().push(id)
                &&& old(self).queue().len() >= MAX_THREADS ==> r == Err::<ThreadId, ThreadError>(
                    ThreadError::SchedulerFull,
                ) && final(self).queue() == old(self).queue()
            }),
    {
        let thread_id = self.next_thread_id;
        if thread_id >= MAX_THREADS {
            return Err(ThreadError::MaxThreadsReached);
        }
        let ghost old_s = *self;
        proof {
            old_s.lemma_wf_facts();
        }
        let thread = Thread::new(thread_id, stack_size, priority);
        assert(thread.join_waiters =~= [None, None, None, None]);
        self.threads.set(thread_id, Some(thread));
        self.next_thread_id = self.next_thread_id + 1;
        assert(self.queue() =~= old_s.queue());
        assert forall|i: int, k: int|
            0 <= i < MAX_THREADS && self.threads@[i] is Some && 0 <= k < 4 && (
            #[trigger] self.threads@[i]->0.join_waiters[k]) is Some implies self.threads@[i]->0.join_waiters[k]->0
                < MAX_THREADS by {
            if i != thread_id {
                assert(self.threads@[i] == old_s.threads@[i]);
            }
        }
        self.enqueue_thread(thread_id)?;
        Ok(thread_id)
    }

    /// The running thread, if any.
    pub fn get_current_thread(&self) -> (r: Option<ThreadId>)
        requires
            self.wf(),
        ensures
            r == self.current(),
    {
        self.current_thread
    }

    /// The thread with id `thread_id`, if it exists.
    pub fn get_thread(&self, thread_id: ThreadId) -> (r: Option<&Thread>)
        requires
            self.wf(),
            thread_id < MAX_THREADS,
        ensures
            r is Some <==> self.table()[thread_id as int] is Some,
            r matches Some(t) ==> self.table()[thread_id as int] == Some(*t),
    {
        self.threads[thread_id].as_ref()
    }

    /// Checks that the CPU may switch from thread `from_id` to thread
    /// `to_id`: both must exist, else `InvalidThreadId`. The caller then
    /// exchanges the register contexts of the two threads.
    pub fn switch_context(&self, from_id: ThreadId, to_id: ThreadId) -> (r: ThreadResult<()>)
        requires
            self.wf(),
        ensures
            r is Ok <==> from_id < MAX_THREADS && to_id < MAX_THREADS && self.table()[from_id as int] is Some
                && self.table()[to_id as int] is Some,
            r is Err ==> r == Err::<(), ThreadError>(ThreadError::InvalidThreadId),
    {
        if from_id >= MAX_THREADS || to_id >= MAX_THREADS {
            return Err(ThreadError::InvalidThreadId);
        }
        if self.threads[from_id].is_none() || self.threads[to_id].is_none() {
            return Err(ThreadError::InvalidThreadId);
        }
        Ok(())
    }

    /// Exclusive access to the thread with id `thread_id`, if it exists.
    /// What is written through it lands in the table.
    pub fn get_thread_mut(&mut self, thread_id: ThreadId) -> (r: Option<&mut Thread>)
        requires
            old(self).wf(),
            thread_id < MAX_THREADS,
        ensures
            r is Some <==> old(self).table()[thread_id as int] is Some,
            r matches Some(t) ==> old(self).table()[thread_id as int] == Some(*t) && final(self).table()
                == old(self).table().update(thread_id as int, Some(*final(t))),
            r is None ==> final(self).table() == old(self).table(),
            final(self).queue() == old(self).queue(),
            final(self).current() == old(self).current(),
            final(self).next_id() == old(self).next_id(),
    {
        self.threads[thread_id].as_mut()
    }

    /// Removes and returns the oldest runnable thread of the highest runnable
    /// priority; `None` (queue unchanged) when no queued thread is runnable.
    #[verifier::rlimit(50)]
    fn schedule_with_priority(&mut self) -> (r: Option<ThreadId>)
        requires
            old(self).wf(),
        ensures
            final(self).wf(),
            r matches Some(id) ==> id < MAX_THREADS,
            final(self).table() == old(self).table(),
            final(self).current() == old(self).current(),
            final(self).next_id() == old(self).next_id(),
            pick_position(old(self).table(), old(self).queue()) == -1 ==> r is None
                && final(self).queue() == old(self).queue(),
            pick_position(old(self).table(), old(self).queue()) >= 0 ==> ({
                let p = pick_position(old(self).table(), old(self).queue());
                &&& r == Some(old(self).queue()[p])
                &&& final(self).queue() == old(self).queue().remove(p)
            }),
    {
        let ghost table = self.table();
        let ghost q = self.queue();
        proof {
            self.lemma_wf_facts();
        }
        if self.run_queue_count == 0 {
            proof {
                lemma_first_candidate_none(table, q, max_runnable_priority(table, q, 0), 0);
            }
            return None;
        }
        let count = self.run_queue_count;
        let mut highest_priority: u8 = 0;
        let mut i: usize = 0;
        while i < count
            invariant
                self.wf(),
                *self == *old(self),
                count == self.run_queue_count,
                table == self.table(),
                q == self.queue(),
                i <= count,
                highest_priority == max_runnable_priority(table, q, i as int),
            decreases count - i,
        {
            let queue_index = (self.run_queue_head + i) % MAX_THREADS;
            assert(self.run_queue@[queue_index as int] is Some);
            if let Some(thread_id) = self.run_queue[queue_index] {
                assert(thread_id == q[i as int]);
                if let Some(thread) = &self.threads[thread_id] {
                    if thread.is_runnable() && thread.priority > highest_priority {
                        highest_priority = thread.priority;
                    }
                }
            }
            i = i + 1;
        }
        let ghost p = highest_priority;
        let mut best_index: Option<usize> = None;
        let mut i: usize = 0;
        while i < count && best_index.is_none()
            invariant
                self.wf(),
                *self == *old(self),
                count == self.run_queue_count,
                table == self.table(),
                q == self.queue(),
                p == highest_priority,
                i <= count,
                best_index is None ==> forall|j: int|
                    0 <= j < i ==> !#[trigger] candidate(table, q, p, j),
                best_index matches Some(b) ==> b < count && candidate(table, q, p, b as int)
                    && forall|j: int| 0 <= j < b ==> !#[trigger] candidate(table, q, p, j),
            decreases count - i,
        {
            let queue_index = (self.run_queue_head + i) % MAX_THREADS;
            assert(self.run_queue@[queue_index as int] is Some);
            if let Some(thread_id) = self.run_queue[queue_index] {
                assert(thread_id == q[i as int]);
                if let Some(thread) = &self.threads[thread_id] {
                    if thread.is_runnable() && thread.priority == highest_priority {
                        best_index = Some(queue_index);
                    }
                }
            }
            i = i + 1;
        }
        if best_index.is_none() {
            proof {
                lemma_first_candidate_none(table, q, p, 0);
            }
            return None;
        }
        let index = best_index.unwrap();
        {
                proof {
                    lemma_first_candidate_found(table, q, p, 0, index as int);
                }
                let thread_id = self.run_queue[index].unwrap();
                assert(thread_id == q[index as int]);
                self.run_queue.set(index, None);
                let mut read_pos = (index + 1) % MAX_THREADS;
                let mut write_pos = index;
                let ghost old_rq = self.run_queue@;
                while read_pos != self.run_queue_tail
                    invariant
                        self.run_queue@.len() == MAX_THREADS,
                        self.threads == old(self).threads,
                        self.current_thread == old(self).current_thread,
                        self.next_thread_id == old(self).next_thread_id,
                        old(self).wf(),
                        q == old(self).queue(),
                        table == old(self).table(),
                        self.run_queue_count == count,
                        self.run_queue_head == 0,
                        self.run_queue_tail == count % MAX_THREADS,
                        0 < count <= MAX_THREADS,
                        index < write_pos + 1 <= count,
                        read_pos == (write_pos + 1) % (MAX_THREADS as int),
                        forall|l: int| 0 <= l < index ==> #[trigger] self.run_queue@[l] == old_rq[l],
                        forall|l: int|
                            index <= l < write_pos ==> #[trigger] self.run_queue@[l] == Some(
                                q[l + 1],
                            ),
                        forall|l: int|
                            write_pos < l < count ==> #[trigger] self.run_queue@[l] == old_rq[l],
                        forall|l: int| 0 <= l < count ==> #[trigger] old_rq[l] == if l == index {
                            None
                        } else {
                            Some(q[l])
                        },
                    decreases count - write_pos,
                {
                    let moved = self.run_queue[read_pos];
                    self.run_queue.set(write_pos, moved);
                    self.run_queue.set(read_pos, None);
                    write_pos = (write_pos + 1) % MAX_THREADS;
                    read_pos = (read_pos + 1) % MAX_THREADS;
                }
                self.run_queue_tail = write_pos;
                self.run_queue_count = self.run_queue_count - 1;
                assert(self.queue() =~= q.remove(index as int));
                Some(thread_id)
        }
    }

    /// Puts the running thread back (ready, at the back of the queue) and
    /// picks the next thread as `schedule_with_priority` does.
    pub fn schedule(&mut self) -> (r: Option<ThreadId>)
        requires
            old(self).wf(),
        ensures
            final(self).wf(),
            r matches Some(id) ==> id < MAX_THREADS,
            final(self).current() == old(self).current(),
            final(self).next_id() == old(self).next_id(),
            ({
                let (table1, q1) = requeue_current(old(self).table(), old(self).queue(), old(self).current());
                let p = pick_position(table1, q1);
                &&& -1 <= p < q1.len()
                &&& final(self).table() == table1
                &&& p == -1 ==> r is None && final(self).queue() == q1
                &&& p >= 0 ==> r == Some(q1[p]) && final(self).queue() == q1.remove(p)
            }),
    {
        let ghost old_s = *self;
        proof {
            let (table1, q1) = requeue_current(old_s.table(), old_s.queue(), old_s.current());
            lemma_pick_range(table1, q1);
        }
        if let Some(current) = self.current_thread {
            let mut running = false;
            if let Some(thread) = &self.threads[current] {
                running = thread.state == ThreadState::Running;
            }
            if running {
                let mut t = self.threads[current].unwrap();
                t.state = ThreadState::Ready;
                self.threads.set(current, Some(t));
                assert(self.queue() =~= old_s.queue());
                assert forall|i: int, k: int|
                    0 <= i < MAX_THREADS && self.threads@[i] is Some && 0 <= k < 4 && (
                    #[trigger] self.threads@[i]->0.join_waiters[k]) is Some implies self.threads@[i]->0.join_waiters[k]->0
                        < MAX_THREADS by {
                    if i != current {
                        assert(self.threads@[i] == old_s.threads@[i]);
                    } else {
                        assert(old_s.threads@[i]->0.join_waiters[k] is Some);
                    }
                }
                assert(self.table() =~= old_s.table().update(
                    current as int,
                    Some(Thread { state: ThreadState::Ready, ..old_s.table()[current as int]->0 }),
                ));
                let _ = self.enqueue_thread(current);
            }
        }
        self.schedule_with_priority()
    }

    /// Makes `thread_id` the running thread: the previous running thread
    /// becomes ready, the new one running.
    pub fn set_current_thread(&mut self, thread_id: Option<ThreadId>)
        requires
            old(self).wf(),
            thread_id matches Some(id) ==> id < MAX_THREADS,
        ensures
            final(self).wf(),
            final(self).current() == thread_id,
            final(self).table() == switch_states(old(self).table(), old(self).current(), thread_id),
            final(self).queue() == old(self).queue(),
            final(self).next_id() == old(self).next_id(),
    {
        let ghost old_s = *self;
        if let Some(old_id) = self.current_thread {
            let mut running = false;
            if let Some(thread) = &self.threads[old_id] {
                running = thread.state == ThreadState::Running;
            }
            if running {
                let mut t = self.threads[old_id].unwrap();
                t.state = ThreadState::Ready;
                self.threads.set(old_id, Some(t));
            }
        }
        let ghost mid = self.threads@;
        assert(mid =~= match old_s.current_thread {
            Some(c) => if 0 <= c < old_s.threads@.len() && old_s.threads@[c as int] is Some
                && old_s.threads@[c as int]->0.state == ThreadState::Running {
                old_s.threads@.update(
                    c as int,
                    Some(Thread { state: ThreadState::Ready, ..old_s.threads@[c as int]->0 }),
                )
            } else {
                old_s.threads@
            },
            None => old_s.threads@,
        });
        self.current_thread = thread_id;
        if let Some(new_id) = thread_id {
            if self.threads[new_id].is_some() {
                let mut t = self.threads[new_id].unwrap();
                t.state = ThreadState::Running;
                self.threads.set(new_id, Some(t));
            }
        }
        assert(self.table() =~= switch_states(old_s.table(), old_s.current(), thread_id));
        assert(self.queue() =~= old_s.queue());
        assert forall|i: int, k: int|
            0 <= i < MAX_THREADS && self.threads@[i] is Some && 0 <= k < 4 && (
            #[trigger] self.threads@[i]->0.join_waiters[k]) is Some implies self.threads@[i]->0.join_waiters[k]->0
                < MAX_THREADS by {
            assert(old_s.threads@[i] is Some);
            assert(self.threads@[i]->0.join_waiters == old_s.threads@[i]->0.join_waiters);
        }
    }

    /// Marks the running thread finished and wakes the threads blocked
    /// joining it. The current-thread record is left as is.
    pub fn exit_current_thread(&mut self)
        requires
            old(self).wf(),
        ensures
            final(self).wf(),
            final(self).current() == old(self).current(),
            final(self).next_id() == old(self).next_id(),
            old(self).current() is None ==> final(self).table() == old(self).table() && final(self).queue() == old(self).queue(),
            old(self).current() is Some ==> (final(self).table(), final(self).queue())
                == exit_effect(old(self).table(), old(self).queue(), old(self).current()->0 as int),
    {
        let ghost old_s = *self;
        if let Some(current) = self.current_thread {
            let mut waiters_to_wake: [Option<ThreadId>; 4] = [None, None, None, None];
            if self.threads[current].is_some() {
                let mut t = self.threads[current].unwrap();
                t.state = ThreadState::Finished;
                waiters_to_wake = t.join_waiters;
                self.threads.set(current, Some(t));
            }
            let ghost table1 = self.threads@;
            assert(waiters_to_wake@ =~= if old_s.threads@[current as int] is Some {
                old_s.threads@[current as int]->0.join_waiters@
            } else {
                seq![None::<ThreadId>, None, None, None]
            });
            assert(self.queue() =~= old_s.queue());
            assert forall|i: int, k: int|
                0 <= i < MAX_THREADS && self.threads@[i] is Some && 0 <= k < 4 && (
                #[trigger] self.threads@[i]->0.join_waiters[k]) is Some implies self.threads@[i]->0.join_waiters[k]->0
                    < MAX_THREADS by {
                assert(old_s.threads@[i] is Some);
                assert(self.threads@[i]->0.join_waiters == old_s.threads@[i]->0.join_waiters);
            }
            let mut k: usize = 0;
            while k < 4
                invariant
                    k <= 4,
                    self.wf(),
                    self.current_thread == old_s.current_thread,
                    self.next_thread_id == old_s.next_thread_id,
                    forall|j: int| 0 <= j < 4 && (#[trigger] waiters_to_wake@[j]) is Some ==> waiters_to_wake@[j]->0 < MAX_THREADS,
                    (self.table(), self.queue()) == wake_waiters(
                        table1,
                        old_s.queue(),
                        waiters_to_wake@,
                        k as int,
                    ),
                decreases 4 - k,
            {
                let ghost before = *self;
                if let Some(waiter) = waiters_to_wake[k] {
                    let mut blocked = false;
                    if let Some(wt) = &self.threads[waiter] {
                        blocked = wt.state == ThreadState::Blocked;
                    }
                    if blocked {
                        let mut wt = self.threads[waiter].unwrap();
                        wt.state = ThreadState::Ready;
                        self.threads.set(waiter, Some(wt));
                        assert(self.queue() =~= before.queue());
                        assert forall|i: int, k2: int|
                            0 <= i < MAX_THREADS && self.threads@[i] is Some && 0 <= k2 < 4 && (
                            #[trigger] self.threads@[i]->0.join_waiters[k2]) is Some implies self.threads@[i]->0.join_waiters[k2]->0
                                < MAX_THREADS by {
                            assert(before.threads@[i] is Some);
                            assert(self.threads@[i]->0.join_waiters
                                == before.threads@[i]->0.join_waiters);
                        }
                        let _ = self.enqueue_thread(waiter);
                    }
                }
                k = k + 1;
            }
        }
    }

    /// Registers `current_id` as waiting for `target_id` to finish and blocks
    /// it. Succeeds at once when the target has finished; fails with
    /// `InvalidThreadId` when the target does not exist and with
    /// `SchedulerFull` when its waiter slots are all taken.
    pub fn join_thread(&mut self, target_id: ThreadId, current_id: ThreadId) -> (r: ThreadResult<()>)
        requires
            old(self).wf(),
            join_registers(old(self).table(), target_id) ==> current_id < MAX_THREADS,
        ensures
            final(self).wf(),
            final(self).current() == old(self).current(),
            final(self).next_id() == old(self).next_id(),
            final(self).queue() == old(self).queue(),
            (target_id >= MAX_THREADS || old(self).table()[target_id as int] is None) ==> r
                == Err::<(), ThreadError>(ThreadError::InvalidThreadId),
            (target_id < MAX_THREADS && old(self).table()[target_id as int] is Some && old(self).table()[target_id as int]->0.state == ThreadState::Finished) ==> r == Ok::<
                (),
                ThreadError,
            >(()),
            (target_id < MAX_THREADS && old(self).table()[target_id as int] is Some && old(self).table()[target_id as int]->0.state != ThreadState::Finished && !join_registers(
                old(self).table(),
                target_id,
            )) ==> r == Err::<(), ThreadError>(ThreadError::SchedulerFull),
            !join_registers(old(self).table(), target_id) ==> final(self).table() == old(self).table(),
            join_registers(old(self).table(), target_id) ==> ({
                let t = old(self).table()[target_id as int]->0;
                let k = first_free_waiter(t.join_waiters@, 0);
                let t2 = final(self).table()[target_id as int]->0;
                &&& r == Ok::<(), ThreadError>(())
                &&& final(self).table()[target_id as int] is Some
                &&& t2.join_waiters@ == t.join_waiters@.update(k, Some(current_id))
                &&& t2.id == t.id && t2.priority == t.priority && t2.stack_size == t.stack_size
                &&& t2.state == if current_id == target_id {
                    ThreadState::Blocked
                } else {
                    t.state
                }
                &&& current_id != target_id && old(self).table()[current_id as int] is Some ==> final(self).table()[current_id as int] == Some(
                    Thread { state: ThreadState::Blocked, ..old(self).table()[current_id as int]->0 },
                )
                &&& current_id != target_id && old(self).table()[current_id as int] is None ==> final(self).table()[current_id as int] is None
                &&& forall|j: int|
                    0 <= j < MAX_THREADS && j != target_id && j != current_id ==> #[trigger] final(self).table()[j] == old(self).table()[j]
            }),
    {
        if target_id >= MAX_THREADS {
            return Err(ThreadError::InvalidThreadId);
        }
        if self.threads[target_id].is_none() {
            return Err(ThreadError::InvalidThreadId);
        }
        let ghost old_s = *self;
        let mut t = self.threads[target_id].unwrap();
        if t.state == ThreadState::Finished {
            return Ok(());
        }
        let mut k: usize = 0;
        while k < 4 && t.join_waiters[k].is_some()
            invariant
                k <= 4,
                t == old_s.threads@[target_id as int]->0,
                forall|j: int| 0 <= j < k ==> #[trigger] t.join_waiters@[j] is Some,
            decreases 4 - k,
        {
            k = k + 1;
        }
        proof {
            lemma_first_free_waiter(t.join_waiters@, 0, k as int);
        }
        if k == 4 {
            return Err(ThreadError::SchedulerFull);
        }
        t.join_waiters[k] = Some(current_id);
        self.threads.set(target_id, Some(t));
        if self.threads[current_id].is_some() {
            let mut c = self.threads[current_id].unwrap();
            c.state = ThreadState::Blocked;
            self.threads.set(current_id, Some(c));
        }
        assert(self.queue() =~= old_s.queue());
        assert forall|i: int, k2: int|
            0 <= i < MAX_THREADS && self.threads@[i] is Some && 0 <= k2 < 4 && (
            #[trigger] self.threads@[i]->0.join_waiters[k2]) is Some implies self.threads@[i]->0.join_waiters[k2]->0
                < MAX_THREADS by {
            if i != target_id {
                assert(old_s.threads@[i] is Some);
                assert(self.threads@[i]->0.join_waiters == old_s.threads@[i]->0.join_waiters);
            } else {
                if k2 != k {
                    assert(t.join_waiters@[k2] == old_s.threads@[i]->0.join_waiters@[k2]);
                    assert(old_s.threads@[i]->0.join_waiters[k2] is Some);
                }
            }
        }
        Ok(())
    }
}

/// Holder of the process-wide scheduler.
pub struct SchedulerCell {
    scheduler: Scheduler,
}

impl SchedulerCell {
    /// A cell holding an empty scheduler.
    pub fn new() -> (c: Self)
        ensures
            c.inner().wf(),
            c.inner().queue() == Seq::<ThreadId>::empty(),
            c.inner().current() is None,
            c.inner().next_id() == 0,
    {
        SchedulerCell { scheduler: Scheduler::new() }
    }

    /// The scheduler held.
    pub closed spec fn inner(&self) -> Scheduler {
        self.scheduler
    }

    /// Exclusive access to the scheduler held.
    pub fn get(&mut self) -> (s: &mut Scheduler)
        ensures
            *s == old(self).inner(),
            final(self).inner() == *final(s),
    {
        &mut self.scheduler
    }
}


proof fn lemma_max_runnable_bound(table: Seq<Option<Thread>>, q: Seq<ThreadId>, n: int)
    requires
        0 <= n <= q.len(),
    ensures
        forall|i: int|
            0 <= i < n && runnable(table, #[trigger] q[i] as int) ==> priority_of(table, q[i] as int)
                <= max_runnable_priority(table, q, n),
    decreases n,
{
    if n > 0 {
        lemma_max_runnable_bound(table, q, n - 1);
    }
}

proof fn lemma_max_runnable_attained(table: Seq<Option<Thread>>, q: Seq<ThreadId>, n: int, w: int)
    requires
        0 <= w < n <= q.len(),
        runnable(table, q[w] as int),
    ensures
        exists|i: int| 0 <= i < n && #[trigger] candidate(table, q, max_runnable_priority(table, q, n), i),
    decreases n,
{
    let m = max_runnable_priority(table, q, n - 1);
    if w < n - 1 {
        lemma_max_runnable_attained(table, q, n - 1, w);
        let i = choose|i: int| 0 <= i < n - 1 && #[trigger] candidate(table, q, m, i);
        if runnable(table, q[n - 1] as int) && priority_of(table, q[n - 1] as int) > m {
            assert(candidate(table, q, max_runnable_priority(table, q, n), n - 1));
        } else {
            assert(candidate(table, q, max_runnable_priority(table, q, n), i));
        }
    } else {
        lemma_max_runnable_bound(table, q, n - 1);
        if runnable(table, q[n - 1] as int) && priority_of(table, q[n - 1] as int) > m {
            assert(candidate(table, q, max_runnable_priority(table, q, n), n - 1));
        } else if exists|i: int| 0 <= i < n - 1 && runnable(table, #[trigger] q[i] as int) {
            let j = choose|i: int| 0 <= i < n - 1 && runnable(table, #[trigger] q[i] as int);
            lemma_max_runnable_attained(table, q, n - 1, j);
            let i = choose|i: int| 0 <= i < n - 1 && #[trigger] candidate(table, q, m, i);
            assert(candidate(table, q, max_runnable_priority(table, q, n), i));
        } else {
            lemma_max_runnable_none(table, q, n - 1);
            assert(candidate(table, q, max_runnable_priority(table, q, n), n - 1));
        }
    }
}

proof fn lemma_max_runnable_none(table: Seq<Option<Thread>>, q: Seq<ThreadId>, n: int)
    requires
        0 <= n <= q.len(),
        forall|i: int| 0 <= i < n ==> !runnable(table, #[trigger] q[i] as int),
    ensures
        max_runnable_priority(table, q, n) == 0,
    decreases n,
{
    if n > 0 {
        lemma_max_runnable_none(table, q, n - 1);
    }
}

proof fn lemma_first_candidate_props(table: Seq<Option<Thread>>, q: Seq<ThreadId>, p: u8, k: int)
    requires
        0 <= k <= q.len(),
    ensures
        first_candidate(table, q, p, k) == -1 ==> forall|j: int|
            k <= j < q.len() ==> !#[trigger] candidate(table, q, p, j),
        first_candidate(table, q, p, k) != -1 ==> {
            let f = first_candidate(table, q, p, k);
            &&& k <= f < q.len()
            &&& candidate(table, q, p, f)
            &&& forall|j: int| k <= j < f ==> !#[trigger] candidate(table, q, p, j)
        },
    decreases q.len() - k,
{
    if k < q.len() {
        lemma_first_candidate_props(table, q, p, k + 1);
    }
}

/// The rule by which `schedule` picks among the queued threads: nothing is
/// picked exactly when no queued thread is ready; otherwise the pick is a
/// ready thread, no queued ready thread has a higher priority, and every
/// ready thread queued before it has a lower priority (first come, first
/// served within a priority).
pub proof fn law_pick_highest_priority_first(table: Seq<Option<Thread>>, q: Seq<ThreadId>)
    ensures
        pick_position(table, q) == -1 <==> forall|i: int|
            0 <= i < q.len() ==> !runnable(table, #[trigger] q[i] as int),
        pick_position(table, q) >= 0 ==> {
            let p = pick_position(table, q);
            let id = q[p] as int;
            &&& runnable(table, id)
            &&& forall|i: int|
                0 <= i < q.len() && runnable(table, #[trigger] q[i] as int) ==> priority_of(table, q[i] as int)
                    <= priority_of(table, id)
            &&& forall|j: int|
                0 <= j < p && runnable(table, #[trigger] q[j] as int) ==> priority_of(table, q[j] as int)
                    < priority_of(table, id)
        },
{
    let n = q.len() as int;
    let m = max_runnable_priority(table, q, n);
    lemma_max_runnable_bound(table, q, n);
    lemma_first_candidate_props(table, q, m, 0);
    if exists|i: int| 0 <= i < n && runnable(table, #[trigger] q[i] as int) {
        let w = choose|i: int| 0 <= i < n && runnable(table, #[trigger] q[i] as int);
        lemma_max_runnable_attained(table, q, n, w);
        let i = choose|i: int| 0 <= i < n && #[trigger] candidate(table, q, m, i);
        assert(pick_position(table, q) != -1) by {
            if first_candidate(table, q, m, 0) == -1 {
                assert(!candidate(table, q, m, i));
            }
        }
    }
    if pick_position(table, q) >= 0 {
        let p = pick_position(table, q);
        assert forall|j: int|
            0 <= j < p && runnable(table, #[trigger] q[j] as int) implies priority_of(table, q[j] as int)
            < priority_of(table, q[p] as int) by {
            assert(!candidate(table, q, m, j));
        }
    }
}

/// Scheduling puts the running thread back: a thread `c` in state
/// `Running` becomes ready, keeping everything else, and joins the back of
/// the queue (when it has room); no other thread changes. So when every
/// ready thread in the queue has a priority strictly below `c`'s, `c` is
/// picked again and keeps the processor.
pub proof fn law_running_thread_requeued(table: Seq<Option<Thread>>, q: Seq<ThreadId>, c: ThreadId)
    requires
        c < table.len(),
        table[c as int] is Some,
        table[c as int]->0.state == ThreadState::Running,
        q.len() < MAX_THREADS,
    ensures
        ({
            let (t1, q1) = requeue_current(table, q, Some(c));
            &&& t1.len() == table.len()
            &&& t1[c as int] is Some
            &&& t1[c as int]->0.state == ThreadState::Ready
            &&& t1[c as int]->0.id == table[c as int]->0.id
            &&& t1[c as int]->0.priority == table[c as int]->0.priority
            &&& t1[c as int]->0.join_waiters == table[c as int]->0.join_waiters
            &&& t1[c as int]->0.stack_size == table[c as int]->0.stack_size
            &&& forall|i: int| 0 <= i < table.len() && i != c ==> #[trigger] t1[i] == table[i]
            &&& q1.len() == q.len() + 1
            &&& q1[q.len() as int] == c
            &&& forall|i: int| 0 <= i < q.len() ==> #[trigger] q1[i] == q[i]
            &&& (forall|i: int|
                0 <= i < q.len() && runnable(table, #[trigger] q[i] as int) ==> priority_of(table, q[i] as int)
                    < table[c as int]->0.priority) ==> {
                let p = pick_position(t1, q1);
                &&& 0 <= p < q1.len()
                &&& q1[p] == c
            }
        }),
{
    let (t1, q1) = requeue_current(table, q, Some(c));
    assert(q1 == q.push(c));
    if forall|i: int|
        0 <= i < q.len() && runnable(table, #[trigger] q[i] as int) ==> priority_of(table, q[i] as int)
            < table[c as int]->0.priority {
        law_pick_highest_priority_first(t1, q1);
        lemma_pick_range(t1, q1);
        let k = q.len() as int;
        assert(q1[k] == c);
        assert(runnable(t1, q1[k] as int));
        let p = pick_position(t1, q1);
        assert(p != -1);
        let id = q1[p] as int;
        assert(0 <= p < q1.len());
        assert(runnable(t1, id));
        assert(priority_of(t1, q1[k] as int) <= priority_of(t1, id));
        assert(0 <= id < table.len());
        if id != c {
            assert(t1[id] == table[id]);
            assert(runnable(table, id));
            assert(p < q.len());
            assert(q1[p] == q[p]);
            assert(priority_of(table, q[p] as int) < table[c as int]->0.priority);
        }
    }
}

/// Exiting a thread marks it finished, so a later join of it returns at
/// once without registering a waiter.
pub proof fn law_exit_then_join(table: Seq<Option<Thread>>, q: Seq<ThreadId>, c: ThreadId)
    requires
        c < table.len(),
        table[c as int] is Some,
    ensures
        exit_effect(table, q, c as int).0[c as int] is Some,
        exit_effect(table, q, c as int).0[c as int]->0.state == ThreadState::Finished,
        !join_registers(exit_effect(table, q, c as int).0, c),
{
    let table1 = table.update(c as int, Some(Thread { state: ThreadState::Finished, ..table[c as int]->0 }));
    lemma_wake_waiters_frame(table1, q, table[c as int]->0.join_waiters@, 4);
}

/// Whether slot `w` of `table` holds a blocked thread.
pub open spec fn blocked_in(table: Seq<Option<Thread>>, w: int) -> bool {
    0 <= w < table.len() && table[w] is Some && table[w]->0.state == ThreadState::Blocked
}

/// The threads that waking the first `k` of `waiters` turns ready, in the
/// order they are queued: each waiter whose slot holds a blocked thread,
/// once.
pub open spec fn woken(table: Seq<Option<Thread>>, waiters: Seq<Option<ThreadId>>, k: int) -> Seq<ThreadId>
    decreases k,
{
    if k <= 0 {
        Seq::empty()
    } else {
        let prev = woken(table, waiters, k - 1);
        if waiters[k - 1] is Some && blocked_in(table, waiters[k - 1]->0 as int) && !prev.contains(
            waiters[k - 1]->0,
        ) {
            prev.push(waiters[k - 1]->0)
        } else {
            prev
        }
    }
}

/// Waking the first `k` of `waiters`, with room in the queue, turns exactly
/// the threads of `woken` ready and appends them to the queue in order.
proof fn lemma_wake_waiters_woken(
    table: Seq<Option<Thread>>,
    q: Seq<ThreadId>,
    waiters: Seq<Option<ThreadId>>,
    k: int,
)
    requires
        0 <= k <= waiters.len(),
        q.len() + woken(table, waiters, k).len() <= MAX_THREADS,
        table.len() <= MAX_THREADS,
    ensures
        woken(table, waiters, k).len() <= k,
        wake_waiters(table, q, waiters, k).1 == q + woken(table, waiters, k),
        wake_waiters(table, q, waiters, k).0.len() == table.len(),
        forall|i: int|
            0 <= i < table.len() ==> #[trigger] wake_waiters(table, q, waiters, k).0[i] == if woken(
                table,
                waiters,
                k,
            ).contains(i as ThreadId) {
                Some(Thread { state: ThreadState::Ready, ..table[i]->0 })
            } else {
                table[i]
            },
        forall|w: ThreadId| #[trigger] woken(table, waiters, k).contains(w) ==> blocked_in(table, w as int) && exists|j: int|
            0 <= j < k && waiters[j] == Some(w),
        forall|j: int|
            0 <= j < k && (#[trigger] waiters[j]) is Some && blocked_in(table, waiters[j]->0 as int)
                ==> woken(table, waiters, k).contains(waiters[j]->0),
    decreases k,
{
    if k > 0 {
        assert(woken(table, waiters, k - 1).len() <= woken(table, waiters, k).len());
        lemma_wake_waiters_woken(table, q, waiters, k - 1);
        let prev = woken(table, waiters, k - 1);
        let (tb, qq) = wake_waiters(table, q, waiters, k - 1);
        let cur = woken(table, waiters, k);
        if waiters[k - 1] is Some {
            let w = waiters[k - 1]->0;
            if 0 <= w < table.len() {
                assert(tb[w as int] == if prev.contains(w as ThreadId) {
                    Some(Thread { state: ThreadState::Ready, ..table[w as int]->0 })
                } else {
                    table[w as int]
                });
            }
            if blocked_in(table, w as int) && !prev.contains(w) {
                assert(cur == prev.push(w));
                assert(q + cur == (q + prev).push(w));
                assert forall|v: ThreadId| #[trigger] cur.contains(v) implies blocked_in(table, v as int) && exists|j: int|
                    0 <= j < k && waiters[j] == Some(v) by {
                    if v != w {
                        let x = choose|x: int| 0 <= x < cur.len() && cur[x] == v;
                        assert(prev[x] == cur[x]);
                        assert(prev.contains(v));
                        let j0 = choose|j: int| 0 <= j < k - 1 && waiters[j] == Some(v);
                        assert(0 <= j0 < k && waiters[j0] == Some(v));
                    } else {
                        assert(waiters[k - 1] == Some(v));
                    }
                }
                assert forall|j: int|
                    0 <= j < k && (#[trigger] waiters[j]) is Some && blocked_in(table, waiters[j]->0 as int)
                        implies cur.contains(waiters[j]->0) by {
                    if j < k - 1 {
                        assert(prev.contains(waiters[j]->0));
                        let x = choose|x: int| 0 <= x < prev.len() && prev[x] == waiters[j]->0;
                        assert(cur[x] == prev[x]);
                    } else {
                        assert(cur[cur.len() - 1] == w);
                    }
                }
                assert forall|i: int| 0 <= i < table.len() implies #[trigger] wake_waiters(table, q, waiters, k).0[i]
                    == if cur.contains(i as ThreadId) {
                    Some(Thread { state: ThreadState::Ready, ..table[i]->0 })
                } else {
                    table[i]
                } by {
                    if i != w {
                        assert((i as ThreadId) as int == i);
                        assert(cur.contains(i as ThreadId) == prev.contains(i as ThreadId)) by {
                            if cur.contains(i as ThreadId) {
                                let x = choose|x: int| 0 <= x < cur.len() && cur[x] == i as ThreadId;
                                if x < prev.len() {
                                    assert(prev[x] == cur[x]);
                                } else {
                                    assert(cur[x] == w);
                                }
                            }
                            if prev.contains(i as ThreadId) {
                                let x = choose|x: int| 0 <= x < prev.len() && prev[x] == i as ThreadId;
                                assert(cur[x] == prev[x]);
                            }
                        }
                    } else {
                        assert(cur[cur.len() - 1] == w);
                    }
                }
            } else {
                assert(cur == prev);
                assert forall|j: int|
                    0 <= j < k && (#[trigger] waiters[j]) is Some && blocked_in(table, waiters[j]->0 as int)
                        implies cur.contains(waiters[j]->0) by {
                    if j < k - 1 {
                        assert(prev.contains(waiters[j]->0));
                    }
                }
                assert forall|v: ThreadId| #[trigger] cur.contains(v) implies blocked_in(table, v as int) && exists|j: int|
                    0 <= j < k && waiters[j] == Some(v) by {
                    let j0 = choose|j: int| 0 <= j < k - 1 && waiters[j] == Some(v);
                    assert(0 <= j0 < k && waiters[j0] == Some(v));
                }
            }
        } else {
            assert(cur == prev);
            assert forall|v: ThreadId| #[trigger] cur.contains(v) implies blocked_in(table, v as int) && exists|j: int|
                0 <= j < k && waiters[j] == Some(v) by {
                let j0 = choose|j: int| 0 <= j < k - 1 && waiters[j] == Some(v);
                assert(0 <= j0 < k && waiters[j0] == Some(v));
            }
        }
    }
}

/// What the exit of thread `c` does, with room in the run queue for the
/// threads it wakes: `c` is finished; each of its join waiters whose thread
/// was blocked (other than `c`) is now ready and appended to the run queue,
/// in waiter-slot order and once; no other thread changes.
pub proof fn law_exit_wakes_blocked_waiters(table: Seq<Option<Thread>>, q: Seq<ThreadId>, c: ThreadId)
    requires
        table.len() == MAX_THREADS,
        c < table.len(),
        table[c as int] is Some,
        q.len() + woken(
            table.update(c as int, Some(Thread { state: ThreadState::Finished, ..table[c as int]->0 })),
            table[c as int]->0.join_waiters@,
            4,
        ).len() <= MAX_THREADS,
    ensures
        ({
            let (t2, q2) = exit_effect(table, q, c as int);
            let w = table[c as int]->0.join_waiters@;
            let table1 = table.update(c as int, Some(Thread { state: ThreadState::Finished, ..table[c as int]->0 }));
            let ws = woken(table1, w, 4);
            &&& t2.len() == table.len()
            &&& t2[c as int] == Some(Thread { state: ThreadState::Finished, ..table[c as int]->0 })
            &&& q2 == q + ws
            &&& forall|i: int|
                0 <= i < table.len() && i != c ==> #[trigger] t2[i] == if ws.contains(i as ThreadId) {
                    Some(Thread { state: ThreadState::Ready, ..table[i]->0 })
                } else {
                    table[i]
                }
            &&& forall|v: ThreadId| #[trigger] ws.contains(v) ==> v != c && blocked_in(table, v as int) && exists|j: int|
                0 <= j < 4 && w[j] == Some(v)
            &&& forall|j: int|
                0 <= j < 4 && (#[trigger] w[j]) is Some && w[j]->0 != c && blocked_in(table, w[j]->0 as int)
                    ==> ws.contains(w[j]->0)
        }),
{
    let w = table[c as int]->0.join_waiters@;
    let table1 = table.update(c as int, Some(Thread { state: ThreadState::Finished, ..table[c as int]->0 }));
    lemma_wake_waiters_woken(table1, q, w, 4);
    let ws = woken(table1, w, 4);
    assert forall|v: ThreadId| #[trigger] ws.contains(v) implies v != c && blocked_in(table, v as int) by {
        assert(blocked_in(table1, v as int));
    }
    assert forall|j: int|
        0 <= j < 4 && (#[trigger] w[j]) is Some && w[j]->0 != c && blocked_in(table, w[j]->0 as int)
            implies ws.contains(w[j]->0) by {
        assert(blocked_in(table1, w[j]->0 as int));
    }
    assert(!ws.contains(c)) by {
        if ws.contains(c) {
            assert(blocked_in(table1, c as int));
        }
    }
}

} // verus!
