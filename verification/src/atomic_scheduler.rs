use vstd::prelude::*;
use crate::bits::{bit_set, lemma_clear_bit, lemma_set_bit, lemma_small_bitmap, lemma_zero_bits};
use crate::error::{ThreadError, ThreadResult};
use crate::thread::{Thread, ThreadId, ThreadState, MAX_THREADS};

verus! {

/// Number of slots of a ring buffer; one slot always stays free.
pub const RING_SLOTS: usize = 32;

/// Number of priority levels of the priority queue.
pub const PRIORITY_LEVELS: usize = 8;

/// Value of a ring slot that holds no thread.
pub const EMPTY_SLOT: usize = usize::MAX;

/// Bounded FIFO ring of thread ids.
pub struct CircularBuffer {
    buffer: Vec<usize>,
    head: usize,
    tail: usize,
}

impl View for CircularBuffer {
    type V = Seq<usize>;

    /// The queued ids, oldest first.
    closed spec fn view(&self) -> Seq<usize> {
        Seq::new(
            ((self.tail + RING_SLOTS - self.head) % (RING_SLOTS as int)) as nat,
            |i: int| self.buffer@[(self.head + i) % (RING_SLOTS as int)],
        )
    }
}

impl CircularBuffer {
    /// Well-formedness: the ring has all its slots, the indices are in range
    /// and no queued id is the empty-slot marker.
    pub closed spec fn wf(&self) -> bool {
        &&& self.buffer@.len() == RING_SLOTS
        &&& self.head < RING_SLOTS
        &&& self.tail < RING_SLOTS
        &&& forall|i: int| 0 <= i < self@.len() ==> #[trigger] self@[i] != EMPTY_SLOT
    }

    /// The view never holds more than `RING_SLOTS - 1` ids.
    pub proof fn lemma_len_bound(&self)
        requires
            self.wf(),
        ensures
            self@.len() < RING_SLOTS,
    {
    }

    /// An empty ring.
    pub fn new() -> (b: Self)
        ensures
            b.wf(),
            b@ == Seq::<usize>::empty(),
    {
        let mut buffer: Vec<usize> = Vec::new();
        let mut i: usize = 0;
        while i < RING_SLOTS
            invariant
                i <= RING_SLOTS,
                buffer@.len() == i,
            decreases RING_SLOTS - i,
        {
            buffer.push(EMPTY_SLOT);
            i = i + 1;
        }
        let b = CircularBuffer { buffer, head: 0, tail: 0 };
        assert(b@ =~= Seq::<usize>::empty());
        b
    }

    /// Appends `thread_id` at the back; refuses when the ring is full.
    #[verifier::rlimit(40)]
    pub fn enqueue(&mut self, thread_id: ThreadId) -> (ok: bool)
        requires
            old(self).wf(),
            thread_id != EMPTY_SLOT,
        ensures
            final(self).wf(),
            ok == (old(self)@.len() + 1 < RING_SLOTS),
            ok ==> final(self)@ == old(self)@.push(thread_id),
            !ok ==> final(self)@ == old(self)@,
    {
        let next_tail = (self.tail + 1) % RING_SLOTS;
        if next_tail == self.head {
            return false;
        }
        let ghost old_view = self@;
        let t = self.tail;
        self.buffer.set(t, thread_id);
        self.tail = next_tail;
        assert forall|i: int| 0 <= i < old_view.len() implies #[trigger] self@[i] == old_view[i] by {
            assert((self.head + i) % (RING_SLOTS as int) != t as int);
        }
        assert(self@ =~= old_view.push(thread_id));
        true
    }

    /// Removes and returns the oldest id, or `None` when the ring is empty.
    pub fn dequeue(&mut self) -> (r: Option<ThreadId>)
        requires
            old(self).wf(),
        ensures
            final(self).wf(),
            old(self)@.len() == 0 ==> r is None && final(self)@ == old(self)@,
            old(self)@.len() > 0 ==> r == Some(old(self)@[0]) && final(self)@
                == old(self)@.drop_first(),
    {
        if self.head == self.tail {
            return None;
        }
        let ghost old_view = self@;
        let h = self.head;
        let thread_id = self.buffer[h];
        assert(thread_id == old_view[0]);
        self.buffer.set(h, EMPTY_SLOT);
        self.head = (h + 1) % RING_SLOTS;
        assert forall|i: int| 0 <= i < self@.len() implies #[trigger] self@[i] == old_view[i + 1] by {
            assert((self.head + i) % (RING_SLOTS as int) != h as int);
            assert((self.head + i) % (RING_SLOTS as int) == (h + i + 1) % (RING_SLOTS as int));
        }
        assert(self@ =~= old_view.drop_first());
        Some(thread_id)
    }

    /// Whether no id is queued.
    pub fn is_empty(&self) -> (r: bool)
        requires
            self.wf(),
        ensures
            r == (self@.len() == 0),
    {
        self.head == self.tail
    }
}

/// Index of the highest level among the first `n` whose queue is not empty,
/// or -1 when all of them are empty.
pub open spec fn highest_nonempty(levels: Seq<Seq<usize>>, n: int) -> int
    decreases n,
{
    if n <= 0 {
        -1
    } else if levels[n - 1].len() > 0 {
        n - 1
    } else {
        highest_nonempty(levels, n - 1)
    }
}

/// The level a thread of priority `priority` is queued at.
pub open spec fn priority_level(priority: u8) -> int {
    if priority as int >= PRIORITY_LEVELS as int {
        PRIORITY_LEVELS as int - 1
    } else {
        priority as int
    }
}

/// `highest_nonempty` finds a non-empty level that no higher level beats.
pub proof fn lemma_highest_nonempty(levels: Seq<Seq<usize>>, n: int)
    requires
        0 <= n <= levels.len(),
    ensures
        -1 <= highest_nonempty(levels, n) < n,
        highest_nonempty(levels, n) >= 0 ==> levels[highest_nonempty(levels, n)].len() > 0,
        forall|k: int|
            highest_nonempty(levels, n) < k < n ==> #[trigger] levels[k].len() == 0,
    decreases n,
{
    if n > 0 {
        lemma_highest_nonempty(levels, n - 1);
    }
}

/// A level with a non-empty queue and only empty queues above it is the
/// highest non-empty level.
proof fn lemma_highest_is(levels: Seq<Seq<usize>>, n: int, l: int)
    requires
        0 <= l < n <= levels.len(),
        levels[l].len() > 0,
        forall|k: int| l < k < n ==> #[trigger] levels[k].len() == 0,
    ensures
        highest_nonempty(levels, n) == l,
    decreases n,
{
    if n - 1 > l {
        assert(levels[n - 1].len() == 0);
        lemma_highest_is(levels, n - 1, l);
    }
}

/// All levels empty means there is no highest non-empty level.
proof fn lemma_highest_none(levels: Seq<Seq<usize>>, n: int)
    requires
        0 <= n <= levels.len(),
        forall|k: int| 0 <= k < n ==> #[trigger] levels[k].len() == 0,
    ensures
        highest_nonempty(levels, n) == -1,
    decreases n,
{
    if n > 0 {
        assert(levels[n - 1].len() == 0);
        lemma_highest_none(levels, n - 1);
    }
}

/// The highest set bit of a non-zero byte-sized bitmap is bit
/// `31 - leading_zeros`.
proof fn lemma_top_bit(b: u32)
    requires
        b != 0,
        b < 256,
    ensures
        24 <= b.leading_zeros() < 32,
        bit_set(b, (31 - b.leading_zeros()) as u32),
        forall|j: u32| (31 - b.leading_zeros()) < j < 32 ==> !#[trigger] bit_set(b, j),
{
    vstd::std_specs::bits::axiom_u32_leading_zeros(b);
    lemma_small_bitmap(b, 0);
    let lz = b.leading_zeros();
    let t = (31 - lz) as u32;
    assert((b >> t) & 1u32 != 0u32);
    assert((b >> t) & 1u32 == 1u32) by (bit_vector)
        requires
            (b >> t) & 1u32 != 0u32,
    ;
    assert forall|j: u32| (31 - lz) < j < 32 implies !#[trigger] bit_set(b, j) by {
        assert((b >> j) & 1u32 == 0u32);
    }
    if lz < 24 {
        assert(!bit_set(b, t));
    }
}

/// Priority queue of thread ids: one FIFO ring per priority level and a
/// bitmap of the levels that hold ids.
pub struct PriorityQueue {
    queues: Vec<CircularBuffer>,
    priority_bitmap: u32,
}

impl View for PriorityQueue {
    type V = Seq<Seq<usize>>;

    /// The queued ids of each level, oldest first.
    closed spec fn view(&self) -> Seq<Seq<usize>> {
        Seq::new(PRIORITY_LEVELS as nat, |i: int| self.queues@[i]@)
    }
}

impl PriorityQueue {
    /// Well-formedness: one well-formed ring per level, and bit `i` of the
    /// bitmap is set exactly when level `i` holds an id.
    pub closed spec fn wf(&self) -> bool {
        &&& self.queues@.len() == PRIORITY_LEVELS
        &&& forall|i: int| 0 <= i < PRIORITY_LEVELS ==> #[trigger] self.queues@[i].wf()
        &&& self.priority_bitmap < 256
        &&& forall|i: int|
            0 <= i < PRIORITY_LEVELS ==> (bit_set(self.priority_bitmap, i as u32)
                <==> #[trigger] self.queues@[i]@.len() > 0)
    }

    /// A well-formed queue has `PRIORITY_LEVELS` levels, each holding fewer
    /// than `RING_SLOTS` ids.
    pub proof fn lemma_view_facts(&self)
        requires
            self.wf(),
        ensures
            self@.len() == PRIORITY_LEVELS,
            forall|i: int| 0 <= i < PRIORITY_LEVELS ==> #[trigger] self@[i].len() < RING_SLOTS,
    {
        assert forall|i: int| 0 <= i < PRIORITY_LEVELS implies #[trigger] self@[i].len()
            < RING_SLOTS by {
            self.queues@[i].lemma_len_bound();
        }
    }

    /// An empty queue.
    pub fn new() -> (q: Self)
        ensures
            q.wf(),
            q@ == Seq::new(PRIORITY_LEVELS as nat, |i: int| Seq::<usize>::empty()),
    {
        let mut queues: Vec<CircularBuffer> = Vec::new();
        let mut i: usize = 0;
        while i < PRIORITY_LEVELS
            invariant
                i <= PRIORITY_LEVELS,
                queues@.len() == i,
                forall|k: int| 0 <= k < i ==> (#[trigger] queues@[k]).wf(),
                forall|k: int| 0 <= k < i ==> (#[trigger] queues@[k])@ == Seq::<usize>::empty(),
            decreases PRIORITY_LEVELS - i,
        {
            queues.push(CircularBuffer::new());
            i = i + 1;
        }
        let q = PriorityQueue { queues, priority_bitmap: 0 };
        proof {
            lemma_zero_bits(0u32);
            assert forall|i: int| 0 <= i < PRIORITY_LEVELS implies (bit_set(
                q.priority_bitmap,
                i as u32,
            ) <==> #[trigger] q.queues@[i]@.len() > 0) by {
                assert(!bit_set(0u32, i as u32));
            }
        }
        assert(q@ =~= Seq::new(PRIORITY_LEVELS as nat, |i: int| Seq::<usize>::empty()));
        q
    }

    /// Queues `thread_id` at the level of `priority` (priorities above the
    /// top level go to the top level); refuses when that level is full.
    pub fn enqueue(&mut self, thread_id: ThreadId, priority: u8) -> (ok: bool)
        requires
            old(self).wf(),
            thread_id != EMPTY_SLOT,
        ensures
            final(self).wf(),
            ok == (old(self)@[priority_level(priority)].len() + 1 < RING_SLOTS),
            ok ==> final(self)@ == old(self)@.update(
                priority_level(priority),
                old(self)@[priority_level(priority)].push(thread_id),
            ),
            !ok ==> final(self)@ == old(self)@,
    {
        let level: usize = if (priority as usize) < PRIORITY_LEVELS - 1 {
            priority as usize
        } else {
            PRIORITY_LEVELS - 1
        };
        let ghost old_q = *self;
        let ok = self.queues[level].enqueue(thread_id);
        if ok {
            let old_bitmap = self.priority_bitmap;
            self.priority_bitmap = self.priority_bitmap | (1u32 << (level as u32));
            proof {
                lemma_small_bitmap(old_bitmap, level as u32);
                assert forall|i: int| 0 <= i < PRIORITY_LEVELS implies (bit_set(
                    self.priority_bitmap,
                    i as u32,
                ) <==> #[trigger] self.queues@[i]@.len() > 0) by {
                    lemma_set_bit(old_bitmap, level as u32, i as u32);
                    if i != level as int {
                        assert(self.queues@[i] == old_q.queues@[i]);
                    }
                }
            }
        }
        assert forall|i: int| 0 <= i < PRIORITY_LEVELS && i != level as int implies #[trigger] self.queues@[i]
            == old_q.queues@[i] by {}
        if ok {
            assert(self@ =~= old_q@.update(level as int, old_q@[level as int].push(thread_id)));
        } else {
            assert(self@ =~= old_q@);
        }
        ok
    }

    /// Removes and returns the oldest id of the highest non-empty level, or
    /// `None` when every level is empty.
    pub fn dequeue(&mut self) -> (r: Option<ThreadId>)
        requires
            old(self).wf(),
        ensures
            final(self).wf(),
            highest_nonempty(old(self)@, PRIORITY_LEVELS as int) == -1 ==> r is None
                && final(self)@ == old(self)@,
            highest_nonempty(old(self)@, PRIORITY_LEVELS as int) >= 0 ==> ({
                let l = highest_nonempty(old(self)@, PRIORITY_LEVELS as int);
                &&& r == Some(old(self)@[l][0])
                &&& final(self)@ == old(self)@.update(l, old(self)@[l].drop_first())
            }),
    {
        let ghost old_q = *self;
        let bitmap = self.priority_bitmap;
        if bitmap == 0 {
            proof {
                lemma_zero_bits(bitmap);
                assert forall|k: int| 0 <= k < PRIORITY_LEVELS implies #[trigger] old_q@[k].len()
                    == 0 by {
                    assert(!bit_set(bitmap, k as u32));
                }
                lemma_highest_none(old_q@, PRIORITY_LEVELS as int);
            }
            return None;
        }
        let lz = bitmap.leading_zeros();
        proof {
            lemma_top_bit(bitmap);
        }
        let level = (31 - lz) as usize;
        proof {
            assert(old_q@[level as int].len() > 0);
            assert forall|k: int| level < k < PRIORITY_LEVELS implies #[trigger] old_q@[k].len()
                == 0 by {
                assert(!bit_set(bitmap, k as u32));
            }
            lemma_highest_is(old_q@, PRIORITY_LEVELS as int, level as int);
        }
        let r = self.queues[level].dequeue();
        let thread_id = match r {
            Some(id) => id,
            None => {
                assert(false);
                return None;
            },
        };
        if self.queues[level].is_empty() {
            self.priority_bitmap = bitmap & !(1u32 << (level as u32));
            proof {
                lemma_small_bitmap(bitmap, level as u32);
                assert forall|i: int| 0 <= i < PRIORITY_LEVELS implies (bit_set(
                    self.priority_bitmap,
                    i as u32,
                ) <==> #[trigger] self.queues@[i]@.len() > 0) by {
                    lemma_clear_bit(bitmap, level as u32, i as u32);
                    if i != level as int {
                        assert(self.queues@[i] == old_q.queues@[i]);
                    }
                }
            }
        } else {
            assert forall|i: int| 0 <= i < PRIORITY_LEVELS implies (bit_set(
                self.priority_bitmap,
                i as u32,
            ) <==> #[trigger] self.queues@[i]@.len() > 0) by {
                if i != level as int {
                    assert(self.queues@[i] == old_q.queues@[i]);
                }
            }
        }
        assert forall|i: int| 0 <= i < PRIORITY_LEVELS && i != level as int implies #[trigger] self.queues@[i]
            == old_q.queues@[i] by {}
        assert(self@ =~= old_q@.update(level as int, old_q@[level as int].drop_first()));
        Some(thread_id)
    }
}

/// A ring is first in, first out: an accepted enqueue leaves the id that
/// comes out next unchanged (or makes the new id next, on an empty ring) and
/// puts the new id behind all the others.
pub proof fn law_ring_fifo(q: Seq<usize>, x: usize)
    ensures
        q.push(x)[q.len() as int] == x,
        q.len() == 0 ==> q.push(x)[0] == x && q.push(x).drop_first() == q,
        q.len() > 0 ==> q.push(x)[0] == q[0] && q.push(x).drop_first() == q.drop_first().push(x),
{
    if q.len() > 0 {
        assert(q.push(x).drop_first() =~= q.drop_first().push(x));
    } else {
        assert(q.push(x).drop_first() =~= q);
    }
}

/// Queueing an id at level `l` makes the next dequeue take from level `l`
/// or from the level it would have taken from before, whichever is higher.
pub proof fn law_enqueue_then_highest(levels: Seq<Seq<usize>>, l: int, x: usize)
    requires
        0 <= l < levels.len(),
    ensures
        highest_nonempty(levels.update(l, levels[l].push(x)), levels.len() as int) == if l
            > highest_nonempty(levels, levels.len() as int) {
            l
        } else {
            highest_nonempty(levels, levels.len() as int)
        },
{
    let n = levels.len() as int;
    let h = highest_nonempty(levels, n);
    let after = levels.update(l, levels[l].push(x));
    lemma_highest_nonempty(levels, n);
    if l > h {
        assert forall|k: int| l < k < n implies #[trigger] after[k].len() == 0 by {
            assert(after[k] == levels[k]);
        }
        lemma_highest_is(after, n, l);
    } else {
        assert forall|k: int| h < k < n implies #[trigger] after[k].len() == 0 by {
            assert(after[k] == levels[k]);
        }
        lemma_highest_is(after, n, h);
    }
}

/// Higher priorities are queued at higher levels: levels lie in
/// `0 .. PRIORITY_LEVELS`, never decrease with the priority, differ for
/// different priorities below `PRIORITY_LEVELS`, and every priority from
/// `PRIORITY_LEVELS - 1` up shares the top level.
pub proof fn law_priority_levels_ordered(p: u8, q: u8)
    ensures
        0 <= priority_level(p) < PRIORITY_LEVELS,
        p <= q ==> priority_level(p) <= priority_level(q),
        p < q && (q as int) < PRIORITY_LEVELS ==> priority_level(p) < priority_level(q),
        (p as int) < PRIORITY_LEVELS ==> priority_level(p) == p,
        (p as int) >= PRIORITY_LEVELS - 1 ==> priority_level(p) == PRIORITY_LEVELS - 1,
{
}

/// Of two threads queued on an empty priority queue, the one of strictly
/// higher priority (below `PRIORITY_LEVELS`) comes out first, whichever was
/// queued first.
pub proof fn law_higher_priority_dequeued_first(levels: Seq<Seq<usize>>, p: u8, q: u8, x: usize, y: usize)
    requires
        levels.len() == PRIORITY_LEVELS,
        forall|k: int| 0 <= k < PRIORITY_LEVELS ==> #[trigger] levels[k].len() == 0,
        p < q,
        (q as int) < PRIORITY_LEVELS,
    ensures
        ({
            let lp = priority_level(p);
            let lq = priority_level(q);
            let xy = levels.update(lp, levels[lp].push(x));
            let xy = xy.update(lq, xy[lq].push(y));
            let yx = levels.update(lq, levels[lq].push(y));
            let yx = yx.update(lp, yx[lp].push(x));
            &&& highest_nonempty(xy, PRIORITY_LEVELS as int) == lq
            &&& xy[lq][0] == y
            &&& highest_nonempty(yx, PRIORITY_LEVELS as int) == lq
            &&& yx[lq][0] == y
        }),
{
    let n = PRIORITY_LEVELS as int;
    let lp = priority_level(p);
    let lq = priority_level(q);
    assert(lp == p && lq == q && lp < lq);
    let xy1 = levels.update(lp, levels[lp].push(x));
    let xy = xy1.update(lq, xy1[lq].push(y));
    let yx1 = levels.update(lq, levels[lq].push(y));
    let yx = yx1.update(lp, yx1[lp].push(x));
    assert forall|k: int| lq < k < n implies #[trigger] xy[k].len() == 0 by {
        assert(levels[k].len() == 0);
    }
    lemma_highest_is(xy, n, lq);
    assert forall|k: int| lq < k < n implies #[trigger] yx[k].len() == 0 by {
        assert(levels[k].len() == 0);
    }
    lemma_highest_is(yx, n, lq);
}

/// `b & (1 << i)` tests bit `i`.
pub proof fn lemma_mask_bit(b: u32, i: u32)
    requires
        i < 32,
    ensures
        (b & (1u32 << i)) == 0 <==> !bit_set(b, i),
{
    assert((b & (1u32 << i)) == 0 <==> (b >> i) & 1u32 != 1u32) by (bit_vector)
        requires
            i < 32,
    ;
}

/// State of one CPU: the thread it runs, its local run queue, and whether it
/// is idle.
pub struct CpuScheduler {
    current_thread: usize,
    local_queue: CircularBuffer,
    idle: bool,
}

impl CpuScheduler {
    /// Well-formedness of the local run queue.
    pub closed spec fn wf(&self) -> bool {
        self.local_queue.wf()
    }

    /// The thread this CPU runs, if any.
    pub closed spec fn current(&self) -> Option<ThreadId> {
        if self.current_thread == EMPTY_SLOT {
            None
        } else {
            Some(self.current_thread)
        }
    }

    /// Whether this CPU runs no thread.
    pub closed spec fn is_idle(&self) -> bool {
        self.idle
    }

    /// The ids queued on this CPU, oldest first.
    pub closed spec fn local(&self) -> Seq<usize> {
        self.local_queue@
    }

    /// An idle CPU with an empty local queue.
    pub fn new() -> (c: Self)
        ensures
            c.wf(),
            c.current() is None,
            c.is_idle(),
            c.local() == Seq::<usize>::empty(),
    {
        CpuScheduler { current_thread: EMPTY_SLOT, local_queue: CircularBuffer::new(), idle: true }
    }
}

/// `t` with its state replaced by `state`.
pub open spec fn with_state(t: Thread, state: ThreadState) -> Thread {
    Thread { state, ..t }
}

/// Table and priority queues after waking, in order, the first `k` of
/// `waiters`: a waiter whose slot holds a blocked thread becomes ready and is
/// queued at its priority level, unless that level is full.
pub open spec fn after_wake(
    table: Seq<Option<Thread>>,
    queue: Seq<Seq<usize>>,
    waiters: Seq<Option<ThreadId>>,
    k: int,
) -> (Seq<Option<Thread>>, Seq<Seq<usize>>)
    decreases k,
{
    if k <= 0 {
        (table, queue)
    } else {
        let (tb, q) = after_wake(table, queue, waiters, k - 1);
        if waiters[k - 1] is Some {
            let w = waiters[k - 1]->0 as int;
            if 0 <= w < tb.len() && tb[w] is Some && tb[w]->0.state == ThreadState::Blocked {
                let t = tb[w]->0;
                let l = priority_level(t.priority);
                let tb2 = tb.update(w, Some(with_state(t, ThreadState::Ready)));
                let q2 = if q[l].len() + 1 < RING_SLOTS {
                    q.update(l, q[l].push(w as usize))
                } else {
                    q
                };
                (tb2, q2)
            } else {
                (tb, q)
            }
        } else {
            (tb, q)
        }
    }
}

/// Thread table and run queues of a single-CPU scheduler that allocates
/// thread slots from a bitmap and schedules by priority.
pub struct AtomicScheduler {
    threads: Vec<Option<Thread>>,
    thread_bitmap: u32,
    next_thread_id: usize,
    global_queue: PriorityQueue,
    cpu_scheduler: CpuScheduler,
    scheduler_lock: bool,
}

impl AtomicScheduler {
    /// Well-formedness: the table has `MAX_THREADS` slots, every allocated
    /// slot holds the thread with that id, the queues are well formed and the
    /// scheduler lock is free between operations.
    pub closed spec fn wf(&self) -> bool {
        &&& self.threads@.len() == MAX_THREADS
        &&& forall|i: int|
            0 <= i < MAX_THREADS && bit_set(self.thread_bitmap, i as u32) ==> {
                &&& (#[trigger] self.threads@[i]) is Some
                &&& self.threads@[i]->0.id == i
            }
        &&& self.global_queue.wf()
        &&& self.cpu_scheduler.wf()
        &&& !self.scheduler_lock
    }

    /// Whether slot `i` is allocated.
    pub closed spec fn slot_used(&self, i: int) -> bool {
        0 <= i < MAX_THREADS && bit_set(self.thread_bitmap, i as u32)
    }

    /// The thread in slot `i`, when the slot is allocated.
    pub closed spec fn thread(&self, i: int) -> Option<Thread> {
        if self.slot_used(i) {
            self.threads@[i]
        } else {
            None
        }
    }

    /// In a well-formed scheduler a slot holds a thread exactly when it is
    /// allocated, and that thread carries the slot's id.
    pub proof fn lemma_thread_iff_slot_used(&self, j: int)
        requires
            self.wf(),
        ensures
            self.thread(j) is Some <==> self.slot_used(j),
            self.thread(j) is Some ==> self.thread(j)->0.id == j,
    {
    }

    /// The thread table: the thread of each allocated slot.
    pub closed spec fn table(&self) -> Seq<Option<Thread>> {
        Seq::new(MAX_THREADS as nat, |i: int| self.thread(i))
    }

    /// The ids of the global run queue, per priority level.
    pub closed spec fn queue(&self) -> Seq<Seq<usize>> {
        self.global_queue@
    }

    /// The ids of the CPU-local run queue.
    pub closed spec fn local_queue(&self) -> Seq<usize> {
        self.cpu_scheduler.local()
    }

    /// The running thread, if any.
    pub closed spec fn current(&self) -> Option<ThreadId> {
        self.cpu_scheduler.current()
    }

    /// Whether the CPU is idle.
    pub closed spec fn is_idle(&self) -> bool {
        self.cpu_scheduler.is_idle()
    }

    /// A scheduler with no thread, empty queues and an idle CPU.
    pub fn new() -> (s: Self)
        ensures
            s.wf(),
            forall|i: int| !#[trigger] s.slot_used(i),
            s.queue() == Seq::new(PRIORITY_LEVELS as nat, |i: int| Seq::<usize>::empty()),
            s.local_queue() == Seq::<usize>::empty(),
            s.current() is None,
            s.is_idle(),
    {
        let mut threads: Vec<Option<Thread>> = Vec::new();
        let mut i: usize = 0;
        while i < MAX_THREADS
            invariant
                i <= MAX_THREADS,
                threads@.len() == i,
            decreases MAX_THREADS - i,
        {
            threads.push(None);
            i = i + 1;
        }
        proof {
            lemma_zero_bits(0u32);
        }
        AtomicScheduler {
            threads,
            thread_bitmap: 0,
            next_thread_id: 0,
            global_queue: PriorityQueue::new(),
            cpu_scheduler: CpuScheduler::new(),
            scheduler_lock: false,
        }
    }

    /// Takes the scheduler lock.
    fn acquire_lock(&mut self)
        requires
            !old(self).scheduler_lock,
        ensures
            final(self).scheduler_lock,
            final(self).threads == old(self).threads,
            final(self).thread_bitmap == old(self).thread_bitmap,
            final(self).global_queue == old(self).global_queue,
            final(self).cpu_scheduler == old(self).cpu_scheduler,
            final(self).next_thread_id == old(self).next_thread_id,
    {
        self.scheduler_lock = true;
    }

    /// Releases the scheduler lock.
    fn release_lock(&mut self)
        ensures
            !final(self).scheduler_lock,
            final(self).threads == old(self).threads,
            final(self).thread_bitmap == old(self).thread_bitmap,
            final(self).global_queue == old(self).global_queue,
            final(self).cpu_scheduler == old(self).cpu_scheduler,
            final(self).next_thread_id == old(self).next_thread_id,
    {
        self.scheduler_lock = false;
    }

    /// Creates a ready thread in the lowest free slot and queues it at its
    /// priority level. Fails with `MaxThreadsReached` when every slot is
    /// taken, and with `SchedulerFull` (leaving the slot free) when the
    /// level's queue is full.
    pub fn spawn_thread(&mut self, stack_size: usize, priority: u8) -> (r: ThreadResult<ThreadId>)
        requires
            old(self).wf(),
        ensures
            final(self).wf(),
            final(self).current() == old(self).current(),
            final(self).local_queue() == old(self).local_queue(),
            final(self).is_idle() == old(self).is_idle(),
            (r == Err::<ThreadId, ThreadError>(ThreadError::MaxThreadsReached)) <==> (forall|j: int|
                0 <= j < MAX_THREADS ==> #[trigger] old(self).slot_used(j)),
            r is Err ==> final(self).queue() == old(self).queue() && (forall|j: int|
                #[trigger] final(self).thread(j) == old(self).thread(j)) && (forall|j: int|
                #[trigger] final(self).slot_used(j) == old(self).slot_used(j)),
            r == Err::<ThreadId, ThreadError>(ThreadError::SchedulerFull) ==> old(self).queue()[priority_level(
                priority,
            )].len() + 1 >= RING_SLOTS,
            r is Ok ==> ({
                let s = r->Ok_0 as int;
                &&& 0 <= s < MAX_THREADS
                &&& !old(self).slot_used(s)
                &&& forall|j: int| 0 <= j < s ==> #[trigger] old(self).slot_used(j)
                &&& old(self).queue()[priority_level(priority)].len() + 1 < RING_SLOTS
                &&& final(self).thread(s) == Some(
                    Thread {
                        id: s as usize,
                        state: ThreadState::Ready,
                        priority,
                        join_waiters: [None, None, None, None],
                        stack_size,
                    },
                )
                &&& forall|j: int| j != s ==> #[trigger] final(self).thread(j) == old(self).thread(j)
                &&& forall|j: int| #[trigger] final(self).slot_used(j) == (j == s || old(self).slot_used(j))
                &&& final(self).queue() == old(self).queue().update(
                    priority_level(priority),
                    old(self).queue()[priority_level(priority)].push(s as usize),
                )
            }),
            !(forall|j: int| 0 <= j < MAX_THREADS ==> #[trigger] old(self).slot_used(j)) ==> (r is Ok
                <==> old(self).queue()[priority_level(priority)].len() + 1 < RING_SLOTS),
    {
        let bitmap = self.thread_bitmap;
        let mut i: usize = 0;
        while i < MAX_THREADS && (bitmap & (1u32 << (i as u32))) != 0
            invariant
                i <= MAX_THREADS,
                forall|j: int| 0 <= j < i ==> #[trigger] bit_set(bitmap, j as u32),
            decreases MAX_THREADS - i,
        {
            proof {
                lemma_mask_bit(bitmap, i as u32);
            }
            i = i + 1;
        }
        if i == MAX_THREADS {
            assert forall|j: int| 0 <= j < MAX_THREADS implies #[trigger] self.slot_used(j) by {
                assert(bit_set(bitmap, j as u32));
            }
            return Err(ThreadError::MaxThreadsReached);
        }
        proof {
            lemma_mask_bit(bitmap, i as u32);
        }
        let slot = i;
        assert(!self.slot_used(slot as int));
        let ghost old_s = *self;
        let new_bitmap = bitmap | (1u32 << (slot as u32));
        self.thread_bitmap = new_bitmap;
        let t = Thread::new(slot, stack_size, priority);
        self.threads.set(slot, Some(t));
        assert(t.join_waiters =~= [None, None, None, None]);
        proof {
            assert forall|j: int| #[trigger] self.slot_used(j) == (j == slot || old_s.slot_used(j)) by {
                if 0 <= j < MAX_THREADS {
                    lemma_set_bit(bitmap, slot as u32, j as u32);
                }
            }
        }
        if !self.global_queue.enqueue(slot, priority) {
            self.thread_bitmap = bitmap;
            assert forall|j: int| #[trigger] self.thread(j) == old_s.thread(j) by {
                if j != slot {
                    if 0 <= j < MAX_THREADS {
                        assert(self.threads@[j] == old_s.threads@[j]);
                    }
                }
            }
            assert(!(forall|j: int| 0 <= j < MAX_THREADS ==> #[trigger] old_s.slot_used(j)));
            return Err(ThreadError::SchedulerFull);
        }
        assert forall|j: int| j != slot implies #[trigger] self.thread(j) == old_s.thread(j) by {
            if 0 <= j < MAX_THREADS {
                lemma_set_bit(bitmap, slot as u32, j as u32);
                assert(self.threads@[j] == old_s.threads@[j]);
            }
        }
        proof {
            lemma_set_bit(bitmap, slot as u32, slot as u32);
        }
        assert(self.slot_used(slot as int));
        assert(self.thread(slot as int) == Some(t));
        assert forall|j: int|
            0 <= j < MAX_THREADS && bit_set(self.thread_bitmap, j as u32) implies {
                &&& (#[trigger] self.threads@[j]) is Some
                &&& self.threads@[j]->0.id == j
            } by {
            lemma_set_bit(bitmap, slot as u32, j as u32);
        }
        assert(!(forall|j: int| 0 <= j < MAX_THREADS ==> #[trigger] old_s.slot_used(j)));
        assert forall|j: int| #[trigger] self.slot_used(j) == (j == slot || old_s.slot_used(j)) by {
            if 0 <= j < MAX_THREADS {
                lemma_set_bit(bitmap, slot as u32, j as u32);
            }
        }
        Ok(slot)
    }

    /// Picks the next thread: the head of the CPU-local queue, or else the
    /// oldest thread of the highest non-empty priority level.
    pub fn schedule(&mut self) -> (r: Option<ThreadId>)
        requires
            old(self).wf(),
        ensures
            final(self).wf(),
            forall|j: int| #[trigger] final(self).thread(j) == old(self).thread(j),
            final(self).current() == old(self).current(),
            final(self).is_idle() == old(self).is_idle(),
            old(self).local_queue().len() > 0 ==> r == Some(old(self).local_queue()[0])
                && final(self).local_queue() == old(self).local_queue().drop_first()
                && final(self).queue() == old(self).queue(),
            old(self).local_queue().len() == 0 ==> final(self).local_queue() == old(self).local_queue() && (highest_nonempty(old(self).queue(), PRIORITY_LEVELS as int) == -1
                ==> r is None && final(self).queue() == old(self).queue()) && (highest_nonempty(
                old(self).queue(),
                PRIORITY_LEVELS as int,
            ) >= 0 ==> ({
                let l = highest_nonempty(old(self).queue(), PRIORITY_LEVELS as int);
                &&& r == Some(old(self).queue()[l][0])
                &&& final(self).queue() == old(self).queue().update(
                    l,
                    old(self).queue()[l].drop_first(),
                )
            })),
    {
        if let Some(thread_id) = self.cpu_scheduler.local_queue.dequeue() {
            return Some(thread_id);
        }
        self.global_queue.dequeue()
    }

    /// The running thread, if any.
    pub fn get_current_thread(&self) -> (r: Option<ThreadId>)
        requires
            self.wf(),
        ensures
            r == self.current(),
    {
        let current = self.cpu_scheduler.current_thread;
        if current == EMPTY_SLOT {
            None
        } else {
            Some(current)
        }
    }

    /// Records `thread_id` as the running thread (the CPU is idle exactly
    /// when there is none).
    pub fn set_current_thread(&mut self, thread_id: Option<ThreadId>)
        requires
            old(self).wf(),
            thread_id != Some(EMPTY_SLOT),
        ensures
            final(self).wf(),
            final(self).current() == thread_id,
            final(self).is_idle() == (thread_id is None),
            forall|j: int| #[trigger] final(self).thread(j) == old(self).thread(j),
            final(self).queue() == old(self).queue(),
            final(self).local_queue() == old(self).local_queue(),
    {
        match thread_id {
            Some(id) => {
                self.cpu_scheduler.current_thread = id;
                self.cpu_scheduler.idle = false;
            },
            None => {
                self.cpu_scheduler.current_thread = EMPTY_SLOT;
                self.cpu_scheduler.idle = true;
            },
        }
    }

    /// Whether slot `thread_id` is allocated.
    fn slot_in_use(&self, thread_id: ThreadId) -> (r: bool)
        ensures
            r == self.slot_used(thread_id as int),
    {
        if thread_id >= MAX_THREADS {
            return false;
        }
        let bitmap = self.thread_bitmap;
        proof {
            lemma_mask_bit(bitmap, thread_id as u32);
        }
        bitmap & (1u32 << (thread_id as u32)) != 0
    }

    /// Checks that the CPU may switch from thread `from_id` to thread
    /// `to_id`: both slots must be allocated, else `InvalidThreadId`. The
    /// caller then exchanges the register contexts of the two threads.
    pub fn switch_context(&self, from_id: ThreadId, to_id: ThreadId) -> (r: ThreadResult<()>)
        requires
            self.wf(),
        ensures
            r is Ok <==> self.slot_used(from_id as int) && self.slot_used(to_id as int),
            r is Err ==> r == Err::<(), ThreadError>(ThreadError::InvalidThreadId),
    {
        if from_id >= MAX_THREADS || to_id >= MAX_THREADS {
            return Err(ThreadError::InvalidThreadId);
        }
        if !self.slot_in_use(from_id) || !self.slot_in_use(to_id) {
            return Err(ThreadError::InvalidThreadId);
        }
        Ok(())
    }

    /// The thread in slot `thread_id`, when that slot is allocated.
    pub fn get_thread(&self, thread_id: ThreadId) -> (r: Option<&Thread>)
        requires
            self.wf(),
        ensures
            r is Some <==> self.thread(thread_id as int) is Some,
            r matches Some(t) ==> self.thread(thread_id as int) == Some(*t),
    {
        if thread_id >= MAX_THREADS {
            return None;
        }
        let bitmap = self.thread_bitmap;
        proof {
            lemma_mask_bit(bitmap, thread_id as u32);
        }
        if bitmap & (1u32 << (thread_id as u32)) == 0 {
            return None;
        }
        self.threads[thread_id].as_ref()
    }

    /// Marks the running thread finished, wakes the threads blocked joining
    /// it, and leaves the CPU idle. Does nothing when no thread runs.
    pub fn exit_current_thread(&mut self)
        requires
            old(self).wf(),
        ensures
            final(self).wf(),
            final(self).local_queue() == old(self).local_queue(),
            old(self).current() is None ==> final(self).table() == old(self).table()
                && final(self).queue() == old(self).queue() && final(self).current() is None
                && final(self).is_idle() == old(self).is_idle(),
            old(self).current() is Some ==> ({
                let c = old(self).current()->0 as int;
                let exiting = old(self).table().len() > c && old(self).table()[c] is Some;
                let table1 = if exiting {
                    old(self).table().update(
                        c,
                        Some(with_state(old(self).table()[c]->0, ThreadState::Finished)),
                    )
                } else {
                    old(self).table()
                };
                let waiters = if exiting {
                    old(self).table()[c]->0.join_waiters@
                } else {
                    Seq::<Option<ThreadId>>::empty()
                };
                let res = after_wake(table1, old(self).queue(), waiters, waiters.len() as int);
                &&& final(self).table() == res.0
                &&& final(self).queue() == res.1
                &&& final(self).current() is None
                &&& final(self).is_idle()
            }),
    {
        let current = self.get_current_thread();
        if current.is_none() {
            return;
        }
        let thread_id = current.unwrap();
        let ghost old_s = *self;
        self.acquire_lock();
        let exiting = self.slot_in_use(thread_id);
        if exiting {
            let mut t = self.threads[thread_id].unwrap();
            t.state = ThreadState::Finished;
            self.threads.set(thread_id, Some(t));
            let waiters = t.join_waiters;
            let ghost table1 = self.table();
            assert(table1 =~= old_s.table().update(
                thread_id as int,
                Some(with_state(old_s.table()[thread_id as int]->0, ThreadState::Finished)),
            )) by {
                assert forall|j: int| 0 <= j < MAX_THREADS implies #[trigger] self.table()[j] == old_s.table().update(
                    thread_id as int,
                    Some(with_state(old_s.table()[thread_id as int]->0, ThreadState::Finished)),
                )[j] by {
                    if j != thread_id {
                        assert(self.threads@[j] == old_s.threads@[j]);
                    }
                }
            }
            let mut k: usize = 0;
            while k < 4
                invariant
                    k <= 4,
                    self.threads@.len() == MAX_THREADS,
                    self.thread_bitmap == old_s.thread_bitmap,
                    forall|i: int|
                        0 <= i < MAX_THREADS && bit_set(self.thread_bitmap, i as u32) ==> {
                            &&& (#[trigger] self.threads@[i]) is Some
                            &&& self.threads@[i]->0.id == i
                        },
                    self.global_queue.wf(),
                    self.cpu_scheduler == old_s.cpu_scheduler,
                    self.scheduler_lock,
                    waiters@ == old_s.table()[thread_id as int]->0.join_waiters@,
                    (self.table(), self.queue()) == after_wake(
                        table1,
                        old_s.queue(),
                        waiters@,
                        k as int,
                    ),
                decreases 4 - k,
            {
                let ghost before = *self;
                if let Some(w) = waiters[k] {
                    if w < MAX_THREADS {
                        let used = self.slot_in_use(w);
                        if used {
                            let mut wt = self.threads[w].unwrap();
                            if wt.state == ThreadState::Blocked {
                                wt.state = ThreadState::Ready;
                                self.threads.set(w, Some(wt));
                                let _ = self.global_queue.enqueue(w, wt.priority);
                                assert(self.table() =~= before.table().update(
                                    w as int,
                                    Some(with_state(before.table()[w as int]->0, ThreadState::Ready)),
                                )) by {
                                    assert forall|j: int| 0 <= j < MAX_THREADS implies #[trigger] self.table()[j]
                                        == before.table().update(
                                        w as int,
                                        Some(with_state(before.table()[w as int]->0, ThreadState::Ready)),
                                    )[j] by {
                                        if j != w {
                                            assert(self.threads@[j] == before.threads@[j]);
                                        }
                                    }
                                }
                            }
                        }
                    }
                }
                k = k + 1;
            }
            assert(waiters@.len() == 4);
        }
        self.release_lock();
        self.set_current_thread(None);
        proof {
            if !exiting {
                assert(self.table() =~= old_s.table());
            }
        }
    }
}

} // verus!
