use vstd::prelude::*;
use crate::scheduler::{
    exit_effect, lemma_wake_waiters_frame, pick_position, requeue_current, switch_states, Scheduler,
};
use crate::thread::{Thread, ThreadState};
use crate::thread::ThreadId;

verus! {

/// Table, queue, running thread and context switch after thread `c` yields:
/// it is put back on the queue, the scheduler picks a thread, and a switch
/// happens when the pick is another thread.
pub open spec fn yield_effect(table: Seq<Option<Thread>>, q: Seq<ThreadId>, c: ThreadId) -> (
    Seq<Option<Thread>>,
    Seq<ThreadId>,
    Option<ThreadId>,
    Option<(ThreadId, ThreadId)>,
) {
    let (table1, q1) = requeue_current(table, q, Some(c));
    let p = pick_position(table1, q1);
    if p == -1 {
        (table1, q1, Some(c), None)
    } else if q1[p] == c {
        (table1, q1.remove(p), Some(c), None)
    } else {
        (switch_states(table1, Some(c), Some(q1[p])), q1.remove(p), Some(q1[p]), Some((c, q1[p])))
    }
}

/// Table, queue, running thread and context switch after thread `c` exits:
/// it is marked finished, its joiners woken, and the picked thread runs.
pub open spec fn exit_switch_effect(table: Seq<Option<Thread>>, q: Seq<ThreadId>, c: ThreadId) -> (
    Seq<Option<Thread>>,
    Seq<ThreadId>,
    Option<ThreadId>,
    Option<(ThreadId, ThreadId)>,
) {
    let (table1, q1) = exit_effect(table, q, c as int);
    let p = pick_position(table1, q1);
    if p == -1 {
        (table1, q1, Some(c), None)
    } else {
        (switch_states(table1, Some(c), Some(q1[p])), q1.remove(p), Some(q1[p]), Some((c, q1[p])))
    }
}

/// The outcome `(table2, q2, current2, switch)` is what exiting thread `c`
/// from `(table, q)` gives.
pub open spec fn exit_effect_switch_holds(
    table: Seq<Option<Thread>>,
    q: Seq<ThreadId>,
    c: ThreadId,
    table2: Seq<Option<Thread>>,
    q2: Seq<ThreadId>,
    current2: Option<ThreadId>,
    switch: Option<(ThreadId, ThreadId)>,
) -> bool {
    (table2, q2, current2, switch) == exit_switch_effect(table, q, c)
}

/// Gives the CPU to the next thread the scheduler picks. Returns the context
/// switch to perform, `(from, to)`, when a different thread was picked.
pub fn yield_thread(scheduler: &mut Scheduler) -> (switch: Option<(ThreadId, ThreadId)>)
    requires
        old(scheduler).wf(),
    ensures
        final(scheduler).wf(),
        final(scheduler).next_id() == old(scheduler).next_id(),
        old(scheduler).current() is None ==> switch is None && *final(scheduler) == *old(scheduler),
        old(scheduler).current() is Some ==> (
            final(scheduler).table(),
            final(scheduler).queue(),
            final(scheduler).current(),
            switch,
        ) == yield_effect(
            old(scheduler).table(),
            old(scheduler).queue(),
            old(scheduler).current()->0,
        ),
{
    let ghost old_s = *scheduler;
    if let Some(current_id) = scheduler.get_current_thread() {
        let ghost tq = requeue_current(old_s.table(), old_s.queue(), Some(current_id));
        let ghost p = pick_position(tq.0, tq.1);
        let next = scheduler.schedule();
        assert(scheduler.table() == tq.0);
        match next {
            None => {
                assert(p == -1);
                return None;
            },
            Some(next_id) => {
                assert(p >= 0 && next_id == tq.1[p]);
                if current_id != next_id {
                    scheduler.set_current_thread(Some(next_id));
                    return Some((current_id, next_id));
                }
                return None;
            },
        }
    }
    None
}

/// Ends the running thread: marks it finished, wakes its joiners and picks
/// the next thread. Returns the context switch to perform, `(from, to)`;
/// after it the caller never resumes the exited thread.
pub fn exit_thread(scheduler: &mut Scheduler) -> (switch: Option<(ThreadId, ThreadId)>)
    requires
        old(scheduler).wf(),
    ensures
        final(scheduler).wf(),
        final(scheduler).next_id() == old(scheduler).next_id(),
        old(scheduler).current() is None ==> switch is None && *final(scheduler) == *old(scheduler),
        old(scheduler).current() is Some ==> (
            final(scheduler).table(),
            final(scheduler).queue(),
            final(scheduler).current(),
            switch,
        ) == exit_switch_effect(
            old(scheduler).table(),
            old(scheduler).queue(),
            old(scheduler).current()->0,
        ),
{
    if let Some(current_id) = scheduler.get_current_thread() {
        proof {
            scheduler.lemma_wf_facts();
        }
        let ghost old_s = *scheduler;
        scheduler.exit_current_thread();
        proof {
            let (t1, q1) = exit_effect(old_s.table(), old_s.queue(), current_id as int);
            let exiting = old_s.table()[current_id as int] is Some;
            let table0 = if exiting {
                old_s.table().update(
                    current_id as int,
                    Some(Thread { state: ThreadState::Finished, ..old_s.table()[current_id as int]->0 }),
                )
            } else {
                old_s.table()
            };
            let waiters = if exiting {
                old_s.table()[current_id as int]->0.join_waiters@
            } else {
                seq![None::<ThreadId>, None, None, None]
            };
            lemma_wake_waiters_frame(table0, old_s.queue(), waiters, 4);
            assert(t1[current_id as int] == table0[current_id as int]);
            assert(requeue_current(t1, q1, Some(current_id)) == (t1, q1));
        }
        let ghost tq = exit_effect(old_s.table(), old_s.queue(), current_id as int);
        let ghost p = pick_position(tq.0, tq.1);
        let next = scheduler.schedule();
        assert(scheduler.table() == tq.0);
        match next {
            None => {
                assert(p == -1);
                return None;
            },
            Some(next_id) => {
                assert(p >= 0 && next_id == tq.1[p]);
                scheduler.set_current_thread(Some(next_id));
                return Some((current_id, next_id));
            },
        }
    }
    None
}

/// Yields the CPU; the duration is not used by this cooperative scheduler.
pub fn sleep_ms(scheduler: &mut Scheduler, _ms: u64) -> (switch: Option<(ThreadId, ThreadId)>)
    requires
        old(scheduler).wf(),
    ensures
        final(scheduler).wf(),
        final(scheduler).next_id() == old(scheduler).next_id(),
        old(scheduler).current() is None ==> switch is None && *final(scheduler) == *old(scheduler),
        old(scheduler).current() is Some ==> (
            final(scheduler).table(),
            final(scheduler).queue(),
            final(scheduler).current(),
            switch,
        ) == yield_effect(
            old(scheduler).table(),
            old(scheduler).queue(),
            old(scheduler).current()->0,
        ),
{
    yield_thread(scheduler)
}

} // verus!
