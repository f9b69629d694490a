use vstd::prelude::*;

verus! {

/// Identifier of a thread: its slot in the scheduler's thread table.
pub type ThreadId = usize;

/// Number of thread slots a scheduler manages.
pub const MAX_THREADS: usize = 32;

/// Number of threads that may wait to join one thread.
pub const MAX_JOIN_WAITERS: usize = 4;

/// Life-cycle state of a thread.
#[derive(Debug, Clone, Copy, PartialEq, Eq, Structural)]
pub enum ThreadState {
    Ready,
    Running,
    Blocked,
    Finished,
}

/// A thread control block: what the schedulers read and change of a thread.
#[derive(Clone, Copy)]
pub struct Thread {
    pub id: ThreadId,
    pub state: ThreadState,
    pub priority: u8,
    pub join_waiters: [Option<ThreadId>; 4],
    pub stack_size: usize,
}

impl Thread {
    /// A fresh thread, ready to run, that nobody waits for.
    pub fn new(id: ThreadId, stack_size: usize, priority: u8) -> (t: Thread)
        ensures
            t.id == id,
            t.state == ThreadState::Ready,
            t.priority == priority,
            t.stack_size == stack_size,
            forall|i: int| 0 <= i < 4 ==> t.join_waiters[i] is None,
    {
        Thread {
            id,
            state: ThreadState::Ready,
            priority,
            join_waiters: [None, None, None, None],
            stack_size,
        }
    }

    /// A thread can be picked by the scheduler only when it is ready.
    pub fn is_runnable(&self) -> (r: bool)
        ensures
            r == (self.state == ThreadState::Ready),
    {
        self.state == ThreadState::Ready
    }
}

} // verus!
