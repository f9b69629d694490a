use vstd::prelude::*;
use core::marker::PhantomData;
use crate::error::{ThreadError, ThreadResult};
use crate::scheduler::Scheduler;
use crate::sync::{exit_effect_switch_holds, yield_effect};
use crate::thread::ThreadId;

verus! {

/// Handle of a spawned thread.
pub struct ThreadHandle {
    id: ThreadId,
    joined: bool,
}

impl ThreadHandle {
    /// The id of the thread.
    pub closed spec fn spec_id(&self) -> ThreadId {
        self.id
    }

    /// A handle for thread `id` that has not been joined.
    fn new(id: ThreadId) -> (h: Self)
        ensures
            h.spec_id() == id,
    {
        ThreadHandle { id, joined: false }
    }

    /// Waits for the thread; completion is not tracked, so this succeeds.
    pub fn join(self) -> (r: ThreadResult<()>)
        ensures
            r == Ok::<(), ThreadError>(()),
    {
        let mut h = self;
        h.joined = true;
        Ok(())
    }

    /// The thread's id.
    pub fn id(&self) -> (r: ThreadId)
        ensures
            r == self.spec_id(),
    {
        self.id
    }
}

/// Default stack size of a built thread, in bytes.
pub const DEFAULT_STACK_SIZE: usize = 65536;

/// Smallest stack size a builder accepts, in bytes.
pub const MIN_STACK_SIZE: usize = 16384;

/// Default priority of a built thread.
pub const DEFAULT_PRIORITY: u8 = 5;

/// Number of priority levels a builder accepts (priorities `0..8`).
pub const BUILDER_PRIORITY_LEVELS: u8 = 8;

/// Builder of threads with a stack size, priority and name.
pub struct ThreadBuilder<'a> {
    stack_size: usize,
    priority: u8,
    name: Option<&'a str>,
    _phantom: PhantomData<&'a ()>,
}

impl<'a> ThreadBuilder<'a> {
    /// The configured stack size.
    pub closed spec fn spec_stack_size(&self) -> usize {
        self.stack_size
    }

    /// The configured priority.
    pub closed spec fn spec_priority(&self) -> u8 {
        self.priority
    }

    /// The configured name.
    pub closed spec fn spec_name(&self) -> Option<&'a str> {
        self.name
    }

    /// A builder with a 64 KiB stack, priority 5 and no name.
    pub fn new() -> (b: Self)
        ensures
            b.spec_stack_size() == DEFAULT_STACK_SIZE,
            b.spec_priority() == DEFAULT_PRIORITY,
            b.spec_name() is None,
    {
        ThreadBuilder {
            stack_size: DEFAULT_STACK_SIZE,
            priority: DEFAULT_PRIORITY,
            name: None,
            _phantom: PhantomData,
        }
    }

    /// Sets the stack size (at least 16 KiB).
    pub fn stack_size(self, size: usize) -> (b: Self)
        requires
            size >= MIN_STACK_SIZE,
        ensures
            b.spec_stack_size() == size,
            b.spec_priority() == self.spec_priority(),
            b.spec_name() == self.spec_name(),
    {
        let mut b = self;
        b.stack_size = size;
        b
    }

    /// Sets the priority (0 to 7, higher runs first).
    pub fn priority(self, priority: u8) -> (b: Self)
        requires
            priority < BUILDER_PRIORITY_LEVELS,
        ensures
            b.spec_priority() == priority,
            b.spec_stack_size() == self.spec_stack_size(),
            b.spec_name() == self.spec_name(),
    {
        let mut b = self;
        b.priority = priority;
        b
    }

    /// Sets the name.
    pub fn name(self, name: &'a str) -> (b: Self)
        ensures
            b.spec_name() == Some(name),
            b.spec_stack_size() == self.spec_stack_size(),
            b.spec_priority() == self.spec_priority(),
    {
        let mut b = self;
        b.name = Some(name);
        b
    }

    /// Spawning a closure needs a stack allocator this library does not
    /// have, so it reports `NotImplemented`.
    pub fn spawn<F: FnOnce() + Send + 'static>(self, _f: F) -> (r: ThreadResult<ThreadHandle>)
        ensures
            r is Err && r->Err_0 == ThreadError::NotImplemented,
    {
        Err(ThreadError::NotImplemented)
    }
}

/// Thread-local storage key; storage is not provided, so it holds nothing.
pub struct ThreadLocal<T> {
    key: usize,
    _phantom: PhantomData<T>,
}

impl<T> ThreadLocal<T> {
    /// The storage key.
    pub closed spec fn spec_key(&self) -> usize {
        self.key
    }

    /// A new key; no key is allocated, so it is key 0.
    pub fn new() -> (k: Self)
        ensures
            k.spec_key() == 0,
    {
        ThreadLocal { key: 0, _phantom: PhantomData }
    }

    /// The value of the current thread: always absent.
    pub fn get(&self) -> (r: Option<&T>)
        ensures
            r is None,
    {
        None
    }

    /// Storing a value has no effect.
    pub fn set(&self, _value: T) {
    }
}

/// Bounded pool of worker threads; running tasks is not provided.
pub struct ThreadPool {
    max_threads: usize,
    active_threads: usize,
}

/// Largest pool size.
pub const MAX_POOL_THREADS: usize = 32;

impl ThreadPool {
    /// The configured size.
    pub closed spec fn spec_max_threads(&self) -> usize {
        self.max_threads
    }

    /// The number of active workers.
    pub closed spec fn spec_active(&self) -> usize {
        self.active_threads
    }

    /// A pool of `max_threads` workers (1 to 32), none active.
    pub fn new(max_threads: usize) -> (p: Self)
        requires
            0 < max_threads <= MAX_POOL_THREADS,
        ensures
            p.spec_max_threads() == max_threads,
            p.spec_active() == 0,
    {
        ThreadPool { max_threads, active_threads: 0 }
    }

    /// Submitting a task: `SchedulerFull` when every worker is active, and
    /// otherwise `NotImplemented`.
    pub fn execute<F: FnOnce() + Send + 'static>(&mut self, _task: F) -> (r: ThreadResult<()>)
        ensures
            *final(self) == *old(self),
            old(self).spec_active() >= old(self).spec_max_threads() ==> r == Err::<(), ThreadError>(
                ThreadError::SchedulerFull,
            ),
            old(self).spec_active() < old(self).spec_max_threads() ==> r == Err::<(), ThreadError>(
                ThreadError::NotImplemented,
            ),
    {
        if self.active_threads >= self.max_threads {
            return Err(ThreadError::SchedulerFull);
        }
        Err(ThreadError::NotImplemented)
    }

    /// The number of active workers.
    pub fn active_count(&self) -> (r: usize)
        ensures
            r == self.spec_active(),
    {
        self.active_threads
    }

    /// Shuts the pool down.
    pub fn shutdown(self) {
    }
}

/// Mutual-exclusion cell: a value and a lock flag. Access to the value goes
/// through the guard handed out when the lock is taken.
pub struct Mutex<T> {
    data: T,
    locked: bool,
}

/// Proof of holding a `Mutex`, handed back to `unlock`.
pub struct MutexGuard {
    _held: (),
}

impl<T> Mutex<T> {
    /// The protected value.
    pub closed spec fn value(&self) -> T {
        self.data
    }

    /// Whether the lock is held.
    pub closed spec fn is_locked(&self) -> bool {
        self.locked
    }

    /// An unlocked mutex holding `data`.
    pub fn new(data: T) -> (m: Self)
        ensures
            m.value() == data,
            !m.is_locked(),
    {
        Mutex { data, locked: false }
    }

    /// Takes the lock. Taking a held lock would wait forever here, so the
    /// lock must be free.
    pub fn lock(&mut self) -> (g: MutexGuard)
        requires
            !old(self).is_locked(),
        ensures
            final(self).is_locked(),
            final(self).value() == old(self).value(),
    {
        self.locked = true;
        MutexGuard { _held: () }
    }

    /// Takes the lock when it is free; `None` when it is held.
    pub fn try_lock(&mut self) -> (g: Option<MutexGuard>)
        ensures
            final(self).is_locked(),
            final(self).value() == old(self).value(),
            g is Some <==> !old(self).is_locked(),
    {
        if self.locked {
            None
        } else {
            self.locked = true;
            Some(MutexGuard { _held: () })
        }
    }

    /// Reads the value under the lock.
    pub fn get(&self, _guard: &MutexGuard) -> (r: &T)
        requires
            self.is_locked(),
        ensures
            *r == self.value(),
    {
        &self.data
    }

    /// Replaces the value under the lock.
    pub fn set(&mut self, _guard: &MutexGuard, value: T)
        requires
            old(self).is_locked(),
        ensures
            final(self).is_locked(),
            final(self).value() == value,
    {
        self.data = value;
    }

    /// Releases the lock.
    pub fn unlock(&mut self, _guard: MutexGuard)
        requires
            old(self).is_locked(),
        ensures
            !final(self).is_locked(),
            final(self).value() == old(self).value(),
    {
        self.locked = false;
    }
}

/// Yields the CPU to the next thread; returns the context switch to perform.
pub fn yield_now(scheduler: &mut Scheduler) -> (switch: Option<(ThreadId, ThreadId)>)
    requires
        old(scheduler).wf(),
    ensures
        final(scheduler).wf(),
        old(scheduler).current() is None ==> switch is None && *final(scheduler) == *old(scheduler),
        old(scheduler).current() is Some ==> (
            final(scheduler).table(),
            final(scheduler).queue(),
            final(scheduler).current(),
            switch,
        ) == yield_effect(old(scheduler).table(), old(scheduler).queue(), old(scheduler).current()->0),
{
    crate::sync::yield_thread(scheduler)
}

/// Ends the running thread; returns the context switch to perform.
pub fn exit_thread(scheduler: &mut Scheduler) -> (switch: Option<(ThreadId, ThreadId)>)
    requires
        old(scheduler).wf(),
    ensures
        final(scheduler).wf(),
        old(scheduler).current() is None ==> switch is None && *final(scheduler) == *old(scheduler),
        old(scheduler).current() is Some ==> exit_effect_switch_holds(
            old(scheduler).table(),
            old(scheduler).queue(),
            old(scheduler).current()->0,
            final(scheduler).table(),
            final(scheduler).queue(),
            final(scheduler).current(),
            switch,
        ),
{
    crate::sync::exit_thread(scheduler)
}

} // verus!
