use vstd::prelude::*;

verus! {

/// Reasons a thread cannot be spawned.
#[derive(Debug, Clone, Copy, PartialEq, Eq, Structural)]
pub enum SpawnError {
    /// The kernel has not been initialized.
    NotInitialized,
    /// No stack could be allocated.
    OutOfMemory,
    /// The thread limit is reached.
    TooManyThreads,
    /// The stack size is not valid.
    InvalidStackSize,
}

/// Coordinating state of the threading system: whether it was started, and
/// the next thread id to hand out. Ids start at 1 and are never reused.
pub struct Kernel {
    initialized: bool,
    next_thread_id: usize,
}

impl Kernel {
    /// Whether the kernel was started.
    pub closed spec fn spec_initialized(&self) -> bool {
        self.initialized
    }

    /// The id the next call of `next_thread_id` hands out.
    pub closed spec fn next_id(&self) -> usize {
        self.next_thread_id
    }

    /// Ids are never zero.
    pub open spec fn wf(&self) -> bool {
        self.next_id() >= 1
    }

    /// A kernel that is not started; the first id it hands out is 1.
    pub fn new() -> (k: Self)
        ensures
            k.wf(),
            !k.spec_initialized(),
            k.next_id() == 1,
    {
        Kernel { initialized: false, next_thread_id: 1 }
    }

    /// Starts the kernel: succeeds the first time only, and fails without
    /// any change when it was already started.
    pub fn init(&mut self) -> (r: Result<(), ()>)
        ensures
            r is Ok <==> !old(self).spec_initialized(),
            final(self).spec_initialized(),
            final(self).next_id() == old(self).next_id(),
    {
        if self.initialized {
            return Err(());
        }
        self.initialized = true;
        Ok(())
    }

    /// Whether the kernel was started.
    pub fn is_initialized(&self) -> (r: bool)
        ensures
            r == self.spec_initialized(),
    {
        self.initialized
    }

    /// Hands out a new thread id: the next one in turn, never zero and
    /// never handed out before. The id space must not be exhausted.
    pub fn next_thread_id(&mut self) -> (id: usize)
        requires
            old(self).wf(),
            old(self).next_id() < usize::MAX,
        ensures
            final(self).wf(),
            id == old(self).next_id(),
            id >= 1,
            final(self).next_id() == id + 1,
            final(self).spec_initialized() == old(self).spec_initialized(),
    {
        let id = self.next_thread_id;
        self.next_thread_id = id + 1;
        id
    }
}

/// Thread ids are never reused: every id handed out is below the next one,
/// so ids handed out from a kernel at `earlier` and later at `later` (after
/// the first was taken) differ.
pub proof fn law_thread_ids_never_reused(first: usize, earlier: Kernel, later: Kernel, second: usize)
    requires
        first < earlier.next_id(),
        earlier.next_id() <= later.next_id(),
        second == later.next_id(),
    ensures
        first != second,
        first < second,
{
}

} // verus!
