use vstd::prelude::*;

verus! {

/// Errors reported by the thread scheduler and the safe API.
#[derive(Debug, Clone, Copy, PartialEq, Eq, Structural)]
pub enum ThreadError {
    MaxThreadsReached,
    InvalidThreadId,
    ThreadNotRunnable,
    StackOverflow,
    SchedulerFull,
    NotRunning,
    NotImplemented,
    MemoryAllocationFailed,
    InvalidArgument,
    DeadlockDetected,
    ResourceExhausted,
}

/// The human-readable message of each error.
pub open spec fn thread_error_message(e: ThreadError) -> Seq<char> {
    match e {
        ThreadError::MaxThreadsReached => "Maximum number of threads reached"@,
        ThreadError::InvalidThreadId => "Invalid thread ID provided"@,
        ThreadError::ThreadNotRunnable => "Thread is not in a runnable state"@,
        ThreadError::StackOverflow => "Stack overflow detected"@,
        ThreadError::SchedulerFull => "Scheduler queue is full"@,
        ThreadError::NotRunning => "Thread is not running"@,
        ThreadError::NotImplemented => "Feature not implemented"@,
        ThreadError::MemoryAllocationFailed => "Memory allocation failed"@,
        ThreadError::InvalidArgument => "Invalid argument provided"@,
        ThreadError::DeadlockDetected => "Deadlock detected"@,
        ThreadError::ResourceExhausted => "System resources exhausted"@,
    }
}

impl ThreadError {
    /// The message describing this error.
    pub fn as_str(self) -> (s: &'static str)
        ensures
            s@ == thread_error_message(self),
    {
        match self {
            ThreadError::MaxThreadsReached => "Maximum number of threads reached",
            ThreadError::InvalidThreadId => "Invalid thread ID provided",
            ThreadError::ThreadNotRunnable => "Thread is not in a runnable state",
            ThreadError::StackOverflow => "Stack overflow detected",
            ThreadError::SchedulerFull => "Scheduler queue is full",
            ThreadError::NotRunning => "Thread is not running",
            ThreadError::NotImplemented => "Feature not implemented",
            ThreadError::MemoryAllocationFailed => "Memory allocation failed",
            ThreadError::InvalidArgument => "Invalid argument provided",
            ThreadError::DeadlockDetected => "Deadlock detected",
            ThreadError::ResourceExhausted => "System resources exhausted",
        }
    }
}

/// Result type of scheduler operations.
pub type ThreadResult<T> = Result<T, ThreadError>;

} // verus!
