use vstd::prelude::*;

verus! {

/// Resource limits whose violation is reported as an error.
#[derive(Debug, Clone, Copy, PartialEq, Eq, Structural)]
pub enum ResourceError {
    MaxCpuTime,
    MaxMemoryUsage,
    MaxFileDescriptors,
    MaxThreadsPerProcess,
    ResourceUnavailable,
}

/// Errors of the security and resource-control subsystems.
#[derive(Debug, Clone, Copy, PartialEq, Eq, Structural)]
pub enum ThreadError {
    MemoryError,
    InvalidState,
    PermissionDenied,
    ResourceExhaustion,
    UnsupportedOperation,
    Other,
    Resource(ResourceError),
}

} // verus!
