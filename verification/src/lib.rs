use vstd::prelude::*;

pub mod arch;
pub mod atomic_scheduler;
pub mod bits;
pub mod context_full;
pub mod error;
pub mod errors;
pub mod kernel;
pub mod mem;
pub mod perf;
pub mod preemption;
pub mod observability;
pub mod safe_api;
pub mod scheduler;
pub mod security;
pub mod signal_safe;
pub mod stack_guard;
pub mod sync;
pub mod thread;

verus! {

} // verus!
