# preemptive_threads

A preemptive multithreading core for kernels and embedded systems, written in
Verus: every function in `src/` carries a contract that Verus proves.

## Layout

- `src/scheduler.rs`, `src/atomic_scheduler.rs`, `src/sync.rs`,
  `src/safe_api.rs`, `src/signal_safe.rs`, `src/preemption.rs`: thread
  table, run queues (priority pick, FIFO rings, bitmap priority queue),
  yield/exit/join, the timer-signal state machine.
- `src/stack_guard.rs`, `src/security/`: guarded stacks and canaries,
  control-flow checks and shadow stack, isolation domains, audit log,
  ChaCha20 key stream, address-space randomization.
- `src/observability/`: metrics, resource limits, health status and trend,
  sample profiling and its analyses.
- `src/perf/`: fast paths, pools and queues, cache-aware and NUMA-aware
  placement, CPU dispatch and byte-string helpers, context-switch timing.
- `src/arch/`, `src/context_full.rs`, `src/mem/`: architecture constants and
  feature detection, saved-register layouts, memory-ordering rules and the
  access counter.
- `app/`: what Verus does not take: the shared instances behind locks, the
  `SIGALRM` timer, page protection, floating-point ratios and text export.
- `tests/`: the test suite, run against the compiled library.

Shared state is passed by `&mut`: the library works on values that its
caller owns exclusively, and `app/` keeps the process-wide instances in
`spin::Mutex`. Times, timing samples and hardware readings are parameters.

Laws of the library are public proof functions named `law_*`, next to the
functions they speak of.
