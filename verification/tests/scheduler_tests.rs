use preemptive_threads::atomic_scheduler::{CircularBuffer, PriorityQueue};
use preemptive_threads::error::ThreadError;
use preemptive_threads::preemption::Preemption;
use preemptive_threads::scheduler::Scheduler;
use preemptive_threads::signal_safe::{
    clear_preemption_pending, get_preemption_count, is_preemption_pending, preemption_checkpoint,
    signal_safe_handler, PreemptionState,
};
use preemptive_threads::stack_guard::{ProtectedStack, StackGuard, StackStatus};
use preemptive_threads::sync::{exit_thread, yield_thread};
use preemptive_threads::thread::{ThreadState, MAX_THREADS};

#[test]
fn scheduler_picks_highest_priority_first() {
    let mut s = Scheduler::new();
    assert_eq!(s.spawn_thread(4096, 1), Ok(0));
    assert_eq!(s.spawn_thread(4096, 9), Ok(1));
    assert_eq!(s.spawn_thread(4096, 9), Ok(2));
    assert_eq!(s.spawn_thread(4096, 5), Ok(3));
    // Highest priority first, oldest first among equals.
    assert_eq!(s.schedule(), Some(1));
    assert_eq!(s.schedule(), Some(2));
    assert_eq!(s.schedule(), Some(3));
    assert_eq!(s.schedule(), Some(0));
    assert_eq!(s.schedule(), None);
}

#[test]
fn scheduler_runs_out_of_ids() {
    let mut s = Scheduler::new();
    for i in 0..MAX_THREADS {
        assert_eq!(s.spawn_thread(1024, 1), Ok(i));
    }
    assert_eq!(s.spawn_thread(1024, 1), Err(ThreadError::MaxThreadsReached));
}

#[test]
fn exit_then_join_returns_at_once() {
    let mut s = Scheduler::new();
    s.spawn_thread(4096, 1).unwrap();
    s.spawn_thread(4096, 1).unwrap();
    let first = s.schedule().unwrap();
    s.set_current_thread(Some(first));
    assert_eq!(s.get_thread(first).unwrap().state, ThreadState::Running);
    let switch = exit_thread(&mut s);
    assert_eq!(switch, Some((0, 1)));
    assert_eq!(s.get_thread(0).unwrap().state, ThreadState::Finished);
    assert_eq!(s.join_thread(0, 1), Ok(()));
}

#[test]
fn join_of_unknown_thread_is_refused() {
    let mut s = Scheduler::new();
    assert_eq!(s.join_thread(5, 0), Err(ThreadError::InvalidThreadId));
    assert_eq!(s.join_thread(MAX_THREADS + 3, 0), Err(ThreadError::InvalidThreadId));
}

#[test]
fn join_blocks_until_target_exits() {
    let mut s = Scheduler::new();
    s.spawn_thread(4096, 1).unwrap(); // 0
    s.spawn_thread(4096, 1).unwrap(); // 1
    let t0 = s.schedule().unwrap();
    s.set_current_thread(Some(t0));
    // Thread 0 waits for thread 1.
    assert_eq!(s.join_thread(1, 0), Ok(()));
    assert_eq!(s.get_thread(0).unwrap().state, ThreadState::Blocked);
    // Thread 1 runs and exits: thread 0 is woken.
    let t1 = s.schedule().unwrap();
    assert_eq!(t1, 1);
    s.set_current_thread(Some(t1));
    exit_thread(&mut s);
    assert_eq!(s.get_thread(1).unwrap().state, ThreadState::Finished);
    assert_eq!(s.get_current_thread(), Some(0));
    assert_eq!(s.get_thread(0).unwrap().state, ThreadState::Running);
}

#[test]
fn yield_switches_between_equal_threads() {
    let mut s = Scheduler::new();
    s.spawn_thread(4096, 3).unwrap();
    s.spawn_thread(4096, 3).unwrap();
    let first = s.schedule().unwrap();
    s.set_current_thread(Some(first));
    assert_eq!(yield_thread(&mut s), Some((0, 1)));
    assert_eq!(yield_thread(&mut s), Some((1, 0)));
    assert_eq!(s.get_thread(1).unwrap().state, ThreadState::Ready);
}

#[test]
fn yield_without_running_thread_does_nothing() {
    let mut s = Scheduler::new();
    s.spawn_thread(4096, 3).unwrap();
    assert_eq!(yield_thread(&mut s), None);
    assert_eq!(s.get_current_thread(), None);
}

#[test]
fn get_thread_mut_writes_through() {
    let mut s = Scheduler::new();
    s.spawn_thread(2048, 2).unwrap();
    if let Some(t) = s.get_thread_mut(0) {
        t.priority = 7;
    }
    assert_eq!(s.get_thread(0).unwrap().priority, 7);
    assert!(s.get_thread_mut(3).is_none());
}

#[test]
fn ring_refuses_when_full_and_keeps_order() {
    let mut b = CircularBuffer::new();
    for i in 0..31 {
        assert!(b.enqueue(i));
    }
    assert!(!b.enqueue(99));
    for i in 0..31 {
        assert_eq!(b.dequeue(), Some(i));
    }
    assert!(b.is_empty());
    assert_eq!(b.dequeue(), None);
}

#[test]
fn priority_queue_top_level_takes_high_priorities() {
    let mut q = PriorityQueue::new();
    assert!(q.enqueue(10, 200)); // clamped to the top level
    assert!(q.enqueue(11, 7));
    assert!(q.enqueue(12, 0));
    assert_eq!(q.dequeue(), Some(10));
    assert_eq!(q.dequeue(), Some(11));
    assert_eq!(q.dequeue(), Some(12));
    assert_eq!(q.dequeue(), None);
}

#[test]
fn signals_are_counted_and_checkpoint_yields() {
    let mut state = PreemptionState::new();
    let mut s = Scheduler::new();
    s.spawn_thread(4096, 1).unwrap();
    s.spawn_thread(4096, 1).unwrap();
    let first = s.schedule().unwrap();
    s.set_current_thread(Some(first));
    assert_eq!(preemption_checkpoint(&mut state, &mut s), None);
    signal_safe_handler(&mut state, 14);
    signal_safe_handler(&mut state, 14);
    signal_safe_handler(&mut state, 14);
    assert_eq!(get_preemption_count(&state), 3);
    assert!(is_preemption_pending(&state));
    assert_eq!(preemption_checkpoint(&mut state, &mut s), Some((0, 1)));
    assert!(!is_preemption_pending(&state));
    clear_preemption_pending(&mut state);
    assert_eq!(get_preemption_count(&state), 3);
}

#[test]
fn preemption_period_is_split_into_seconds() {
    let mut p = Preemption::new();
    assert!(!p.is_enabled());
    assert_eq!(p.enable(2_500_000), (2, 500_000));
    assert!(p.is_enabled());
    assert!(p.disable());
    assert!(!p.disable());
}

#[test]
fn stack_guard_reports_usage_overflow_and_corruption() {
    let guard = StackGuard { guard_size: 64, canary_value: 0x1122334455667788, red_zone: 128 };
    let base: u64 = 0x10000;
    let mut stack = ProtectedStack::new(vec![0u8; 8192], base, guard);
    // Stack top is the end of the region; usable bytes are 8192 - 64.
    let top = base + 8192;
    match stack.check_overflow(top - 100) {
        StackStatus::Normal { used_bytes, free_bytes } => {
            assert_eq!(used_bytes, 100);
            assert_eq!(free_bytes, 8128 - 100);
        }
        _ => panic!("expected a normal stack"),
    }
    match stack.check_overflow(base + 64 + 50) {
        StackStatus::NearOverflow { bytes_remaining } => assert_eq!(bytes_remaining, 50),
        _ => panic!("expected a near overflow"),
    }
    match stack.check_overflow(base + 10) {
        StackStatus::Overflow { overflow_bytes } => assert_eq!(overflow_bytes, 54),
        _ => panic!("expected an overflow"),
    }
    let stats = stack.get_stats(top - 10);
    assert_eq!(stats.total_size, 8192);
    assert_eq!(stats.usable_size, 8128);
    assert_eq!(stats.current_usage, 10);
    assert_eq!(stats.peak_usage, 8128 - 50);
}

#[test]
fn error_messages() {
    assert_eq!(ThreadError::MaxThreadsReached.as_str(), "Maximum number of threads reached");
    assert_eq!(ThreadError::SchedulerFull.as_str(), "Scheduler queue is full");
}

#[test]
fn kernel_starts_once_and_never_reuses_ids() {
    let mut k = preemptive_threads::kernel::Kernel::new();
    assert!(!k.is_initialized());
    assert_eq!(k.init(), Ok(()));
    assert!(k.is_initialized());
    assert_eq!(k.init(), Err(()));
    let a = k.next_thread_id();
    let b = k.next_thread_id();
    let c = k.next_thread_id();
    assert_eq!((a, b, c), (1, 2, 3));
}
