use preemptive_threads::atomic_scheduler::{AtomicScheduler, CircularBuffer, PriorityQueue};
use preemptive_threads::error::ThreadError;
use preemptive_threads::safe_api::{Mutex, ThreadBuilder};
use preemptive_threads::scheduler::Scheduler;
use preemptive_threads::stack_guard::{ProtectedStack, StackGuard, StackStatus};
use preemptive_threads::signal_safe::{
    clear_preemption_pending, get_preemption_count, is_preemption_pending, signal_safe_handler,
    PreemptionState,
};

#[test]
fn test_atomic_scheduler_basic() {
    let mut counter: u32 = 0;

    fn thread1_fn(counter: &mut u32) {
        for _ in 0..10 {
            *counter += 1;
        }
    }

    fn thread2_fn(counter: &mut u32) {
        for _ in 0..10 {
            *counter += 10;
        }
    }

    let mut scheduler = AtomicScheduler::new();
    let thread1 = scheduler.spawn_thread(65536, 5).unwrap();
    let thread2 = scheduler.spawn_thread(65536, 5).unwrap();

    // Simulate scheduling: running the picked thread's function stands in
    // for the context switch to it.
    for _ in 0..50 {
        if let Some(next_thread) = scheduler.schedule() {
            println!("Would schedule thread {}", next_thread);
            if next_thread == thread1 {
                thread1_fn(&mut counter);
            } else if next_thread == thread2 {
                thread2_fn(&mut counter);
            }
        }
    }

    assert!(counter > 0);
}

#[test]
fn test_stack_guard() {
    let memory = vec![0u8; 8192];
    let guard = StackGuard::default();
    let base: u64 = 0x7000_0000;

    let mut stack = ProtectedStack::new(memory, base, guard);
    // A fresh stack: the stack pointer is at its top.
    let sp = base + 8192;

    // Check initial state
    match stack.check_overflow(sp) {
        StackStatus::Normal { used_bytes, free_bytes } => {
            assert!(used_bytes < 100);
            assert!(free_bytes > 4000);
        }
        _ => panic!("Stack should be OK initially"),
    }

    // Get stats
    let stats = stack.get_stats(sp);
    assert_eq!(stats.total_size, 8192);
    assert!(stats.usable_size < 8192); // Less due to guards
}

#[test]
fn test_priority_queue() {
    let mut queue = PriorityQueue::new();

    // Add threads with different priorities
    assert!(queue.enqueue(1, 7)); // High priority
    assert!(queue.enqueue(2, 3)); // Low priority
    assert!(queue.enqueue(3, 5)); // Medium priority

    // Should dequeue in priority order
    assert_eq!(queue.dequeue(), Some(1)); // Priority 7
    assert_eq!(queue.dequeue(), Some(3)); // Priority 5
    assert_eq!(queue.dequeue(), Some(2)); // Priority 3
    assert_eq!(queue.dequeue(), None);
}

#[test]
fn test_mutex() {
    let mut data: Mutex<u32> = Mutex::new(0);
    let mut flag = false;

    // Lock and modify
    {
        let guard = data.lock();
        data.set(&guard, 42);

        // Try lock should fail while locked
        assert!(data.try_lock().is_none());
        data.unlock(guard);
    }

    // Lock released, try_lock should succeed
    if let Some(guard) = data.try_lock() {
        assert_eq!(*data.get(&guard), 42);
        flag = true;
        data.unlock(guard);
    }

    assert!(flag);
}

#[test]
fn test_circular_buffer() {
    let mut buffer = CircularBuffer::new();

    // Test enqueue/dequeue
    assert!(buffer.enqueue(1));
    assert!(buffer.enqueue(2));
    assert!(buffer.enqueue(3));

    assert_eq!(buffer.dequeue(), Some(1));
    assert_eq!(buffer.dequeue(), Some(2));
    assert_eq!(buffer.dequeue(), Some(3));
    assert_eq!(buffer.dequeue(), None);

    // Test wrap around
    for i in 0..30 {
        assert!(buffer.enqueue(i));
    }

    for i in 0..30 {
        assert_eq!(buffer.dequeue(), Some(i));
    }
}

#[test]
fn test_signal_safe_preemption() {
    let mut state = PreemptionState::new();

    // Test preemption counter
    let initial_count = get_preemption_count(&state);

    // Simulate preemption
    assert!(!is_preemption_pending(&state));

    // Would be set by signal handler
    signal_safe_handler(&mut state, 0);

    assert!(is_preemption_pending(&state));
    assert_eq!(get_preemption_count(&state), initial_count + 1);

    // Clear pending
    clear_preemption_pending(&mut state);
    assert!(!is_preemption_pending(&state));
}

#[test]
fn test_thread_builder() {
    let builder = ThreadBuilder::new()
        .stack_size(128 * 1024)
        .priority(7)
        .name("test_thread");

    // Can't actually spawn in no_std tests, but API should compile
    match builder.spawn(|| {
        println!("Hello from thread");
    }) {
        Err(ThreadError::NotImplemented) => {
            // Expected in no_std
        }
        _ => panic!("Should return NotImplemented"),
    }
}

#[test]
fn scheduler_picks_highest_priority_then_fifo() {
    let mut s = Scheduler::new();
    let a = s.spawn_thread(4096, 1).unwrap();
    let b = s.spawn_thread(4096, 5).unwrap();
    let c = s.spawn_thread(4096, 5).unwrap();
    assert_eq!((a, b, c), (0, 1, 2));
    assert_eq!(s.schedule(), Some(1));
    assert_eq!(s.schedule(), Some(2));
    assert_eq!(s.schedule(), Some(0));
    assert_eq!(s.schedule(), None);
}
