use core::sync::atomic::Ordering;
use preemptive_threads::mem::ordering::OrderingValidator;
use preemptive_threads::mem::race_detector::RaceDetector;

#[test]
fn test_race_detector_basic() {
    let mut detector = RaceDetector::new();
    assert!(!detector.is_enabled());

    detector.enable();
    assert!(detector.is_enabled());

    detector.record_read(0x1000, 8);
    detector.record_write(0x1008, 4);

    let stats = detector.stats();
    assert_eq!(stats.total_accesses, 2);
    assert_eq!(stats.races_detected, 0);

    detector.reset();
    let stats = detector.stats();
    assert_eq!(stats.total_accesses, 0);
}

#[test]
fn test_ordering_validation() {
    // Valid load orderings
    assert!(OrderingValidator::validate_load_ordering(Ordering::Relaxed));
    assert!(OrderingValidator::validate_load_ordering(Ordering::Acquire));
    assert!(OrderingValidator::validate_load_ordering(Ordering::SeqCst));

    // Valid store orderings
    assert!(OrderingValidator::validate_store_ordering(Ordering::Relaxed));
    assert!(OrderingValidator::validate_store_ordering(Ordering::Release));
    assert!(OrderingValidator::validate_store_ordering(Ordering::SeqCst));

    // Valid CAS orderings
    assert!(OrderingValidator::validate_cas_ordering(Ordering::SeqCst, Ordering::Relaxed));
    assert!(OrderingValidator::validate_cas_ordering(Ordering::AcqRel, Ordering::Acquire));

    // Invalid CAS ordering (failure stronger than success)
    assert!(!OrderingValidator::validate_cas_ordering(Ordering::Relaxed, Ordering::SeqCst));
}

#[test]
fn disabled_detector_counts_nothing() {
    let mut detector = RaceDetector::new();
    detector.record_read(0x2000, 8);
    detector.record_write(0x2000, 8);
    assert_eq!(detector.stats().total_accesses, 0);
    detector.enable();
    detector.record_write(0x2000, 8);
    detector.disable();
    detector.record_write(0x2000, 8);
    assert_eq!(detector.stats().total_accesses, 1);
}

#[test]
fn load_and_store_orderings_refused() {
    assert!(!OrderingValidator::validate_load_ordering(Ordering::Release));
    assert!(!OrderingValidator::validate_load_ordering(Ordering::AcqRel));
    assert!(!OrderingValidator::validate_store_ordering(Ordering::Acquire));
    assert!(!OrderingValidator::validate_store_ordering(Ordering::AcqRel));
    assert!(!OrderingValidator::validate_cas_ordering(Ordering::SeqCst, Ordering::Release));
    assert!(!OrderingValidator::validate_cas_ordering(Ordering::AcqRel, Ordering::AcqRel));
}
