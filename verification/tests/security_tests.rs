use preemptive_threads::errors::ThreadError;
use preemptive_threads::security::audit::{
    AuditConfig, AuditContext, AuditLevel, AuditLogger, ThreadEventType,
};
use preemptive_threads::security::cfi::{
    is_valid_return_address, verify_arm64_call_target, verify_x86_64_call_target, CfiProtection,
    CfiShadowStack, IndirectCallGuard,
};
use preemptive_threads::security::crypto_rng::{
    chacha20_block, quarter_round, secure_random_range, secure_random_u32, secure_random_u64,
    SecureRng,
};
use preemptive_threads::security::isolation::{
    AccessType, IsolationConfig, IsolationDomain, MemoryPermissions, MemoryRegion, SecurityLevel,
    ThreadIsolation,
};
use preemptive_threads::security::stack_protection::{
    ProtectedStack, Stack, StackCanary, StackProtection, CANARY_SIZE, STACK_CANARY_MAGIC,
};
use preemptive_threads::security::{
    handle_security_violation, SecurityConfig, SecurityState, SecurityViolation, ViolationResponse,
};
use preemptive_threads::scheduler::Scheduler;

fn context(t: u64) -> AuditContext {
    AuditContext { timestamp: t, current_thread: 1, cpu_id: 0, interrupt_context: false }
}

#[test]
fn chacha_quarter_round_vector() {
    let (mut a, mut b, mut c, mut d) = (0x11111111u32, 0x01020304u32, 0x9b8d6f43u32, 0x01234567u32);
    quarter_round(&mut a, &mut b, &mut c, &mut d);
    assert_eq!((a, b, c, d), (0xea2a92f4, 0xcb1cf8ce, 0x4581472e, 0x5881c4bb));
}

#[test]
fn chacha_block_vector() {
    let state: [u32; 16] = [
        0x61707865, 0x3320646e, 0x79622d32, 0x6b206574, 0x03020100, 0x07060504, 0x0b0a0908,
        0x0f0e0d0c, 0x13121110, 0x17161514, 0x1b1a1918, 0x1f1e1d1c, 0x00000001, 0x09000000,
        0x4a000000, 0x00000000,
    ];
    let expected: [u8; 64] = [
        0x10, 0xf1, 0xe7, 0xe4, 0xd1, 0x3b, 0x59, 0x15, 0x50, 0x0f, 0xdd, 0x1f, 0xa3, 0x20, 0x71,
        0xc4, 0xc7, 0xd1, 0xf4, 0xc7, 0x33, 0xc0, 0x68, 0x03, 0x04, 0x22, 0xaa, 0x9a, 0xc3, 0xd4,
        0x6c, 0x4e, 0xd2, 0x82, 0x64, 0x46, 0x07, 0x9f, 0xaa, 0x09, 0x14, 0xc2, 0xd7, 0x05, 0xd9,
        0x8b, 0x02, 0xa2, 0xb5, 0x12, 0x9c, 0xd1, 0xde, 0x16, 0x4e, 0xb9, 0xcb, 0xd0, 0x83, 0xe8,
        0xa2, 0x50, 0x3c, 0x4e,
    ];
    assert_eq!(chacha20_block(&state), expected);
}

#[test]
fn rng_without_hardware_entropy_stays_unkeyed() {
    let mut rng = SecureRng::new();
    assert_eq!(rng.init(), Err(ThreadError::UnsupportedOperation));
    let timing = [0u64; 32];
    assert_eq!(secure_random_u64(&mut rng, &timing), Err(ThreadError::InvalidState));
    assert_eq!(secure_random_u32(&mut rng, &timing), Err(ThreadError::InvalidState));
    assert_eq!(secure_random_range(&mut rng, 0, &timing), Ok(0));
    assert_eq!(secure_random_range(&mut rng, 10, &timing), Err(ThreadError::InvalidState));
    assert!(!rng.stats().initialized);
}

#[test]
fn canary_checks() {
    let c = StackCanary::new(7, 100);
    assert_eq!(c.magic, STACK_CANARY_MAGIC);
    assert!(c.check(7));
    assert!(!c.check(8));
    assert_eq!(c.validate(8), Err(SecurityViolation::StackCanaryViolation));
    assert_eq!(c.validate(7), Ok(()));
}

#[test]
fn placed_canaries_pass_and_overwrites_are_caught() {
    let config = SecurityConfig::default_for(true, false, false);
    let mut protection = StackProtection::new();
    let stack = Stack::new(vec![0u8; 256], 0x1000);
    let mut p = ProtectedStack::new(stack, 3, config, 42, &mut protection).unwrap();
    assert_eq!(protection.canaries_placed, 2);
    assert!(p.check_canaries(&mut protection));
    assert_eq!(p.usable_range(), (0x1000 + CANARY_SIZE, 0x1000 + 256 - 2 * CANARY_SIZE));
    // Writes between the canaries leave them intact.
    p.stack_mut_write(CANARY_SIZE, 0xAA);
    p.stack_mut_write(256 - 2 * CANARY_SIZE - 1, 0xBB);
    assert!(p.check_canaries(&mut protection));
    assert_eq!(protection.violations_detected, 0);
    // Overwriting the bottom canary's magic is caught.
    p.stack_mut_write(2, 0x00);
    assert!(!p.check_canaries(&mut protection));
    assert_eq!(protection.violations_detected, 1);
    assert_eq!(p.validate_canaries(&mut protection), Err(SecurityViolation::StackCanaryViolation));
}

#[test]
fn unprotected_stack_has_no_canaries() {
    let config = SecurityConfig::default_for(false, false, false);
    let mut protection = StackProtection::new();
    let stack = Stack::new(vec![1u8; 64], 0x2000);
    let p = ProtectedStack::new(stack, 3, config, 42, &mut protection).unwrap();
    assert_eq!(protection.canaries_placed, 0);
    assert!(p.check_canaries(&mut protection));
    assert_eq!(p.usable_range(), (0x2000, 0x2000 + 64));
}

#[test]
fn shadow_stack_matches_calls_and_returns() {
    let mut protection = CfiProtection::new();
    let mut s = CfiShadowStack::new();
    assert!(s.push_return_address(0x4000).is_ok());
    assert!(s.push_return_address(0x5000).is_ok());
    assert!(s.verify_return(0x5000, &mut protection));
    assert!(!s.verify_return(0x9999, &mut protection));
    assert_eq!(protection.violations_detected, 1);
    assert_eq!(s.pop_return_address(), Err(ThreadError::InvalidState));
    for i in 0..1024usize {
        assert!(s.push_return_address(i).is_ok());
    }
    assert_eq!(s.push_return_address(1), Err(ThreadError::ResourceExhaustion));
}

#[test]
fn call_target_checks() {
    let mut protection = CfiProtection::new();
    assert!(!IndirectCallGuard::verify_call_target(0, &mut protection));
    assert!(IndirectCallGuard::verify_call_target(0x1000, &mut protection));
    assert_eq!(protection.calls_verified, 1);
    assert_eq!(IndirectCallGuard::protected_call(0, || 5, &mut protection), Err(SecurityViolation::CfiViolation));
    assert_eq!(IndirectCallGuard::protected_call(0x1000, || 5, &mut protection), Ok(5));
    assert_eq!(protection.indirect_calls_protected, 1);
    assert!(verify_x86_64_call_target(0x400000));
    assert!(!verify_x86_64_call_target(0));
    assert!(verify_arm64_call_target(0x1000));
    assert!(!verify_arm64_call_target(0x1002));
    assert!(is_valid_return_address(0x1100, 0x1000));
    assert!(!is_valid_return_address(0x21000, 0x1000));
    assert!(!is_valid_return_address(0, 0x1000));
}

#[test]
fn isolation_levels_decide_cross_domain_access() {
    let mut iso = ThreadIsolation::new();
    // Without a domain everything is allowed, and a thread may access itself.
    assert!(iso.check_access(1, 2, AccessType::MemoryWrite));
    let mut critical = IsolationConfig::default_config();
    critical.security_level = SecurityLevel::Critical;
    iso.create_domain(1, critical, 0).unwrap();
    assert!(!iso.check_access(1, 2, AccessType::Signal));
    assert!(iso.check_access(1, 1, AccessType::MemoryWrite));
    let medium = IsolationConfig::default_config();
    iso.create_domain(3, medium, 0).unwrap();
    assert!(iso.check_access(3, 2, AccessType::Signal));
    assert!(!iso.check_access(3, 2, AccessType::Ipc));
    let stats = iso.stats();
    assert_eq!(stats.domains_active, 2);
    assert_eq!(stats.violations_detected, 2);
    assert_eq!(stats.boundary_crosses, 1);
    iso.remove_domain(1);
    assert!(iso.check_access(1, 2, AccessType::ThreadControl));
}

#[test]
fn audit_log_keeps_capacity_and_level() {
    let config = AuditConfig {
        log_level: AuditLevel::Info,
        max_buffer_size: 2,
        enabled_categories: Default::default(),
        export_format: preemptive_threads::security::audit::ExportFormat::Plain,
    };
    let mut log = AuditLogger::new(config);
    log.log_thread_event(1, ThreadEventType::Created, String::from("a"), context(1));
    log.log_thread_event(2, ThreadEventType::Created, String::from("b"), context(2));
    log.log_thread_event(3, ThreadEventType::Created, String::from("c"), context(3));
    log.log_security_violation(SecurityViolation::CfiViolation, Some(3), String::from("d"), context(4));
    let stats = log.get_stats();
    assert_eq!(stats.events_logged, 4);
    assert_eq!(stats.buffer_size, 2);
    assert_eq!(stats.security_violations, 1);
    let recent = log.get_recent_events(5);
    assert_eq!(recent.len(), 2);
    assert_eq!(recent[0].context.timestamp, 4);
    assert_eq!(recent[0].level, AuditLevel::Critical);
    assert_eq!(recent[1].context.timestamp, 3);
}

#[test]
fn overlapping_canaries_on_a_short_stack() {
    let config = SecurityConfig::default_for(true, false, false);
    let mut protection = StackProtection::new();
    // 56 bytes: the top canary starts 8 bytes in and overwrites the
    // thread word of the bottom one.
    let p = ProtectedStack::new(Stack::new(vec![0u8; 56], 0x3000), 1, config, 0, &mut protection).unwrap();
    assert!(!p.check_canaries(&mut protection));
    // 48 bytes: both canaries are written at the same place.
    let q = ProtectedStack::new(Stack::new(vec![0u8; 48], 0x3000), 1, config, 0, &mut protection).unwrap();
    assert!(q.check_canaries(&mut protection));
    // 64 bytes: the canaries no longer overlap the checked words.
    let r = ProtectedStack::new(Stack::new(vec![0u8; 64], 0x3000), 1, config, 0, &mut protection).unwrap();
    assert!(r.check_canaries(&mut protection));
}

#[test]
fn forbidden_region_blocks_accesses_starting_in_it() {
    let rw = MemoryPermissions { read: true, write: true, execute: false };
    let mut config = IsolationConfig::default_config();
    config.memory_restrictions.forbidden_regions.push(MemoryRegion { start: 100, size: 100, permissions: rw });
    let d = IsolationDomain::new(1, config, 0).unwrap();
    assert!(!d.check_memory_access(100, 10, false));
    assert!(!d.check_memory_access(150, 10, true));
    assert!(!d.check_memory_access(199, 0, false));
    // Only the start address is tested against a forbidden region.
    assert!(d.check_memory_access(50, 100, false));
    assert!(d.check_memory_access(200, 50, true));
}

#[test]
fn violation_handling_follows_the_configuration() {
    let mut scheduler = Scheduler::new();
    let mut audit: Option<AuditLogger> = None;
    let mut lenient = SecurityState::new(SecurityConfig::default_for(true, true, false));
    let (r, switch) = handle_security_violation(
        &mut lenient,
        SecurityViolation::MemoryViolation,
        &mut audit,
        String::new(),
        context(1),
        &mut scheduler,
    );
    assert_eq!(r, ViolationResponse::Continue);
    assert!(switch.is_none());
    assert_eq!(lenient.get_stats().memory_violations, 1);
    let (r, _) = handle_security_violation(
        &mut lenient,
        SecurityViolation::StackCanaryViolation,
        &mut audit,
        String::new(),
        context(2),
        &mut scheduler,
    );
    assert_eq!(r, ViolationResponse::TerminateThread);
    let mut strict = SecurityState::new(SecurityConfig::default_for(true, true, true));
    let (r, switch) = handle_security_violation(
        &mut strict,
        SecurityViolation::CfiViolation,
        &mut audit,
        String::new(),
        context(3),
        &mut scheduler,
    );
    assert_eq!(r, ViolationResponse::Panic);
    assert!(switch.is_none());
}
