pub mod aslr;
pub mod audit;
pub mod cfi;
pub mod crypto_rng;
pub mod isolation;
pub mod stack_protection;

use vstd::prelude::*;
use std::string::String;
use crate::observability::metrics::wrap_add;
use crate::errors::ThreadError;
use crate::scheduler::Scheduler;
use crate::sync::{exit_switch_effect, exit_thread};
use crate::thread::ThreadId;
use crate::security::aslr::{AslrManager, init_aslr};
use crate::security::audit::{AuditContext, AuditEvent, AuditEventType, AuditLevel, AuditLogger, init_audit_logging};
use crate::security::cfi::init_cfi_protection;
use crate::security::crypto_rng::{SecureRng, init_secure_rng};
use crate::security::isolation::{ThreadIsolation, init_thread_isolation};
use crate::security::stack_protection::init_stack_protection;

verus! {

/// Which protections are on.
#[derive(Debug, Clone, Copy, PartialEq, Eq, Structural)]
pub struct SecurityConfig {
    pub enable_stack_canaries: bool,
    pub enable_guard_pages: bool,
    pub enable_cfi: bool,
    pub enable_thread_isolation: bool,
    pub enable_aslr: bool,
    pub enable_audit_logging: bool,
    pub use_secure_rng: bool,
    pub panic_on_violation: bool,
}

/// The default protections of a build: canaries, control-flow integrity
/// and address randomization in hardened builds, guard pages with an MMU,
/// audit logging and panicking on violations in debug builds, the secure
/// generator always, isolation never.
pub open spec fn default_security(hardened: bool, mmu: bool, debug_build: bool) -> SecurityConfig {
    SecurityConfig {
        enable_stack_canaries: hardened,
        enable_guard_pages: mmu,
        enable_cfi: hardened,
        enable_thread_isolation: false,
        enable_aslr: hardened,
        enable_audit_logging: debug_build,
        use_secure_rng: true,
        panic_on_violation: debug_build,
    }
}

impl SecurityConfig {
    /// The default protections of a build with the given properties.
    pub fn default_for(hardened: bool, mmu: bool, debug_build: bool) -> (c: Self)
        ensures
            c == default_security(hardened, mmu, debug_build),
    {
        SecurityConfig {
            enable_stack_canaries: hardened,
            enable_guard_pages: mmu,
            enable_cfi: hardened,
            enable_thread_isolation: false,
            enable_aslr: hardened,
            enable_audit_logging: debug_build,
            use_secure_rng: true,
            panic_on_violation: debug_build,
        }
    }
}

/// Kinds of security violations.
#[derive(Debug, Clone, Copy, PartialEq, Eq, Structural)]
pub enum SecurityViolation {
    StackCanaryViolation,
    GuardPageViolation,
    CfiViolation,
    IsolationViolation,
    MemoryViolation,
    ResourceViolation,
    CryptoViolation,
}

/// What to do about a violation.
#[derive(Debug, Clone, Copy, PartialEq, Eq, Structural)]
pub enum ViolationResponse {
    Continue,
    TerminateThread,
    Panic,
}

/// The response to `v` under `config`: panic when so configured; else
/// the violating thread ends for a corrupted stack, a guard page hit or a
/// control-flow violation, and execution goes on for the others.
pub open spec fn response_to(config: SecurityConfig, v: SecurityViolation) -> ViolationResponse {
    if config.panic_on_violation {
        ViolationResponse::Panic
    } else {
        match v {
            SecurityViolation::StackCanaryViolation | SecurityViolation::GuardPageViolation
            | SecurityViolation::CfiViolation => ViolationResponse::TerminateThread,
            _ => ViolationResponse::Continue,
        }
    }
}

/// Which protections are currently on.
#[derive(Debug, Clone, Copy, PartialEq, Eq, Structural)]
pub struct FeaturesEnabled {
    pub canaries: bool,
    pub guard_pages: bool,
    pub cfi: bool,
    pub isolation: bool,
    pub aslr: bool,
    pub audit: bool,
}

/// Violation counts and the protections that are on.
#[derive(Debug, Clone, Copy, PartialEq, Eq, Structural)]
pub struct SecurityStats {
    pub total_violations: u64,
    pub stack_violations: u64,
    pub guard_violations: u64,
    pub cfi_violations: u64,
    pub isolation_violations: u64,
    pub memory_violations: u64,
    pub resource_violations: u64,
    pub crypto_violations: u64,
    pub features_enabled: FeaturesEnabled,
}

/// Protections that can be switched at run time.
#[derive(Debug, Clone, Copy, PartialEq, Eq, Structural)]
pub enum SecurityFeature {
    StackCanaries,
    GuardPages,
    Cfi,
    Isolation,
    Aslr,
    Audit,
}

/// `s` with one more violation of kind `v`, in total and for its kind.
pub open spec fn count_violation(s: SecurityStats, v: SecurityViolation) -> SecurityStats {
    let s1 = SecurityStats { total_violations: wrap_add(s.total_violations, 1), ..s };
    match v {
        SecurityViolation::StackCanaryViolation => SecurityStats {
            stack_violations: wrap_add(s.stack_violations, 1),
            ..s1
        },
        SecurityViolation::GuardPageViolation => SecurityStats {
            guard_violations: wrap_add(s.guard_violations, 1),
            ..s1
        },
        SecurityViolation::CfiViolation => SecurityStats { cfi_violations: wrap_add(s.cfi_violations, 1), ..s1 },
        SecurityViolation::IsolationViolation => SecurityStats {
            isolation_violations: wrap_add(s.isolation_violations, 1),
            ..s1
        },
        SecurityViolation::MemoryViolation => SecurityStats {
            memory_violations: wrap_add(s.memory_violations, 1),
            ..s1
        },
        SecurityViolation::ResourceViolation => SecurityStats {
            resource_violations: wrap_add(s.resource_violations, 1),
            ..s1
        },
        SecurityViolation::CryptoViolation => SecurityStats {
            crypto_violations: wrap_add(s.crypto_violations, 1),
            ..s1
        },
    }
}

/// `f` with `feature` switched to `enabled`.
pub open spec fn with_feature(f: FeaturesEnabled, feature: SecurityFeature, enabled: bool) -> FeaturesEnabled {
    match feature {
        SecurityFeature::StackCanaries => FeaturesEnabled { canaries: enabled, ..f },
        SecurityFeature::GuardPages => FeaturesEnabled { guard_pages: enabled, ..f },
        SecurityFeature::Cfi => FeaturesEnabled { cfi: enabled, ..f },
        SecurityFeature::Isolation => FeaturesEnabled { isolation: enabled, ..f },
        SecurityFeature::Aslr => FeaturesEnabled { aslr: enabled, ..f },
        SecurityFeature::Audit => FeaturesEnabled { audit: enabled, ..f },
    }
}

/// Violation counters and switches of the protections.
pub struct SecurityState {
    stats: SecurityStats,
    config: SecurityConfig,
}

impl SecurityState {
    /// The counters and switches.
    pub closed spec fn stats_spec(&self) -> SecurityStats {
        self.stats
    }

    /// The configuration it was made with.
    pub closed spec fn config_spec(&self) -> SecurityConfig {
        self.config
    }

    /// No violation yet; the switches as `config` sets them.
    pub fn new(config: SecurityConfig) -> (s: Self)
        ensures
            s.config_spec() == config,
            s.stats_spec() == (SecurityStats {
                total_violations: 0,
                stack_violations: 0,
                guard_violations: 0,
                cfi_violations: 0,
                isolation_violations: 0,
                memory_violations: 0,
                resource_violations: 0,
                crypto_violations: 0,
                features_enabled: FeaturesEnabled {
                    canaries: config.enable_stack_canaries,
                    guard_pages: config.enable_guard_pages,
                    cfi: config.enable_cfi,
                    isolation: config.enable_thread_isolation,
                    aslr: config.enable_aslr,
                    audit: config.enable_audit_logging,
                },
            }),
    {
        SecurityState {
            stats: SecurityStats {
                total_violations: 0,
                stack_violations: 0,
                guard_violations: 0,
                cfi_violations: 0,
                isolation_violations: 0,
                memory_violations: 0,
                resource_violations: 0,
                crypto_violations: 0,
                features_enabled: FeaturesEnabled {
                    canaries: config.enable_stack_canaries,
                    guard_pages: config.enable_guard_pages,
                    cfi: config.enable_cfi,
                    isolation: config.enable_thread_isolation,
                    aslr: config.enable_aslr,
                    audit: config.enable_audit_logging,
                },
            },
            config,
        }
    }

    /// Counts violation `violation`, reports it to the audit log in `audit`
    /// (with `details`, as seen at `context`) when auditing is on, and
    /// answers with the configured response.
    pub fn record_violation(
        &mut self,
        violation: SecurityViolation,
        audit: &mut Option<AuditLogger>,
        details: String,
        context: AuditContext,
    ) -> (r: ViolationResponse)
        ensures
            r == response_to(old(self).config_spec(), violation),
            final(self).config_spec() == old(self).config_spec(),
            final(self).stats_spec() == count_violation(old(self).stats_spec(), violation),
            !(old(self).stats_spec().features_enabled.audit && *old(audit) is Some) ==> *final(audit) == *old(audit),
            old(self).stats_spec().features_enabled.audit && *old(audit) is Some ==> {
                &&& *final(audit) is Some
                &&& (*old(audit))->0.categories().security ==> (*final(audit))->0.logs(
                    &(*old(audit))->0,
                    AuditEvent {
                        event_type: AuditEventType::SecurityViolation {
                            violation_type: violation,
                            thread_id: Some(context.current_thread),
                            details,
                        },
                        level: AuditLevel::Critical,
                        context,
                    },
                )
                &&& !(*old(audit))->0.categories().security ==> (*final(audit))->0.unchanged(&(*old(audit))->0)
            },
    {
        self.stats.total_violations = self.stats.total_violations.wrapping_add(1);
        match violation {
            SecurityViolation::StackCanaryViolation => {
                self.stats.stack_violations = self.stats.stack_violations.wrapping_add(1);
            },
            SecurityViolation::GuardPageViolation => {
                self.stats.guard_violations = self.stats.guard_violations.wrapping_add(1);
            },
            SecurityViolation::CfiViolation => {
                self.stats.cfi_violations = self.stats.cfi_violations.wrapping_add(1);
            },
            SecurityViolation::IsolationViolation => {
                self.stats.isolation_violations = self.stats.isolation_violations.wrapping_add(1);
            },
            SecurityViolation::MemoryViolation => {
                self.stats.memory_violations = self.stats.memory_violations.wrapping_add(1);
            },
            SecurityViolation::ResourceViolation => {
                self.stats.resource_violations = self.stats.resource_violations.wrapping_add(1);
            },
            SecurityViolation::CryptoViolation => {
                self.stats.crypto_violations = self.stats.crypto_violations.wrapping_add(1);
            },
        }
        if self.stats.features_enabled.audit {
            if let Some(logger) = audit {
                logger.log_security_violation(violation, Some(context.current_thread), details, context);
            }
        }
        if self.config.panic_on_violation {
            ViolationResponse::Panic
        } else {
            match violation {
                SecurityViolation::StackCanaryViolation | SecurityViolation::GuardPageViolation
                | SecurityViolation::CfiViolation => ViolationResponse::TerminateThread,
                _ => ViolationResponse::Continue,
            }
        }
    }

    /// The counters and switches.
    pub fn get_stats(&self) -> (s: SecurityStats)
        ensures
            s == self.stats_spec(),
    {
        self.stats
    }

    /// Switches `feature` on or off.
    pub fn configure_feature(&mut self, feature: SecurityFeature, enabled: bool)
        ensures
            final(self).config_spec() == old(self).config_spec(),
            final(self).stats_spec() == (SecurityStats {
                features_enabled: with_feature(old(self).stats_spec().features_enabled, feature, enabled),
                ..old(self).stats_spec()
            }),
    {
        match feature {
            SecurityFeature::StackCanaries => {
                self.stats.features_enabled.canaries = enabled;
            },
            SecurityFeature::GuardPages => {
                self.stats.features_enabled.guard_pages = enabled;
            },
            SecurityFeature::Cfi => {
                self.stats.features_enabled.cfi = enabled;
            },
            SecurityFeature::Isolation => {
                self.stats.features_enabled.isolation = enabled;
            },
            SecurityFeature::Aslr => {
                self.stats.features_enabled.aslr = enabled;
            },
            SecurityFeature::Audit => {
                self.stats.features_enabled.audit = enabled;
            },
        }
    }
}

/// The number of protections `config` turns on.
pub open spec fn enabled_count(config: SecurityConfig) -> nat {
    (if config.enable_stack_canaries { 1nat } else { 0nat }) + (if config.enable_guard_pages {
        1nat
    } else {
        0nat
    }) + (if config.enable_cfi { 1nat } else { 0nat }) + (if config.enable_thread_isolation {
        1nat
    } else {
        0nat
    }) + (if config.enable_aslr { 1nat } else { 0nat }) + (if config.enable_audit_logging {
        1nat
    } else {
        0nat
    }) + (if config.use_secure_rng { 1nat } else { 0nat })
}

/// Counts the protections `config` turns on.
pub fn count_enabled_features(config: &SecurityConfig) -> (n: usize)
    ensures
        n == enabled_count(*config),
{
    let mut count: usize = 0;
    if config.enable_stack_canaries {
        count = count + 1;
    }
    if config.enable_guard_pages {
        count = count + 1;
    }
    if config.enable_cfi {
        count = count + 1;
    }
    if config.enable_thread_isolation {
        count = count + 1;
    }
    if config.enable_aslr {
        count = count + 1;
    }
    if config.enable_audit_logging {
        count = count + 1;
    }
    if config.use_secure_rng {
        count = count + 1;
    }
    count
}

/// The counters and switches of `state`.
pub fn get_security_stats(state: &SecurityState) -> (s: SecurityStats)
    ensures
        s == state.stats_spec(),
{
    state.get_stats()
}

/// Switches `feature` of `state` on or off.
pub fn configure_security_feature(state: &mut SecurityState, feature: SecurityFeature, enabled: bool)
    ensures
        final(state).config_spec() == old(state).config_spec(),
        final(state).stats_spec() == (SecurityStats {
            features_enabled: with_feature(old(state).stats_spec().features_enabled, feature, enabled),
            ..old(state).stats_spec()
        }),
{
    state.configure_feature(feature, enabled);
}

/// Starts the subsystems that `config` turns on, in the order stack
/// protection, control-flow integrity, isolation, secure generator,
/// address randomization, audit log; the first failure stops the start.
/// Seeding the generator fails in this build (no hardware entropy), so
/// with the secure generator on, randomization and audit are not started.
pub fn init_security(
    config: SecurityConfig,
    isolation: &mut Option<ThreadIsolation>,
    rng: &mut SecureRng,
    aslr: &mut Option<AslrManager>,
    audit: &mut Option<AuditLogger>,
    debug_build: bool,
    context: AuditContext,
) -> (r: Result<(), ThreadError>)
    ensures
        config.enable_thread_isolation ==> *final(isolation) is Some && (*final(isolation))->0.domains_spec()
            == Map::<ThreadId, crate::security::isolation::IsolationDomain>::empty(),
        !config.enable_thread_isolation ==> *final(isolation) == *old(isolation),
        final(rng).stream() == old(rng).stream(),
        config.use_secure_rng ==> r == Err::<(), ThreadError>(ThreadError::UnsupportedOperation) && *final(aslr)
            == *old(aslr) && *final(audit) == *old(audit),
        !config.use_secure_rng ==> {
            &&& r is Ok
            &&& config.enable_aslr ==> *final(aslr) is Some
            &&& !config.enable_aslr ==> *final(aslr) == *old(aslr)
            &&& config.enable_audit_logging ==> *final(audit) is Some
            &&& !config.enable_audit_logging ==> *final(audit) == *old(audit)
        },
{
    if config.enable_stack_canaries || config.enable_guard_pages {
        init_stack_protection(config)?;
    }
    if config.enable_cfi {
        init_cfi_protection(config)?;
    }
    if config.enable_thread_isolation {
        init_thread_isolation(isolation, config)?;
    }
    if config.use_secure_rng {
        init_secure_rng(rng)?;
    }
    if config.enable_aslr {
        init_aslr(aslr, config)?;
    }
    if config.enable_audit_logging {
        init_audit_logging(audit, config, debug_build, context)?;
    }
    Ok(())
}

/// Handles a violation that must not be let through: it is recorded (see
/// `SecurityState::record_violation`), then either the violating thread
/// ends, giving the context switch to perform, or the system must panic,
/// which the caller does. A configuration that answers the violation with
/// `Continue` leaves the scheduler as it is; the caller treats that answer
/// to a serious violation as an error.
pub fn handle_security_violation(
    state: &mut SecurityState,
    violation: SecurityViolation,
    audit: &mut Option<AuditLogger>,
    details: String,
    context: AuditContext,
    scheduler: &mut Scheduler,
) -> (r: (ViolationResponse, Option<(ThreadId, ThreadId)>))
    requires
        old(scheduler).wf(),
    ensures
        final(scheduler).wf(),
        r.0 == response_to(old(state).config_spec(), violation),
        final(state).config_spec() == old(state).config_spec(),
        final(state).stats_spec() == count_violation(old(state).stats_spec(), violation),
        !(old(state).stats_spec().features_enabled.audit && *old(audit) is Some) ==> *final(audit) == *old(audit),
        old(state).stats_spec().features_enabled.audit && *old(audit) is Some ==> {
            &&& *final(audit) is Some
            &&& (*old(audit))->0.categories().security ==> (*final(audit))->0.logs(
                &(*old(audit))->0,
                AuditEvent {
                    event_type: AuditEventType::SecurityViolation {
                        violation_type: violation,
                        thread_id: Some(context.current_thread),
                        details,
                    },
                    level: AuditLevel::Critical,
                    context,
                },
            )
            &&& !(*old(audit))->0.categories().security ==> (*final(audit))->0.unchanged(&(*old(audit))->0)
        },
        r.0 == ViolationResponse::Panic ==> r.1 is None && *final(scheduler) == *old(scheduler),
        r.0 == ViolationResponse::Continue ==> r.1 is None && *final(scheduler) == *old(scheduler),
        r.0 == ViolationResponse::TerminateThread && old(scheduler).current() is None ==> r.1 is None
            && *final(scheduler) == *old(scheduler),
        r.0 == ViolationResponse::TerminateThread && old(scheduler).current() is Some ==> (
            final(scheduler).table(),
            final(scheduler).queue(),
            final(scheduler).current(),
            r.1,
        ) == exit_switch_effect(old(scheduler).table(), old(scheduler).queue(), old(scheduler).current()->0),
{
    let response = state.record_violation(violation, audit, details, context);
    match response {
        ViolationResponse::TerminateThread => {
            let switch = exit_thread(scheduler);
            (response, switch)
        },
        _ => (response, None),
    }
}

} // verus!
