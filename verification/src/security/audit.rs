use vstd::prelude::*;
use std::collections::VecDeque;
use std::string::String;
use crate::errors::ThreadError;
use crate::security::{SecurityConfig, SecurityViolation};
use crate::thread::ThreadId;
use crate::observability::metrics::wrap_add;
use crate::perf::fast_paths::wrap_inc_usize;

verus! {

/// Severity of an audit event, from least to most.
#[derive(Debug, Clone, Copy, PartialEq, Eq, Structural, PartialOrd, Ord)]
pub enum AuditLevel {
    Debug,
    Info,
    Warning,
    Critical,
}

/// The rank of a level: 0 for debug up to 3 for critical.
pub open spec fn level_rank(l: AuditLevel) -> int {
    match l {
        AuditLevel::Debug => 0,
        AuditLevel::Info => 1,
        AuditLevel::Warning => 2,
        AuditLevel::Critical => 3,
    }
}

fn rank(l: AuditLevel) -> (r: u8)
    ensures
        r == level_rank(l),
{
    match l {
        AuditLevel::Debug => 0,
        AuditLevel::Info => 1,
        AuditLevel::Warning => 2,
        AuditLevel::Critical => 3,
    }
}

/// Where and when an event happened.
#[derive(Debug, Clone, Copy, PartialEq, Eq, Structural)]
pub struct AuditContext {
    pub timestamp: u64,
    pub current_thread: ThreadId,
    pub cpu_id: u32,
    pub interrupt_context: bool,
}

/// Steps in a thread's life.
#[derive(Debug, Clone, Copy, PartialEq, Eq, Structural)]
pub enum ThreadEventType {
    Created,
    Started,
    Suspended,
    Resumed,
    Terminated,
    Joined,
    Detached,
}

/// Memory operations worth auditing.
#[derive(Debug, Clone, Copy, PartialEq, Eq, Structural)]
pub enum MemoryOperation {
    Allocate,
    Deallocate,
    Protect,
    Unprotect,
    MapRegion,
    Unmap,
    Access,
}

/// Scheduler events worth auditing.
#[derive(Debug, Clone, Copy, PartialEq, Eq, Structural)]
pub enum SchedulerEventType {
    ContextSwitch,
    Preemption,
    PreemptionOverride,
    ThreadMigration,
    PriorityChange,
    AffinityChange,
}

/// Measured quantities worth auditing.
#[derive(Debug, Clone, Copy, PartialEq, Eq, Structural)]
pub enum PerformanceMetric {
    ContextSwitchTime,
    SchedulingLatency,
    MemoryUsage,
    CpuUtilization,
    ThreadCount,
    LockContention,
}

/// System events worth auditing.
#[derive(Debug, Clone, Copy, PartialEq, Eq, Structural)]
pub enum SystemEventType {
    Initialization,
    Shutdown,
    ConfigurationChange,
    ResourceExhaustion,
    HardwareEvent,
    ErrorRecovery,
}

/// What an audit event records.
#[derive(Debug, Clone)]
pub enum AuditEventType {
    SecurityViolation { violation_type: SecurityViolation, thread_id: Option<ThreadId>, details: String },
    ThreadLifecycle { thread_id: ThreadId, event_type: ThreadEventType, details: String },
    MemoryOperation { operation: MemoryOperation, address: usize, size: usize, thread_id: Option<ThreadId> },
    SchedulerEvent { event_type: SchedulerEventType, thread_id: Option<ThreadId>, details: String },
    Performance { metric: PerformanceMetric, value: u64, threshold: Option<u64> },
    System { event_type: SystemEventType, details: String },
}

/// The category name of an event kind.
pub open spec fn category_name(t: AuditEventType) -> Seq<char> {
    match t {
        AuditEventType::SecurityViolation { .. } => "security"@,
        AuditEventType::ThreadLifecycle { .. } => "thread"@,
        AuditEventType::MemoryOperation { .. } => "memory"@,
        AuditEventType::SchedulerEvent { .. } => "scheduler"@,
        AuditEventType::Performance { .. } => "performance"@,
        AuditEventType::System { .. } => "system"@,
    }
}

impl AuditEventType {
    /// The category name: security, thread, memory, scheduler,
    /// performance or system.
    pub fn category(&self) -> (r: &'static str)
        ensures
            r@ == category_name(*self),
    {
        match self {
            AuditEventType::SecurityViolation { .. } => "security",
            AuditEventType::ThreadLifecycle { .. } => "thread",
            AuditEventType::MemoryOperation { .. } => "memory",
            AuditEventType::SchedulerEvent { .. } => "scheduler",
            AuditEventType::Performance { .. } => "performance",
            AuditEventType::System { .. } => "system",
        }
    }

    /// A copy of this event kind.
    pub fn duplicate(&self) -> (r: Self)
        ensures
            r == *self,
    {
        match self {
            AuditEventType::SecurityViolation { violation_type, thread_id, details } => {
                AuditEventType::SecurityViolation {
                    violation_type: *violation_type,
                    thread_id: *thread_id,
                    details: details.clone(),
                }
            },
            AuditEventType::ThreadLifecycle { thread_id, event_type, details } => {
                AuditEventType::ThreadLifecycle {
                    thread_id: *thread_id,
                    event_type: *event_type,
                    details: details.clone(),
                }
            },
            AuditEventType::MemoryOperation { operation, address, size, thread_id } => {
                AuditEventType::MemoryOperation {
                    operation: *operation,
                    address: *address,
                    size: *size,
                    thread_id: *thread_id,
                }
            },
            AuditEventType::SchedulerEvent { event_type, thread_id, details } => {
                AuditEventType::SchedulerEvent {
                    event_type: *event_type,
                    thread_id: *thread_id,
                    details: details.clone(),
                }
            },
            AuditEventType::Performance { metric, value, threshold } => {
                AuditEventType::Performance { metric: *metric, value: *value, threshold: *threshold }
            },
            AuditEventType::System { event_type, details } => {
                AuditEventType::System { event_type: *event_type, details: details.clone() }
            },
        }
    }
}

/// One audit event.
#[derive(Debug, Clone)]
pub struct AuditEvent {
    pub event_type: AuditEventType,
    pub level: AuditLevel,
    pub context: AuditContext,
}

impl AuditEvent {
    /// A copy of this event.
    pub fn duplicate(&self) -> (r: Self)
        ensures
            r == *self,
    {
        AuditEvent { event_type: self.event_type.duplicate(), level: self.level, context: self.context }
    }
}

/// Which kinds of events are recorded.
#[derive(Debug, Clone, Copy, PartialEq, Eq, Structural)]
pub struct AuditCategories {
    pub security: bool,
    pub thread_lifecycle: bool,
    pub memory_operations: bool,
    pub scheduler_events: bool,
    pub performance: bool,
    pub system_events: bool,
}

/// Everything but memory operations and scheduler events, which are too
/// frequent.
pub open spec fn default_categories() -> AuditCategories {
    AuditCategories {
        security: true,
        thread_lifecycle: true,
        memory_operations: false,
        scheduler_events: false,
        performance: true,
        system_events: true,
    }
}

impl Default for AuditCategories {
    /// Everything but memory operations and scheduler events.
    fn default() -> (c: Self)
        ensures
            c == default_categories(),
    {
        AuditCategories {
            security: true,
            thread_lifecycle: true,
            memory_operations: false,
            scheduler_events: false,
            performance: true,
            system_events: true,
        }
    }
}

/// Formats for exporting events.
#[derive(Debug, Clone, Copy, PartialEq, Eq, Structural)]
pub enum ExportFormat {
    Json,
    Csv,
    Plain,
}

/// Settings of the audit log.
#[derive(Debug, Clone, Copy, PartialEq, Eq, Structural)]
pub struct AuditConfig {
    pub log_level: AuditLevel,
    pub max_buffer_size: usize,
    pub enabled_categories: AuditCategories,
    pub export_format: ExportFormat,
}

/// Info and above, 10000 events, the default categories, plain text.
pub open spec fn default_audit_config() -> AuditConfig {
    AuditConfig {
        log_level: AuditLevel::Info,
        max_buffer_size: 10000,
        enabled_categories: default_categories(),
        export_format: ExportFormat::Plain,
    }
}

impl Default for AuditConfig {
    /// Info and above, 10000 events, the default categories, plain text.
    fn default() -> (c: Self)
        ensures
            c == default_audit_config(),
    {
        AuditConfig {
            log_level: AuditLevel::Info,
            max_buffer_size: 10000,
            enabled_categories: AuditCategories::default(),
            export_format: ExportFormat::Plain,
        }
    }
}

/// What a search looks for; an absent filter lets everything through.
#[derive(Debug)]
pub struct SearchCriteria {
    pub level_filter: Option<AuditLevel>,
    pub category_filter: Option<String>,
    pub thread_filter: Option<ThreadId>,
    pub time_range: Option<(u64, u64)>,
}

/// Whether `e` passes every filter of `c`: at least the level, of the
/// category, of the thread, and inside the closed time range.
pub open spec fn criteria_match(c: SearchCriteria, e: AuditEvent) -> bool {
    &&& (c.level_filter matches Some(l) ==> level_rank(e.level) >= level_rank(l))
    &&& (c.category_filter matches Some(cat) ==> category_name(e.event_type) == cat@)
    &&& (c.thread_filter matches Some(t) ==> e.context.current_thread == t)
    &&& (c.time_range matches Some(r) ==> r.0 <= e.context.timestamp <= r.1)
}

fn same_text(a: &str, b: &str) -> (r: bool)
    ensures
        r == (a@ == b@),
{
    let n = a.unicode_len();
    if n != b.unicode_len() {
        return false;
    }
    let mut i: usize = 0;
    while i < n
        invariant
            i <= n,
            n == a@.len(),
            n == b@.len(),
            forall|j: int| 0 <= j < i ==> a@[j] == b@[j],
        decreases n - i,
    {
        if a.get_char(i) != b.get_char(i) {
            return false;
        }
        i = i + 1;
    }
    assert(a@ == b@);
    true
}

impl SearchCriteria {
    /// Whether `event` passes every filter.
    pub fn matches(&self, event: &AuditEvent) -> (r: bool)
        ensures
            r == criteria_match(*self, *event),
    {
        if let Some(level) = self.level_filter {
            if rank(event.level) < rank(level) {
                return false;
            }
        }
        if let Some(category) = &self.category_filter {
            if !same_text(event.event_type.category(), category.as_str()) {
                return false;
            }
        }
        if let Some(thread_id) = self.thread_filter {
            if event.context.current_thread != thread_id {
                return false;
            }
        }
        if let Some((start, end)) = self.time_range {
            if event.context.timestamp < start || event.context.timestamp > end {
                return false;
            }
        }
        true
    }
}

/// Counters of the audit log.
#[derive(Debug, Clone, Copy, PartialEq, Eq, Structural)]
pub struct AuditStats {
    pub events_logged: u64,
    pub security_violations: usize,
    pub buffer_size: usize,
    pub max_buffer_size: usize,
    pub audit_enabled: bool,
}

/// The buffer `s` after an event `e` is offered to a log at level `lvl`
/// holding `cap` events: an event below the level is dropped; otherwise
/// the oldest event makes room when the buffer is full, and `e` is added.
pub open spec fn after_log(s: Seq<AuditEvent>, e: AuditEvent, lvl: AuditLevel, cap: nat) -> Seq<AuditEvent> {
    if level_rank(e.level) < level_rank(lvl) {
        s
    } else if s.len() >= cap && s.len() > 0 {
        s.drop_first().push(e)
    } else {
        s.push(e)
    }
}

/// The events of `s` that pass `c`, in order.
pub open spec fn matching(s: Seq<AuditEvent>, c: SearchCriteria) -> Seq<AuditEvent>
    decreases s.len(),
{
    if s.len() == 0 {
        Seq::empty()
    } else if criteria_match(c, s.last()) {
        matching(s.drop_last(), c).push(s.last())
    } else {
        matching(s.drop_last(), c)
    }
}

/// A bounded log of recent audit events.
pub struct AuditLogger {
    event_buffer: VecDeque<AuditEvent>,
    max_buffer_size: usize,
    events_logged: u64,
    security_violations: usize,
    log_level: AuditLevel,
    enabled_categories: AuditCategories,
}

impl AuditLogger {
    /// The recorded events, oldest first.
    pub closed spec fn events(&self) -> Seq<AuditEvent> {
        self.event_buffer@
    }

    /// The most events kept.
    pub closed spec fn capacity(&self) -> nat {
        self.max_buffer_size as nat
    }

    /// The number of events recorded, modulo 2^64.
    pub closed spec fn logged(&self) -> u64 {
        self.events_logged
    }

    /// The number of security violations reported.
    pub closed spec fn violations(&self) -> usize {
        self.security_violations
    }

    /// The lowest level recorded.
    pub closed spec fn level(&self) -> AuditLevel {
        self.log_level
    }

    /// The kinds of events recorded.
    pub closed spec fn categories(&self) -> AuditCategories {
        self.enabled_categories
    }

    /// `self` records `e` on top of `old`.
    pub open spec fn logs(&self, old: &Self, e: AuditEvent) -> bool {
        &&& self.events() == after_log(old.events(), e, old.level(), old.capacity())
        &&& self.logged() == if level_rank(e.level) < level_rank(old.level()) {
            old.logged()
        } else {
            wrap_add(old.logged(), 1)
        }
        &&& self.capacity() == old.capacity()
        &&& self.level() == old.level()
        &&& self.categories() == old.categories()
    }

    /// `self` is `old` unchanged, as far as the log shows.
    pub open spec fn unchanged(&self, old: &Self) -> bool {
        &&& self.events() == old.events()
        &&& self.logged() == old.logged()
        &&& self.violations() == old.violations()
        &&& self.capacity() == old.capacity()
        &&& self.level() == old.level()
        &&& self.categories() == old.categories()
    }

    /// An empty log with the settings of `config`.
    pub fn new(config: AuditConfig) -> (l: Self)
        ensures
            l.events() == Seq::<AuditEvent>::empty(),
            l.capacity() == config.max_buffer_size,
            l.logged() == 0,
            l.violations() == 0,
            l.level() == config.log_level,
            l.categories() == config.enabled_categories,
    {
        AuditLogger {
            event_buffer: VecDeque::new(),
            max_buffer_size: config.max_buffer_size,
            events_logged: 0,
            security_violations: 0,
            log_level: config.log_level,
            enabled_categories: config.enabled_categories,
        }
    }

    fn log_event(&mut self, event: AuditEvent)
        ensures
            final(self).logs(old(self), event),
            final(self).violations() == old(self).violations(),
    {
        if rank(event.level) < rank(self.log_level) {
            return;
        }
        if self.event_buffer.len() >= self.max_buffer_size {
            self.event_buffer.pop_front();
        }
        self.event_buffer.push_back(event);
        self.events_logged = self.events_logged.wrapping_add(1);
    }

    /// Records a critical security-violation event when security events
    /// are recorded, and counts the violation.
    pub fn log_security_violation(
        &mut self,
        violation: SecurityViolation,
        thread_id: Option<ThreadId>,
        details: String,
        context: AuditContext,
    )
        ensures
            !old(self).categories().security ==> final(self).unchanged(old(self)),
            old(self).categories().security ==> final(self).logs(
                old(self),
                AuditEvent {
                    event_type: AuditEventType::SecurityViolation { violation_type: violation, thread_id, details },
                    level: AuditLevel::Critical,
                    context,
                },
            ) && final(self).violations() == wrap_inc_usize(old(self).violations()),
    {
        if !self.enabled_categories.security {
            return;
        }
        let event = AuditEvent {
            event_type: AuditEventType::SecurityViolation { violation_type: violation, thread_id, details },
            level: AuditLevel::Critical,
            context,
        };
        self.log_event(event);
        self.security_violations = self.security_violations.wrapping_add(1);
    }

    /// Records an info-level thread event when thread events are recorded.
    pub fn log_thread_event(&mut self, thread_id: ThreadId, event_type: ThreadEventType, details: String, context: AuditContext)
        ensures
            !old(self).categories().thread_lifecycle ==> final(self).unchanged(old(self)),
            old(self).categories().thread_lifecycle ==> final(self).logs(
                old(self),
                AuditEvent {
                    event_type: AuditEventType::ThreadLifecycle { thread_id, event_type, details },
                    level: AuditLevel::Info,
                    context,
                },
            ) && final(self).violations() == old(self).violations(),
    {
        if !self.enabled_categories.thread_lifecycle {
            return;
        }
        let event = AuditEvent {
            event_type: AuditEventType::ThreadLifecycle { thread_id, event_type, details },
            level: AuditLevel::Info,
            context,
        };
        self.log_event(event);
    }

    /// Records a debug-level memory event when memory operations are
    /// recorded.
    pub fn log_memory_event(
        &mut self,
        operation: MemoryOperation,
        address: usize,
        size: usize,
        thread_id: Option<ThreadId>,
        context: AuditContext,
    )
        ensures
            !old(self).categories().memory_operations ==> final(self).unchanged(old(self)),
            old(self).categories().memory_operations ==> final(self).logs(
                old(self),
                AuditEvent {
                    event_type: AuditEventType::MemoryOperation { operation, address, size, thread_id },
                    level: AuditLevel::Debug,
                    context,
                },
            ) && final(self).violations() == old(self).violations(),
    {
        if !self.enabled_categories.memory_operations {
            return;
        }
        let event = AuditEvent {
            event_type: AuditEventType::MemoryOperation { operation, address, size, thread_id },
            level: AuditLevel::Debug,
            context,
        };
        self.log_event(event);
    }

    /// Records a scheduler event when scheduler events are recorded: a
    /// preemption override as a warning, the others for debugging.
    pub fn log_scheduler_event(
        &mut self,
        event_type: SchedulerEventType,
        thread_id: Option<ThreadId>,
        details: String,
        context: AuditContext,
    )
        ensures
            !old(self).categories().scheduler_events ==> final(self).unchanged(old(self)),
            old(self).categories().scheduler_events ==> final(self).logs(
                old(self),
                AuditEvent {
                    event_type: AuditEventType::SchedulerEvent { event_type, thread_id, details },
                    level: if event_type == SchedulerEventType::PreemptionOverride {
                        AuditLevel::Warning
                    } else {
                        AuditLevel::Debug
                    },
                    context,
                },
            ) && final(self).violations() == old(self).violations(),
    {
        if !self.enabled_categories.scheduler_events {
            return;
        }
        let level = match event_type {
            SchedulerEventType::PreemptionOverride => AuditLevel::Warning,
            _ => AuditLevel::Debug,
        };
        let event = AuditEvent {
            event_type: AuditEventType::SchedulerEvent { event_type, thread_id, details },
            level,
            context,
        };
        self.log_event(event);
    }

    /// Records a measurement when performance events are recorded: as a
    /// warning when it exceeds its threshold, else for debugging.
    pub fn log_performance_event(&mut self, metric: PerformanceMetric, value: u64, threshold: Option<u64>, context: AuditContext)
        ensures
            !old(self).categories().performance ==> final(self).unchanged(old(self)),
            old(self).categories().performance ==> final(self).logs(
                old(self),
                AuditEvent {
                    event_type: AuditEventType::Performance { metric, value, threshold },
                    level: if threshold matches Some(t) && value > t {
                        AuditLevel::Warning
                    } else {
                        AuditLevel::Debug
                    },
                    context,
                },
            ) && final(self).violations() == old(self).violations(),
    {
        if !self.enabled_categories.performance {
            return;
        }
        let level = match threshold {
            Some(t) => if value > t {
                AuditLevel::Warning
            } else {
                AuditLevel::Debug
            },
            None => AuditLevel::Debug,
        };
        let event = AuditEvent {
            event_type: AuditEventType::Performance { metric, value, threshold },
            level,
            context,
        };
        self.log_event(event);
    }

    /// Records a system event when system events are recorded: start and
    /// shutdown as info, configuration changes as warnings, resource
    /// exhaustion as critical, the rest for debugging.
    pub fn log_system_event(&mut self, event_type: SystemEventType, details: String, context: AuditContext)
        ensures
            !old(self).categories().system_events ==> final(self).unchanged(old(self)),
            old(self).categories().system_events ==> final(self).logs(
                old(self),
                AuditEvent {
                    event_type: AuditEventType::System { event_type, details },
                    level: system_level(event_type),
                    context,
                },
            ) && final(self).violations() == old(self).violations(),
    {
        if !self.enabled_categories.system_events {
            return;
        }
        let level = match event_type {
            SystemEventType::Initialization | SystemEventType::Shutdown => AuditLevel::Info,
            SystemEventType::ConfigurationChange => AuditLevel::Warning,
            SystemEventType::ResourceExhaustion => AuditLevel::Critical,
            _ => AuditLevel::Debug,
        };
        let event = AuditEvent { event_type: AuditEventType::System { event_type, details }, level, context };
        self.log_event(event);
    }

    /// The `count` most recent events, newest first.
    pub fn get_recent_events(&self, count: usize) -> (r: Vec<AuditEvent>)
        ensures
            r@.len() == if count < self.events().len() {
                count as nat
            } else {
                self.events().len()
            },
            forall|i: int| 0 <= i < r@.len() ==> #[trigger] r@[i] == self.events()[self.events().len() - 1 - i],
    {
        let n = self.event_buffer.len();
        let take = if count < n {
            count
        } else {
            n
        };
        let mut out: Vec<AuditEvent> = Vec::new();
        let mut i: usize = 0;
        while i < take
            invariant
                i <= take,
                take <= n,
                n == self.event_buffer@.len(),
                out@.len() == i,
                forall|k: int| 0 <= k < i ==> #[trigger] out@[k] == self.event_buffer@[n - 1 - k],
            decreases take - i,
        {
            let e = self.event_buffer[n - 1 - i].duplicate();
            out.push(e);
            i = i + 1;
        }
        out
    }

    /// The recorded events that pass `criteria`, oldest first.
    pub fn search_events(&self, criteria: &SearchCriteria) -> (r: Vec<AuditEvent>)
        ensures
            r@ == matching(self.events(), *criteria),
    {
        let n = self.event_buffer.len();
        let ghost all = self.event_buffer@;
        let mut out: Vec<AuditEvent> = Vec::new();
        let mut i: usize = 0;
        while i < n
            invariant
                i <= n,
                n == all.len(),
                all == self.event_buffer@,
                out@ == matching(all.subrange(0, i as int), *criteria),
            decreases n - i,
        {
            assert(all.subrange(0, i + 1).drop_last() == all.subrange(0, i as int));
            if criteria.matches(&self.event_buffer[i]) {
                out.push(self.event_buffer[i].duplicate());
            }
            i = i + 1;
        }
        assert(all.subrange(0, n as int) == all);
        out
    }

    /// The counters of the log.
    pub fn get_stats(&self) -> (s: AuditStats)
        ensures
            s == (AuditStats {
                events_logged: self.logged(),
                security_violations: self.violations(),
                buffer_size: self.events().len() as usize,
                max_buffer_size: self.capacity() as usize,
                audit_enabled: true,
            }),
    {
        AuditStats {
            events_logged: self.events_logged,
            security_violations: self.security_violations,
            buffer_size: self.event_buffer.len(),
            max_buffer_size: self.max_buffer_size,
            audit_enabled: true,
        }
    }
}

/// The level of a system event.
pub open spec fn system_level(t: SystemEventType) -> AuditLevel {
    match t {
        SystemEventType::Initialization | SystemEventType::Shutdown => AuditLevel::Info,
        SystemEventType::ConfigurationChange => AuditLevel::Warning,
        SystemEventType::ResourceExhaustion => AuditLevel::Critical,
        _ => AuditLevel::Debug,
    }
}

/// The settings of the shared log: everything from debug level up in a
/// debug build, from info up otherwise, 10000 events, default categories.
pub open spec fn shared_audit_config(debug_build: bool) -> AuditConfig {
    AuditConfig {
        log_level: if debug_build {
            AuditLevel::Debug
        } else {
            AuditLevel::Info
        },
        max_buffer_size: 10000,
        enabled_categories: default_categories(),
        export_format: ExportFormat::Plain,
    }
}

/// Puts a new shared log in `slot` and records its initialization at
/// `context`.
pub fn init_audit_logging(slot: &mut Option<AuditLogger>, config: SecurityConfig, debug_build: bool, context: AuditContext) -> (r: Result<(), ThreadError>)
    ensures
        r is Ok,
        *final(slot) is Some,
        (*final(slot))->0.capacity() == 10000,
        (*final(slot))->0.level() == shared_audit_config(debug_build).log_level,
        (*final(slot))->0.categories() == default_categories(),
        (*final(slot))->0.logged() == 1,
        (*final(slot))->0.violations() == 0,
        (*final(slot))->0.events().len() == 1,
        (*final(slot))->0.events()[0].level == AuditLevel::Info,
        (*final(slot))->0.events()[0].context == context,
        (*final(slot))->0.events()[0].event_type matches AuditEventType::System { event_type, details }
            && event_type == SystemEventType::Initialization && details@ == "Audit logging system initialized"@,
{
    let audit_config = AuditConfig {
        log_level: if debug_build {
            AuditLevel::Debug
        } else {
            AuditLevel::Info
        },
        max_buffer_size: 10000,
        enabled_categories: AuditCategories::default(),
        export_format: ExportFormat::Plain,
    };
    let mut logger = AuditLogger::new(audit_config);
    let message = "Audit logging system initialized".to_owned();
    logger.log_system_event(SystemEventType::Initialization, message, context);
    *slot = Some(logger);
    Ok(())
}

/// The `count` most recent events of the shared log, none without a log.
pub fn get_recent_audit_events(slot: &Option<AuditLogger>, count: usize) -> (r: Vec<AuditEvent>)
    ensures
        slot is None ==> r@.len() == 0,
        slot matches Some(l) ==> r@.len() == (if count < l.events().len() {
            count as nat
        } else {
            l.events().len()
        }) && forall|i: int| 0 <= i < r@.len() ==> #[trigger] r@[i] == l.events()[l.events().len() - 1 - i],
{
    match slot {
        Some(l) => l.get_recent_events(count),
        None => Vec::new(),
    }
}

/// The events of the shared log that pass `criteria`.
pub fn search_audit_events(slot: &Option<AuditLogger>, criteria: &SearchCriteria) -> (r: Vec<AuditEvent>)
    ensures
        slot is None ==> r@.len() == 0,
        slot matches Some(l) ==> r@ == matching(l.events(), *criteria),
{
    match slot {
        Some(l) => l.search_events(criteria),
        None => Vec::new(),
    }
}

/// The counters of the shared log; all zero and disabled without a log.
pub fn get_audit_stats(slot: &Option<AuditLogger>) -> (s: AuditStats)
    ensures
        slot is None ==> s == (AuditStats {
            events_logged: 0,
            security_violations: 0,
            buffer_size: 0,
            max_buffer_size: 0,
            audit_enabled: false,
        }),
        slot matches Some(l) ==> s == (AuditStats {
            events_logged: l.logged(),
            security_violations: l.violations(),
            buffer_size: l.events().len() as usize,
            max_buffer_size: l.capacity() as usize,
            audit_enabled: true,
        }),
{
    match slot {
        Some(l) => l.get_stats(),
        None => AuditStats {
            events_logged: 0,
            security_violations: 0,
            buffer_size: 0,
            max_buffer_size: 0,
            audit_enabled: false,
        },
    }
}

/// The log never outgrows its capacity: offering an event to a log holding
/// at most `cap` events (with `cap` at least one) leaves at most `cap`
/// events. An event below the log's level is dropped; any other event
/// becomes the newest entry, and the older entries keep their order.
pub proof fn law_log_stays_within_capacity(s: Seq<AuditEvent>, e: AuditEvent, lvl: AuditLevel, cap: nat)
    requires
        0 < cap,
        s.len() <= cap,
    ensures
        after_log(s, e, lvl, cap).len() <= cap,
        level_rank(e.level) < level_rank(lvl) ==> after_log(s, e, lvl, cap) == s,
        level_rank(e.level) >= level_rank(lvl) ==> {
            let r = after_log(s, e, lvl, cap);
            &&& r.last() == e
            &&& r.drop_last() == if s.len() == cap {
                s.drop_first()
            } else {
                s
            }
        },
{
    let r = after_log(s, e, lvl, cap);
    if level_rank(e.level) >= level_rank(lvl) {
        if s.len() == cap {
            assert(r.drop_last() =~= s.drop_first());
        } else {
            assert(r.drop_last() =~= s);
        }
    }
}

} // verus!
