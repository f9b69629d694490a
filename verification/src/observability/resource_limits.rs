use vstd::prelude::*;
use std::collections::BTreeMap;
use crate::thread::ThreadId;
use crate::errors::{ResourceError, ThreadError};
use crate::observability::metrics::{wrap_add, wrap_dec};

verus! {

broadcast use {vstd::std_specs::btree::group_btree_axioms, vstd::laws_cmp::group_laws_cmp};

/// Resources consumed by one thread. Times are nanoseconds on the
/// monotonic clock.
#[derive(Debug, Clone, Copy)]
pub struct ResourceUsage {
    pub thread_id: ThreadId,
    pub cpu_time_ns: u64,
    pub memory_usage: u64,
    pub peak_memory_usage: u64,
    pub open_files: u32,
    pub child_threads: u32,
    pub network_connections: u32,
    pub disk_io_ops: u64,
    pub network_bytes_tx: u64,
    pub network_bytes_rx: u64,
    pub last_updated: u64,
}

/// The usage of a thread that has consumed nothing yet, stamped `now`.
pub open spec fn fresh_usage(thread_id: ThreadId, now: u64) -> ResourceUsage {
    ResourceUsage {
        thread_id,
        cpu_time_ns: 0,
        memory_usage: 0,
        peak_memory_usage: 0,
        open_files: 0,
        child_threads: 0,
        network_connections: 0,
        disk_io_ops: 0,
        network_bytes_tx: 0,
        network_bytes_rx: 0,
        last_updated: now,
    }
}

/// `u` after its memory usage became `new_usage` at `now`; the peak never
/// goes down.
pub open spec fn with_memory_usage(u: ResourceUsage, new_usage: u64, now: u64) -> ResourceUsage {
    ResourceUsage {
        memory_usage: new_usage,
        peak_memory_usage: if new_usage > u.peak_memory_usage {
            new_usage
        } else {
            u.peak_memory_usage
        },
        last_updated: now,
        ..u
    }
}

impl ResourceUsage {
    /// A tracker for `thread_id` with nothing consumed, stamped `now`.
    pub fn new(thread_id: ThreadId, now: u64) -> (u: Self)
        ensures
            u == fresh_usage(thread_id, now),
    {
        ResourceUsage {
            thread_id,
            cpu_time_ns: 0,
            memory_usage: 0,
            peak_memory_usage: 0,
            open_files: 0,
            child_threads: 0,
            network_connections: 0,
            disk_io_ops: 0,
            network_bytes_tx: 0,
            network_bytes_rx: 0,
            last_updated: now,
        }
    }

    /// Adds `duration_ns` of CPU time.
    pub fn add_cpu_time(&mut self, duration_ns: u64, now: u64)
        requires
            old(self).cpu_time_ns + duration_ns <= u64::MAX,
        ensures
            *final(self) == (ResourceUsage {
                cpu_time_ns: (old(self).cpu_time_ns + duration_ns) as u64,
                last_updated: now,
                ..*old(self)
            }),
    {
        self.cpu_time_ns = self.cpu_time_ns + duration_ns;
        self.last_updated = now;
    }

    /// Sets the memory usage, raising the peak to it.
    pub fn update_memory_usage(&mut self, new_usage: u64, now: u64)
        ensures
            *final(self) == with_memory_usage(*old(self), new_usage, now),
    {
        self.memory_usage = new_usage;
        if new_usage > self.peak_memory_usage {
            self.peak_memory_usage = new_usage;
        }
        self.last_updated = now;
    }

    /// Counts one more open file descriptor.
    pub fn allocate_file_descriptor(&mut self, now: u64)
        requires
            old(self).open_files < u32::MAX,
        ensures
            *final(self) == (ResourceUsage {
                open_files: (old(self).open_files + 1) as u32,
                last_updated: now,
                ..*old(self)
            }),
    {
        self.open_files = self.open_files + 1;
        self.last_updated = now;
    }

    /// Counts one file descriptor fewer; the count stays at zero when it is
    /// zero.
    pub fn deallocate_file_descriptor(&mut self, now: u64)
        ensures
            *final(self) == (ResourceUsage {
                open_files: if old(self).open_files > 0 {
                    (old(self).open_files - 1) as u32
                } else {
                    0
                },
                last_updated: now,
                ..*old(self)
            }),
    {
        if self.open_files > 0 {
            self.open_files = self.open_files - 1;
        }
        self.last_updated = now;
    }

    /// Counts one more child thread.
    pub fn add_child_thread(&mut self, now: u64)
        requires
            old(self).child_threads < u32::MAX,
        ensures
            *final(self) == (ResourceUsage {
                child_threads: (old(self).child_threads + 1) as u32,
                last_updated: now,
                ..*old(self)
            }),
    {
        self.child_threads = self.child_threads + 1;
        self.last_updated = now;
    }

    /// Counts one child thread fewer; the count stays at zero when it is
    /// zero.
    pub fn remove_child_thread(&mut self, now: u64)
        ensures
            *final(self) == (ResourceUsage {
                child_threads: if old(self).child_threads > 0 {
                    (old(self).child_threads - 1) as u32
                } else {
                    0
                },
                last_updated: now,
                ..*old(self)
            }),
    {
        if self.child_threads > 0 {
            self.child_threads = self.child_threads - 1;
        }
        self.last_updated = now;
    }
}

/// Limits of a thread; a limit of 0 means unlimited. Hard limits refuse
/// the request that would exceed them, soft limits only record it.
#[derive(Debug, Clone, Copy)]
pub struct ResourceQuota {
    pub max_cpu_time_ns: u64,
    pub max_memory_bytes: u64,
    pub max_open_files: u32,
    pub max_child_threads: u32,
    pub max_network_connections: u32,
    pub max_disk_iops: u64,
    pub max_network_bw: u64,
    pub hard_limits: bool,
}

/// The quota with every limit off and soft enforcement.
pub open spec fn unlimited_quota() -> ResourceQuota {
    ResourceQuota {
        max_cpu_time_ns: 0,
        max_memory_bytes: 0,
        max_open_files: 0,
        max_child_threads: 0,
        max_network_connections: 0,
        max_disk_iops: 0,
        max_network_bw: 0,
        hard_limits: false,
    }
}

impl Default for ResourceQuota {
    /// Every limit off, soft enforcement.
    fn default() -> (q: Self)
        ensures
            q == unlimited_quota(),
    {
        ResourceQuota {
            max_cpu_time_ns: 0,
            max_memory_bytes: 0,
            max_open_files: 0,
            max_child_threads: 0,
            max_network_connections: 0,
            max_disk_iops: 0,
            max_network_bw: 0,
            hard_limits: false,
        }
    }
}

impl ResourceQuota {
    /// Tight hard limits for small systems: 10 s of CPU, 1 MiB of memory,
    /// 10 files, 5 child threads, 5 connections, 1000 IOPS, 1 MiB/s.
    pub fn conservative() -> (q: Self)
        ensures
            q == (ResourceQuota {
                max_cpu_time_ns: 10_000_000_000,
                max_memory_bytes: 1048576,
                max_open_files: 10,
                max_child_threads: 5,
                max_network_connections: 5,
                max_disk_iops: 1000,
                max_network_bw: 1048576,
                hard_limits: true,
            }),
    {
        ResourceQuota {
            max_cpu_time_ns: 10_000_000_000,
            max_memory_bytes: 1024 * 1024,
            max_open_files: 10,
            max_child_threads: 5,
            max_network_connections: 5,
            max_disk_iops: 1000,
            max_network_bw: 1024 * 1024,
            hard_limits: true,
        }
    }

    /// Loose soft limits for development: 1000 files, 100 child threads,
    /// 100 connections, everything else unlimited.
    pub fn permissive() -> (q: Self)
        ensures
            q == (ResourceQuota {
                max_cpu_time_ns: 0,
                max_memory_bytes: 0,
                max_open_files: 1000,
                max_child_threads: 100,
                max_network_connections: 100,
                max_disk_iops: 0,
                max_network_bw: 0,
                hard_limits: false,
            }),
    {
        ResourceQuota {
            max_cpu_time_ns: 0,
            max_memory_bytes: 0,
            max_open_files: 1000,
            max_child_threads: 100,
            max_network_connections: 100,
            max_disk_iops: 0,
            max_network_bw: 0,
            hard_limits: false,
        }
    }
}

/// The kinds of limited resources.
#[derive(Debug, Clone, Copy, PartialEq, Eq, Structural)]
pub enum ResourceType {
    CpuTime,
    Memory,
    FileDescriptors,
    ChildThreads,
    NetworkConnections,
    DiskIOPS,
    NetworkBandwidth,
}

/// What to do about a violation.
#[derive(Debug, Clone, Copy, PartialEq, Eq, Structural)]
pub enum ViolationAction {
    Warn,
    Throttle,
    Suspend,
    Terminate,
    Alert,
}

/// A request that would have exceeded a limit.
#[derive(Debug, Clone, Copy)]
pub struct LimitViolation {
    pub thread_id: ThreadId,
    pub resource_type: ResourceType,
    pub current_usage: u64,
    pub limit: u64,
    pub hard_limit: bool,
    pub timestamp: u64,
    pub suggested_action: ViolationAction,
}

/// Totals over all tracked threads; they wrap around on overflow.
#[derive(Debug, Clone, Copy)]
pub struct SystemResourceUsage {
    pub total_threads: u64,
    pub total_memory_usage: u64,
    pub total_cpu_time_ns: u64,
    pub total_open_files: u64,
    pub total_network_connections: u64,
    pub system_start_time: u64,
}

impl SystemResourceUsage {
    /// All totals zero.
    pub fn new() -> (s: Self)
        ensures
            s == (SystemResourceUsage {
                total_threads: 0,
                total_memory_usage: 0,
                total_cpu_time_ns: 0,
                total_open_files: 0,
                total_network_connections: 0,
                system_start_time: 0,
            }),
    {
        SystemResourceUsage {
            total_threads: 0,
            total_memory_usage: 0,
            total_cpu_time_ns: 0,
            total_open_files: 0,
            total_network_connections: 0,
            system_start_time: 0,
        }
    }
}

/// `n - d` modulo 2^64.
pub open spec fn wrap_sub(n: u64, d: u64) -> u64 {
    if n >= d {
        (n - d) as u64
    } else {
        (n - d + u64::MAX + 1) as u64
    }
}

/// The amount of resource `rt` that `u` has consumed.
pub open spec fn consumed(u: ResourceUsage, rt: ResourceType) -> int {
    match rt {
        ResourceType::CpuTime => u.cpu_time_ns as int,
        ResourceType::Memory => u.memory_usage as int,
        ResourceType::FileDescriptors => u.open_files as int,
        ResourceType::ChildThreads => u.child_threads as int,
        ResourceType::NetworkConnections => u.network_connections as int,
        ResourceType::DiskIOPS => u.disk_io_ops as int,
        ResourceType::NetworkBandwidth => u.network_bytes_tx + u.network_bytes_rx,
    }
}

/// The limit that `q` sets on resource `rt` (0: unlimited).
pub open spec fn limit_of(q: ResourceQuota, rt: ResourceType) -> u64 {
    match rt {
        ResourceType::CpuTime => q.max_cpu_time_ns,
        ResourceType::Memory => q.max_memory_bytes,
        ResourceType::FileDescriptors => q.max_open_files as u64,
        ResourceType::ChildThreads => q.max_child_threads as u64,
        ResourceType::NetworkConnections => q.max_network_connections as u64,
        ResourceType::DiskIOPS => q.max_disk_iops,
        ResourceType::NetworkBandwidth => q.max_network_bw,
    }
}

/// The error by which a hard limit on `rt` refuses a request.
pub open spec fn limit_error(rt: ResourceType) -> ThreadError {
    match rt {
        ResourceType::CpuTime => ThreadError::Resource(ResourceError::MaxCpuTime),
        ResourceType::Memory => ThreadError::Resource(ResourceError::MaxMemoryUsage),
        ResourceType::FileDescriptors => ThreadError::Resource(ResourceError::MaxFileDescriptors),
        ResourceType::ChildThreads => ThreadError::Resource(ResourceError::MaxThreadsPerProcess),
        _ => ThreadError::Resource(ResourceError::ResourceUnavailable),
    }
}

/// `s` cut down to its last `max` entries.
pub open spec fn keep_last(s: Seq<LimitViolation>, max: nat) -> Seq<LimitViolation> {
    if s.len() > max {
        s.subrange(s.len() - max, s.len() as int)
    } else {
        s
    }
}

/// `u` after a reading of `new_value` for resource `rt` at `now`: memory
/// and descriptor and child counts are set, CPU time is added; the other
/// resources are not tracked this way.
pub open spec fn with_reading(u: ResourceUsage, rt: ResourceType, new_value: u64, now: u64) -> ResourceUsage {
    match rt {
        ResourceType::Memory => with_memory_usage(u, new_value, now),
        ResourceType::CpuTime => ResourceUsage {
            cpu_time_ns: (u.cpu_time_ns + new_value) as u64,
            last_updated: now,
            ..u
        },
        ResourceType::FileDescriptors => ResourceUsage { open_files: new_value as u32, ..u },
        ResourceType::ChildThreads => ResourceUsage { child_threads: new_value as u32, ..u },
        _ => u,
    }
}

/// The totals `s` after a reading of `new_value` for resource `rt` of a
/// thread whose usage was `u`.
pub open spec fn totals_with_reading(
    s: SystemResourceUsage,
    u: ResourceUsage,
    rt: ResourceType,
    new_value: u64,
) -> SystemResourceUsage {
    match rt {
        ResourceType::Memory => SystemResourceUsage {
            total_memory_usage: if new_value > u.memory_usage {
                wrap_add(s.total_memory_usage, (new_value - u.memory_usage) as u64)
            } else {
                wrap_sub(s.total_memory_usage, (u.memory_usage - new_value) as u64)
            },
            ..s
        },
        ResourceType::CpuTime => SystemResourceUsage {
            total_cpu_time_ns: wrap_add(s.total_cpu_time_ns, new_value),
            ..s
        },
        _ => s,
    }
}

/// The number of violations the history keeps.
pub const MAX_VIOLATION_HISTORY: usize = 1000;

/// Tracks each thread's usage against its quota and enforces the limits.
pub struct ResourceLimiter {
    thread_usage: BTreeMap<ThreadId, ResourceUsage>,
    thread_quotas: BTreeMap<ThreadId, ResourceQuota>,
    default_quota: ResourceQuota,
    system_usage: SystemResourceUsage,
    enabled: bool,
    violations: Vec<LimitViolation>,
    max_violation_history: usize,
}

impl ResourceLimiter {
    /// The usage of each tracked thread.
    pub closed spec fn usage(&self) -> Map<ThreadId, ResourceUsage> {
        self.thread_usage@
    }

    /// The quotas set for single threads.
    pub closed spec fn quotas(&self) -> Map<ThreadId, ResourceQuota> {
        self.thread_quotas@
    }

    /// The quota of threads without one of their own.
    pub closed spec fn default_quota_spec(&self) -> ResourceQuota {
        self.default_quota
    }

    /// The system totals.
    pub closed spec fn system(&self) -> SystemResourceUsage {
        self.system_usage
    }

    /// Whether enforcement is on.
    pub closed spec fn spec_enabled(&self) -> bool {
        self.enabled
    }

    /// The recorded violations, oldest first.
    pub closed spec fn history(&self) -> Seq<LimitViolation> {
        self.violations@
    }

    /// How many violations the history keeps.
    pub closed spec fn history_limit(&self) -> nat {
        self.max_violation_history as nat
    }

    /// The quota that applies to `thread_id`.
    pub open spec fn quota_for(&self, thread_id: ThreadId) -> ResourceQuota {
        if self.quotas().contains_key(thread_id) {
            self.quotas()[thread_id]
        } else {
            self.default_quota_spec()
        }
    }

    /// The usage counted for `thread_id`; an untracked thread has consumed
    /// nothing.
    pub open spec fn usage_for(&self, thread_id: ThreadId) -> ResourceUsage {
        if self.usage().contains_key(thread_id) {
            self.usage()[thread_id]
        } else {
            fresh_usage(thread_id, 0)
        }
    }

    /// `self` and `other` agree on everything but the enforcement switch.
    pub open spec fn same_but_enabled(&self, other: &Self) -> bool {
        &&& self.usage() == other.usage()
        &&& self.quotas() == other.quotas()
        &&& self.default_quota_spec() == other.default_quota_spec()
        &&& self.system() == other.system()
        &&& self.history() == other.history()
        &&& self.history_limit() == other.history_limit()
    }

    /// `self` and `other` agree on everything but the violation history.
    pub open spec fn same_but_history(&self, other: &Self) -> bool {
        &&& self.usage() == other.usage()
        &&& self.quotas() == other.quotas()
        &&& self.default_quota_spec() == other.default_quota_spec()
        &&& self.system() == other.system()
        &&& self.spec_enabled() == other.spec_enabled()
        &&& self.history_limit() == other.history_limit()
    }

    /// The history never holds more entries than it keeps.
    pub open spec fn wf(&self) -> bool {
        self.history().len() <= self.history_limit()
    }

    /// A disabled limiter: no thread, no quota of its own, the unlimited
    /// default quota, zero totals, an empty history keeping 1000 entries.
    pub fn new() -> (l: Self)
        ensures
            l.wf(),
            !l.spec_enabled(),
            l.usage() == Map::<ThreadId, ResourceUsage>::empty(),
            l.quotas() == Map::<ThreadId, ResourceQuota>::empty(),
            l.default_quota_spec() == unlimited_quota(),
            l.system() == (SystemResourceUsage {
                total_threads: 0,
                total_memory_usage: 0,
                total_cpu_time_ns: 0,
                total_open_files: 0,
                total_network_connections: 0,
                system_start_time: 0,
            }),
            l.history() == Seq::<LimitViolation>::empty(),
            l.history_limit() == MAX_VIOLATION_HISTORY,
    {
        ResourceLimiter {
            thread_usage: BTreeMap::new(),
            thread_quotas: BTreeMap::new(),
            default_quota: ResourceQuota::default(),
            system_usage: SystemResourceUsage::new(),
            enabled: false,
            violations: Vec::new(),
            max_violation_history: MAX_VIOLATION_HISTORY,
        }
    }

    /// Turns enforcement on.
    pub fn init(&mut self) -> (r: Result<(), &'static str>)
        ensures
            r is Ok,
            final(self).spec_enabled(),
            final(self).same_but_enabled(old(self)),
    {
        self.enabled = true;
        Ok(())
    }

    /// Whether enforcement is on.
    pub fn is_enabled(&self) -> (r: bool)
        ensures
            r == self.spec_enabled(),
    {
        self.enabled
    }

    /// Sets the quota of threads without one of their own.
    pub fn set_default_quota(&mut self, quota: ResourceQuota)
        ensures
            final(self).default_quota_spec() == quota,
            final(self).usage() == old(self).usage(),
            final(self).quotas() == old(self).quotas(),
            final(self).system() == old(self).system(),
            final(self).spec_enabled() == old(self).spec_enabled(),
            final(self).history() == old(self).history(),
            final(self).history_limit() == old(self).history_limit(),
    {
        self.default_quota = quota;
    }

    /// Sets the quota of `thread_id`.
    pub fn set_thread_quota(&mut self, thread_id: ThreadId, quota: ResourceQuota)
        ensures
            final(self).quotas() == old(self).quotas().insert(thread_id, quota),
            final(self).usage() == old(self).usage(),
            final(self).default_quota_spec() == old(self).default_quota_spec(),
            final(self).system() == old(self).system(),
            final(self).spec_enabled() == old(self).spec_enabled(),
            final(self).history() == old(self).history(),
            final(self).history_limit() == old(self).history_limit(),
    {
        self.thread_quotas.insert(thread_id, quota);
    }

    /// Starts tracking `thread_id` with nothing consumed and counts it;
    /// nothing happens while enforcement is off.
    pub fn register_thread(&mut self, thread_id: ThreadId, now: u64)
        ensures
            final(self).quotas() == old(self).quotas(),
            final(self).default_quota_spec() == old(self).default_quota_spec(),
            final(self).spec_enabled() == old(self).spec_enabled(),
            final(self).history() == old(self).history(),
            final(self).history_limit() == old(self).history_limit(),
            !old(self).spec_enabled() ==> final(self).usage() == old(self).usage()
                && final(self).system() == old(self).system(),
            old(self).spec_enabled() ==> final(self).usage() == old(self).usage().insert(
                thread_id,
                fresh_usage(thread_id, now),
            ) && final(self).system() == (SystemResourceUsage {
                total_threads: wrap_add(old(self).system().total_threads, 1),
                ..old(self).system()
            }),
    {
        if !self.enabled {
            return;
        }
        self.thread_usage.insert(thread_id, ResourceUsage::new(thread_id, now));
        self.system_usage.total_threads = self.system_usage.total_threads.wrapping_add(1);
    }

    /// Stops tracking `thread_id`: its usage leaves the totals, its quota
    /// is dropped and the thread count goes down; nothing happens while
    /// enforcement is off.
    pub fn unregister_thread(&mut self, thread_id: ThreadId)
        ensures
            final(self).default_quota_spec() == old(self).default_quota_spec(),
            final(self).spec_enabled() == old(self).spec_enabled(),
            final(self).history() == old(self).history(),
            final(self).history_limit() == old(self).history_limit(),
            !old(self).spec_enabled() ==> *final(self) == *old(self),
            old(self).spec_enabled() ==> {
                &&& final(self).usage() == old(self).usage().remove(thread_id)
                &&& final(self).quotas() == old(self).quotas().remove(thread_id)
                &&& final(self).system().total_threads == wrap_dec(old(self).system().total_threads)
                &&& final(self).system().total_cpu_time_ns == old(self).system().total_cpu_time_ns
                &&& final(self).system().total_network_connections
                    == old(self).system().total_network_connections
                &&& final(self).system().system_start_time == old(self).system().system_start_time
                &&& old(self).usage().contains_key(thread_id) ==> {
                    &&& final(self).system().total_memory_usage == wrap_sub(
                        old(self).system().total_memory_usage,
                        old(self).usage()[thread_id].memory_usage,
                    )
                    &&& final(self).system().total_open_files == wrap_sub(
                        old(self).system().total_open_files,
                        old(self).usage()[thread_id].open_files as u64,
                    )
                }
                &&& !old(self).usage().contains_key(thread_id) ==> {
                    &&& final(self).system().total_memory_usage == old(self).system().total_memory_usage
                    &&& final(self).system().total_open_files == old(self).system().total_open_files
                }
            },
    {
        if !self.enabled {
            return;
        }
        let removed = self.thread_usage.remove(&thread_id);
        if let Some(u) = removed {
            self.system_usage.total_memory_usage = self.system_usage.total_memory_usage.wrapping_sub(
                u.memory_usage,
            );
            self.system_usage.total_open_files = self.system_usage.total_open_files.wrapping_sub(
                u.open_files as u64,
            );
        }
        self.thread_quotas.remove(&thread_id);
        self.system_usage.total_threads = self.system_usage.total_threads.wrapping_sub(1);
    }

    /// The quota that applies to `thread_id`.
    pub fn get_thread_quota(&self, thread_id: ThreadId) -> (q: ResourceQuota)
        ensures
            q == self.quota_for(thread_id),
    {
        match self.thread_quotas.get(&thread_id) {
            Some(q) => *q,
            None => self.default_quota,
        }
    }

    /// The usage counted for `thread_id`.
    pub fn get_thread_usage(&self, thread_id: ThreadId) -> (u: ResourceUsage)
        ensures
            u == self.usage_for(thread_id),
    {
        match self.thread_usage.get(&thread_id) {
            Some(u) => *u,
            None => ResourceUsage::new(thread_id, 0),
        }
    }

    /// Appends `violation` to the history, dropping the oldest entries
    /// beyond the kept number.
    fn handle_violation(&mut self, violation: LimitViolation)
        requires
            old(self).wf(),
        ensures
            final(self).wf(),
            final(self).history() == keep_last(
                old(self).history().push(violation),
                old(self).history_limit(),
            ),
            final(self).same_but_history(old(self)),
    {
        let max = self.max_violation_history;
        let len = self.violations.len();
        if len < max {
            self.violations.push(violation);
            return;
        }
        // Here the history is full: the oldest entry makes room.
        if max == 0 {
            self.violations = Vec::new();
            return;
        }
        let mut kept: Vec<LimitViolation> = Vec::new();
        let mut i: usize = 1;
        while i < len
            invariant
                1 <= i <= len,
                len == self.violations@.len(),
                kept@ == self.violations@.subrange(1, i as int),
            decreases len - i,
        {
            kept.push(self.violations[i]);
            i = i + 1;
        }
        kept.push(violation);
        proof {
            assert(kept@ == keep_last(old(self).history().push(violation), max as nat));
        }
        self.violations = kept;
    }

    /// Whether `thread_id` may consume `requested_amount` more of `resource_type`.
    /// A request that takes the usage above a set limit is recorded in the
    /// history; under a hard quota it is refused with the resource's error,
    /// under a soft one it is let through. While enforcement is off every
    /// request passes and nothing is recorded.
    pub fn check_resource_limit(
        &mut self,
        thread_id: ThreadId,
        resource_type: ResourceType,
        requested_amount: u64,
        now: u64,
    ) -> (r: Result<(), ThreadError>)
        requires
            old(self).wf(),
            old(self).spec_enabled() && resource_type == ResourceType::NetworkBandwidth ==> consumed(
                old(self).usage_for(thread_id),
                resource_type,
            ) <= u64::MAX,
            old(self).spec_enabled() && limit_of(old(self).quota_for(thread_id), resource_type) > 0 ==> consumed(
                old(self).usage_for(thread_id),
                resource_type,
            ) + requested_amount <= u64::MAX,
        ensures
            final(self).wf(),
            ({
                let q = old(self).quota_for(thread_id);
                let used = consumed(old(self).usage_for(thread_id), resource_type)
                    + requested_amount;
                let limit = limit_of(q, resource_type);
                let exceeded = old(self).spec_enabled() && limit > 0 && used > limit;
                &&& !exceeded ==> r is Ok && *final(self) == *old(self)
                &&& exceeded ==> {
                    &&& final(self).history() == keep_last(
                        old(self).history().push(
                            LimitViolation {
                                thread_id,
                                resource_type,
                                current_usage: used as u64,
                                limit,
                                hard_limit: q.hard_limits,
                                timestamp: now,
                                suggested_action: if q.hard_limits {
                                    ViolationAction::Terminate
                                } else {
                                    ViolationAction::Warn
                                },
                            },
                        ),
                        old(self).history_limit(),
                    )
                    &&& final(self).same_but_history(old(self))
                    &&& q.hard_limits ==> r == Err::<(), ThreadError>(limit_error(resource_type))
                    &&& !q.hard_limits ==> r is Ok
                }
            }),
    {
        if !self.enabled {
            return Ok(());
        }
        let quota = self.get_thread_quota(thread_id);
        let current = self.get_thread_usage(thread_id);
        let (current_value, limit): (u64, u64) = match resource_type {
            ResourceType::CpuTime => (current.cpu_time_ns, quota.max_cpu_time_ns),
            ResourceType::Memory => (current.memory_usage, quota.max_memory_bytes),
            ResourceType::FileDescriptors => (current.open_files as u64, quota.max_open_files as u64),
            ResourceType::ChildThreads => (current.child_threads as u64, quota.max_child_threads as u64),
            ResourceType::NetworkConnections => (
                current.network_connections as u64,
                quota.max_network_connections as u64,
            ),
            ResourceType::DiskIOPS => (current.disk_io_ops, quota.max_disk_iops),
            ResourceType::NetworkBandwidth => (
                current.network_bytes_tx + current.network_bytes_rx,
                quota.max_network_bw,
            ),
        };
        if limit > 0 && current_value + requested_amount > limit {
            let used = current_value + requested_amount;
            let violation = LimitViolation {
                thread_id,
                resource_type,
                current_usage: used,
                limit,
                hard_limit: quota.hard_limits,
                timestamp: now,
                suggested_action: if quota.hard_limits {
                    ViolationAction::Terminate
                } else {
                    ViolationAction::Warn
                },
            };
            self.handle_violation(violation);
            if quota.hard_limits {
                match resource_type {
                    ResourceType::CpuTime => Err(ThreadError::Resource(ResourceError::MaxCpuTime)),
                    ResourceType::Memory => Err(ThreadError::Resource(ResourceError::MaxMemoryUsage)),
                    ResourceType::FileDescriptors => Err(
                        ThreadError::Resource(ResourceError::MaxFileDescriptors),
                    ),
                    ResourceType::ChildThreads => Err(
                        ThreadError::Resource(ResourceError::MaxThreadsPerProcess),
                    ),
                    _ => Err(ThreadError::Resource(ResourceError::ResourceUnavailable)),
                }
            } else {
                Ok(())
            }
        } else {
            Ok(())
        }
    }

    /// Applies a reading of `new_value` for `resource_type` to the usage of
    /// `thread_id` and to the totals. Untracked threads, and every call
    /// while enforcement is off, change nothing.
    pub fn update_resource_usage(
        &mut self,
        thread_id: ThreadId,
        resource_type: ResourceType,
        new_value: u64,
        now: u64,
    )
        requires
            old(self).spec_enabled() && old(self).usage().contains_key(thread_id)
                && resource_type == ResourceType::CpuTime ==> old(self).usage()[thread_id].cpu_time_ns
                + new_value <= u64::MAX,
        ensures
            final(self).quotas() == old(self).quotas(),
            final(self).default_quota_spec() == old(self).default_quota_spec(),
            final(self).spec_enabled() == old(self).spec_enabled(),
            final(self).history() == old(self).history(),
            final(self).history_limit() == old(self).history_limit(),
            !(old(self).spec_enabled() && old(self).usage().contains_key(thread_id))
                ==> final(self).usage() == old(self).usage() && final(self).system() == old(self).system(),
            old(self).spec_enabled() && old(self).usage().contains_key(thread_id) ==> {
                &&& final(self).usage() == old(self).usage().insert(
                    thread_id,
                    with_reading(old(self).usage()[thread_id], resource_type, new_value, now),
                )
                &&& final(self).system() == totals_with_reading(
                    old(self).system(),
                    old(self).usage()[thread_id],
                    resource_type,
                    new_value,
                )
            },
    {
        if !self.enabled {
            return;
        }
        let entry = self.thread_usage.get(&thread_id);
        let mut u = match entry {
            Some(u) => *u,
            None => {
                return;
            },
        };
        let old_value: u64 = match resource_type {
            ResourceType::Memory => {
                let old = u.memory_usage;
                u.update_memory_usage(new_value, now);
                old
            },
            ResourceType::CpuTime => {
                u.add_cpu_time(new_value, now);
                0
            },
            ResourceType::FileDescriptors => {
                let old = u.open_files as u64;
                u.open_files = new_value as u32;
                old
            },
            ResourceType::ChildThreads => {
                let old = u.child_threads as u64;
                u.child_threads = new_value as u32;
                old
            },
            _ => 0,
        };
        self.thread_usage.insert(thread_id, u);
        match resource_type {
            ResourceType::Memory => {
                if new_value > old_value {
                    self.system_usage.total_memory_usage = self.system_usage.total_memory_usage.wrapping_add(
                        new_value - old_value,
                    );
                } else {
                    self.system_usage.total_memory_usage = self.system_usage.total_memory_usage.wrapping_sub(
                        old_value - new_value,
                    );
                }
            },
            ResourceType::CpuTime => {
                self.system_usage.total_cpu_time_ns = self.system_usage.total_cpu_time_ns.wrapping_add(
                    new_value,
                );
            },
            _ => {},
        }
    }

    /// The recorded violations, oldest first.
    pub fn get_violation_history(&self) -> (v: Vec<LimitViolation>)
        ensures
            v@ == self.history(),
    {
        self.violations.clone()
    }

    /// A snapshot of the system totals.
    pub fn get_system_usage(&self) -> (s: SystemResourceUsage)
        ensures
            s == self.system(),
    {
        self.system_usage
    }

    /// Turns enforcement off.
    pub fn disable(&mut self)
        ensures
            !final(self).spec_enabled(),
            final(self).same_but_enabled(old(self)),
    {
        self.enabled = false;
    }
}

/// Turns enforcement of `limiter` on.
pub fn init_resource_limiter(limiter: &mut ResourceLimiter) -> (r: Result<(), &'static str>)
    ensures
        r is Ok,
        final(limiter).spec_enabled(),
        final(limiter).same_but_enabled(old(limiter)),
{
    limiter.init()
}

/// Turns enforcement of `limiter` off.
pub fn cleanup_resource_limiter(limiter: &mut ResourceLimiter)
    ensures
        !final(limiter).spec_enabled(),
        final(limiter).same_but_enabled(old(limiter)),
{
    limiter.disable();
}

/// The violation history keeps the latest violations only: after a
/// violation is recorded it holds at most `max` entries, the new violation
/// is the newest one, and the entries before it are the newest of the
/// earlier history, in order.
pub proof fn law_history_keeps_latest(history: Seq<LimitViolation>, v: LimitViolation, max: nat)
    requires
        0 < max,
    ensures
        keep_last(history.push(v), max).len() <= max,
        keep_last(history.push(v), max).last() == v,
        keep_last(history.push(v), max).drop_last() == keep_last(history, (max - 1) as nat),
{
    let h = history.push(v);
    let r = keep_last(h, max);
    if h.len() > max {
        assert(r.drop_last() =~= keep_last(history, (max - 1) as nat));
    } else {
        assert(r.drop_last() =~= history);
    }
}

} // verus!
