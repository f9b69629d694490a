use vstd::prelude::*;
use std::collections::BTreeMap;
use crate::errors::ThreadError;
use crate::security::{SecurityConfig, SecurityViolation};
use crate::thread::ThreadId;
use crate::observability::metrics::wrap_add;
use crate::perf::fast_paths::wrap_inc_usize;

verus! {

broadcast use {vstd::std_specs::btree::group_btree_axioms, vstd::laws_cmp::group_laws_cmp};

/// How strictly a domain is isolated, from least to most.
#[derive(Debug, Clone, Copy, PartialEq, Eq, Structural, PartialOrd, Ord)]
pub enum SecurityLevel {
    Low,
    Medium,
    High,
    Critical,
}

/// Kinds of access across domains.
#[derive(Debug, Clone, Copy, PartialEq, Eq, Structural)]
pub enum AccessType {
    MemoryRead,
    MemoryWrite,
    Signal,
    ResourceShare,
    Ipc,
    ThreadControl,
}

/// Permissions of a memory region.
#[derive(Debug, Clone, Copy, PartialEq, Eq, Structural)]
pub struct MemoryPermissions {
    pub read: bool,
    pub write: bool,
    pub execute: bool,
}

/// A memory region: `size` bytes from `start`.
#[derive(Debug, Clone, Copy, PartialEq, Eq, Structural)]
pub struct MemoryRegion {
    pub start: usize,
    pub size: usize,
    pub permissions: MemoryPermissions,
}

/// Heap access of a domain.
#[derive(Debug, Clone, Copy, PartialEq, Eq, Structural)]
pub enum HeapAccessPolicy {
    Isolated,
    Shared,
    NoAccess,
}

/// Stack access of a domain.
#[derive(Debug, Clone, Copy, PartialEq, Eq, Structural)]
pub enum StackAccessPolicy {
    Private,
    LimitedAccess,
    Shared,
}

/// The memory a domain may and may not touch.
#[derive(Debug, Clone)]
pub struct MemoryRestrictions {
    pub allowed_regions: Vec<MemoryRegion>,
    pub forbidden_regions: Vec<MemoryRegion>,
    pub heap_access: HeapAccessPolicy,
    pub stack_access: StackAccessPolicy,
}

impl MemoryRestrictions {
    /// No region listed, an isolated heap and a private stack.
    pub fn default_restrictions() -> (m: Self)
        ensures
            m.allowed_regions@ == Seq::<MemoryRegion>::empty(),
            m.forbidden_regions@ == Seq::<MemoryRegion>::empty(),
            m.heap_access == HeapAccessPolicy::Isolated,
            m.stack_access == StackAccessPolicy::Private,
    {
        MemoryRestrictions {
            allowed_regions: Vec::new(),
            forbidden_regions: Vec::new(),
            heap_access: HeapAccessPolicy::Isolated,
            stack_access: StackAccessPolicy::Private,
        }
    }
}

/// Limits of a domain; none means unlimited.
#[derive(Debug, Clone, Copy, PartialEq, Eq, Structural)]
pub struct ResourceLimits {
    pub max_memory: Option<usize>,
    pub max_cpu_time: Option<u64>,
    pub max_file_handles: Option<usize>,
    pub max_network_connections: Option<usize>,
}

/// 64 MiB of memory, unlimited CPU time, 256 files, 16 connections.
pub open spec fn default_limits() -> ResourceLimits {
    ResourceLimits {
        max_memory: Some(67108864),
        max_cpu_time: None,
        max_file_handles: Some(256),
        max_network_connections: Some(16),
    }
}

impl Default for ResourceLimits {
    /// 64 MiB, unlimited CPU time, 256 files, 16 connections.
    fn default() -> (l: Self)
        ensures
            l == default_limits(),
    {
        ResourceLimits {
            max_memory: Some(64 * 1024 * 1024),
            max_cpu_time: None,
            max_file_handles: Some(256),
            max_network_connections: Some(16),
        }
    }
}

/// Communication between domains.
#[derive(Debug, Clone, Copy, PartialEq, Eq, Structural)]
pub enum IpcPolicy {
    Blocked,
    Restricted,
    Controlled,
    Unrestricted,
}

/// Settings of an isolation domain.
#[derive(Debug, Clone)]
pub struct IsolationConfig {
    pub security_level: SecurityLevel,
    pub allowed_operations: Vec<AccessType>,
    pub memory_restrictions: MemoryRestrictions,
    pub resource_limits: ResourceLimits,
    pub ipc_policy: IpcPolicy,
}

impl IsolationConfig {
    /// Medium level, only signals across domains, default memory
    /// restrictions and limits, restricted communication.
    pub fn default_config() -> (c: Self)
        ensures
            c.security_level == SecurityLevel::Medium,
            c.allowed_operations@ == seq![AccessType::Signal],
            c.memory_restrictions.allowed_regions@ == Seq::<MemoryRegion>::empty(),
            c.memory_restrictions.forbidden_regions@ == Seq::<MemoryRegion>::empty(),
            c.memory_restrictions.heap_access == HeapAccessPolicy::Isolated,
            c.memory_restrictions.stack_access == StackAccessPolicy::Private,
            c.resource_limits == default_limits(),
            c.ipc_policy == IpcPolicy::Restricted,
    {
        let mut ops: Vec<AccessType> = Vec::new();
        ops.push(AccessType::Signal);
        IsolationConfig {
            security_level: SecurityLevel::Medium,
            allowed_operations: ops,
            memory_restrictions: MemoryRestrictions::default_restrictions(),
            resource_limits: ResourceLimits::default(),
            ipc_policy: IpcPolicy::Restricted,
        }
    }
}

/// Resources a domain uses.
#[derive(Debug, Clone, Copy, PartialEq, Eq, Structural)]
pub struct ResourceUsage {
    pub memory_used: usize,
    pub cpu_time_used: u64,
    pub file_handles_used: usize,
    pub network_connections_used: usize,
}

impl ResourceUsage {
    /// Nothing used.
    pub fn new() -> (u: Self)
        ensures
            u == (ResourceUsage { memory_used: 0, cpu_time_used: 0, file_handles_used: 0, network_connections_used: 0 }),
    {
        ResourceUsage { memory_used: 0, cpu_time_used: 0, file_handles_used: 0, network_connections_used: 0 }
    }
}

/// Whether a domain at `level` may make an access of kind `access`
/// across domains: low allows all, medium all but writes and thread
/// control, high only signals, critical nothing.
pub open spec fn level_allows(level: SecurityLevel, access: AccessType) -> bool {
    match level {
        SecurityLevel::Low => true,
        SecurityLevel::Medium => !(access == AccessType::MemoryWrite || access == AccessType::ThreadControl),
        SecurityLevel::High => access == AccessType::Signal,
        SecurityLevel::Critical => false,
    }
}

/// Whether address `a` lies in region `r`.
pub open spec fn region_holds(r: MemoryRegion, a: int) -> bool {
    r.start <= a < r.start + r.size
}

/// Whether the `size` bytes from `a` lie in region `r`, which permits
/// writing when `write` is asked.
pub open spec fn region_admits(r: MemoryRegion, a: int, size: int, write: bool) -> bool {
    r.start <= a && a + size <= r.start + r.size && (!write || r.permissions.write)
}

/// An isolated thread's domain.
#[derive(Debug)]
pub struct IsolationDomain {
    pub thread_id: ThreadId,
    pub config: IsolationConfig,
    pub resource_usage: ResourceUsage,
    pub allowed_domains: Vec<ThreadId>,
    pub created_at: u64,
}

/// Whether domain `d` may access domain `target` in kind `access`: the
/// kind is allowed, the target is among the allowed domains when any are
/// listed, and the level permits it.
pub open spec fn cross_access(d: IsolationDomain, target: ThreadId, access: AccessType) -> bool {
    &&& d.config.allowed_operations@.contains(access)
    &&& (d.allowed_domains@.len() == 0 || d.allowed_domains@.contains(target))
    &&& level_allows(d.config.security_level, access)
}

/// Whether domain `d` may access `size` bytes at `address`: no forbidden
/// region holds the address and, when regions are allowed, one of them
/// admits the access.
pub open spec fn memory_access(d: IsolationDomain, address: usize, size: usize, write: bool) -> bool {
    let r = d.config.memory_restrictions;
    &&& forall|i: int| 0 <= i < r.forbidden_regions@.len() ==> !region_holds(#[trigger] r.forbidden_regions@[i], address as int)
    &&& (r.allowed_regions@.len() == 0 || exists|i: int|
        0 <= i < r.allowed_regions@.len() && region_admits(
            #[trigger] r.allowed_regions@[i],
            address as int,
            size as int,
            write,
        ))
}

fn contains_access(s: &Vec<AccessType>, x: AccessType) -> (r: bool)
    ensures
        r == s@.contains(x),
{
    let mut i: usize = 0;
    while i < s.len()
        invariant
            i <= s@.len(),
            forall|j: int| 0 <= j < i ==> s@[j] != x,
        decreases s@.len() - i,
    {
        if s[i] == x {
            return true;
        }
        i = i + 1;
    }
    false
}

fn contains_thread(s: &Vec<ThreadId>, x: ThreadId) -> (r: bool)
    ensures
        r == s@.contains(x),
{
    let mut i: usize = 0;
    while i < s.len()
        invariant
            i <= s@.len(),
            forall|j: int| 0 <= j < i ==> s@[j] != x,
        decreases s@.len() - i,
    {
        if s[i] == x {
            return true;
        }
        i = i + 1;
    }
    false
}

impl IsolationDomain {
    /// The domain of `thread_id` with `config`, nothing used, no allowed
    /// domain, created at `now`.
    pub fn new(thread_id: ThreadId, config: IsolationConfig, now: u64) -> (r: Result<Self, ThreadError>)
        ensures
            r matches Ok(d) && d.thread_id == thread_id && d.config == config && d.resource_usage
                == ResourceUsage::new_spec() && d.allowed_domains@ == Seq::<ThreadId>::empty() && d.created_at == now,
    {
        Ok(
            IsolationDomain {
                thread_id,
                config,
                resource_usage: ResourceUsage::new(),
                allowed_domains: Vec::new(),
                created_at: now,
            },
        )
    }

    /// Whether this domain may access domain `target_domain` in kind
    /// `access_type`.
    pub fn check_cross_domain_access(&self, target_domain: ThreadId, access_type: AccessType) -> (r: bool)
        ensures
            r == cross_access(*self, target_domain, access_type),
    {
        if !contains_access(&self.config.allowed_operations, access_type) {
            return false;
        }
        if self.allowed_domains.len() != 0 && !contains_thread(&self.allowed_domains, target_domain) {
            return false;
        }
        match self.config.security_level {
            SecurityLevel::Low => true,
            SecurityLevel::Medium => match access_type {
                AccessType::MemoryWrite | AccessType::ThreadControl => false,
                _ => true,
            },
            SecurityLevel::High => match access_type {
                AccessType::Signal => true,
                _ => false,
            },
            SecurityLevel::Critical => false,
        }
    }

    /// Allows interaction with `domain_id`, once.
    pub fn allow_domain_interaction(&mut self, domain_id: ThreadId)
        ensures
            old(self).allowed_domains@.contains(domain_id) ==> final(self).allowed_domains@ == old(self).allowed_domains@,
            !old(self).allowed_domains@.contains(domain_id) ==> final(self).allowed_domains@ == old(self).allowed_domains@.push(domain_id),
            final(self).thread_id == old(self).thread_id,
            final(self).config == old(self).config,
            final(self).resource_usage == old(self).resource_usage,
            final(self).created_at == old(self).created_at,
    {
        if !contains_thread(&self.allowed_domains, domain_id) {
            self.allowed_domains.push(domain_id);
        }
    }

    /// Stops allowing interaction with `domain_id`.
    pub fn disallow_domain_interaction(&mut self, domain_id: ThreadId)
        ensures
            final(self).allowed_domains@ == old(self).allowed_domains@.filter(|id: ThreadId| id != domain_id),
            final(self).thread_id == old(self).thread_id,
            final(self).config == old(self).config,
            final(self).resource_usage == old(self).resource_usage,
            final(self).created_at == old(self).created_at,
    {
        let ghost all = self.allowed_domains@;
        let mut kept: Vec<ThreadId> = Vec::new();
        let mut i: usize = 0;
        let n = self.allowed_domains.len();
        while i < n
            invariant
                i <= n,
                n == all.len(),
                all == self.allowed_domains@,
                kept@ == all.subrange(0, i as int).filter(|id: ThreadId| id != domain_id),
            decreases n - i,
        {
            proof {
                assert(all.subrange(0, i + 1).drop_last() == all.subrange(0, i as int));
                reveal(Seq::filter);
            }
            let id = self.allowed_domains[i];
            if id != domain_id {
                kept.push(id);
            }
            i = i + 1;
        }
        assert(all.subrange(0, n as int) == all);
        self.allowed_domains = kept;
    }

    /// Whether this domain may access `size` bytes at `address`, for
    /// writing when `write` is set.
    pub fn check_memory_access(&self, address: usize, size: usize, write: bool) -> (r: bool)
        ensures
            r == memory_access(*self, address, size, write),
    {
        let forbidden = &self.config.memory_restrictions.forbidden_regions;
        let mut i: usize = 0;
        while i < forbidden.len()
            invariant
                i <= forbidden@.len(),
                forbidden == &self.config.memory_restrictions.forbidden_regions,
                forall|j: int| 0 <= j < i ==> !region_holds(#[trigger] forbidden@[j], address as int),
            decreases forbidden@.len() - i,
        {
            let region = forbidden[i];
            if address >= region.start && address - region.start < region.size {
                return false;
            }
            i = i + 1;
        }
        let allowed = &self.config.memory_restrictions.allowed_regions;
        if allowed.len() != 0 {
            let mut found = false;
            let mut k: usize = 0;
            while k < allowed.len() && !found
                invariant
                    k <= allowed@.len(),
                    allowed == &self.config.memory_restrictions.allowed_regions,
                    !found ==> forall|j: int| 0 <= j < k ==> !region_admits(#[trigger] allowed@[j], address as int, size as int, write),
                    found ==> exists|j: int| 0 <= j < k && region_admits(#[trigger] allowed@[j], address as int, size as int, write),
                decreases allowed@.len() - k,
            {
                let region = allowed[k];
                if address >= region.start && address - region.start <= region.size && size <= region.size - (
                address - region.start) && (!write || region.permissions.write) {
                    found = true;
                    assert(region_admits(allowed@[k as int], address as int, size as int, write));
                }
                k = k + 1;
            }
            if !found {
                return false;
            }
        }
        true
    }

    /// Takes `usage` as the current usage, unless it is over the memory or
    /// CPU-time limit, which is resource exhaustion.
    pub fn update_resource_usage(&mut self, usage: ResourceUsage) -> (r: Result<(), ThreadError>)
        ensures
            ({
                let l = old(self).config.resource_limits;
                let over = (l.max_memory matches Some(m) && usage.memory_used > m) || (l.max_cpu_time matches Some(
                    c,
                ) && usage.cpu_time_used > c);
                &&& over ==> r == Err::<(), ThreadError>(ThreadError::ResourceExhaustion) && final(self).resource_usage
                    == old(self).resource_usage
                &&& !over ==> r is Ok && final(self).resource_usage == usage
            }),
            final(self).thread_id == old(self).thread_id,
            final(self).config == old(self).config,
            final(self).allowed_domains == old(self).allowed_domains,
            final(self).created_at == old(self).created_at,
    {
        if let Some(max_memory) = self.config.resource_limits.max_memory {
            if usage.memory_used > max_memory {
                return Err(ThreadError::ResourceExhaustion);
            }
        }
        if let Some(max_cpu) = self.config.resource_limits.max_cpu_time {
            if usage.cpu_time_used > max_cpu {
                return Err(ThreadError::ResourceExhaustion);
            }
        }
        self.resource_usage = usage;
        Ok(())
    }
}

impl ResourceUsage {
    /// Nothing used.
    pub open spec fn new_spec() -> ResourceUsage {
        ResourceUsage { memory_used: 0, cpu_time_used: 0, file_handles_used: 0, network_connections_used: 0 }
    }
}

/// The isolation domains of threads, with counters of refused and
/// permitted crossings.
pub struct ThreadIsolation {
    domains: BTreeMap<ThreadId, IsolationDomain>,
    violations_detected: usize,
    boundary_crosses: u64,
}

impl ThreadIsolation {
    /// The domain of each isolated thread.
    pub closed spec fn domains_spec(&self) -> Map<ThreadId, IsolationDomain> {
        self.domains@
    }

    /// Refused crossings, modulo the word size.
    pub closed spec fn violations(&self) -> usize {
        self.violations_detected
    }

    /// Permitted crossings, modulo 2^64.
    pub closed spec fn crosses(&self) -> u64 {
        self.boundary_crosses
    }

    /// `self` is `old` after an access check of `accessor` on `target` of
    /// kind `access`: the domains stay; a check made by a domain counts as
    /// a crossing when allowed and as a violation when refused.
    pub open spec fn after_check(&self, old: &Self, accessor: ThreadId, target: ThreadId, access: AccessType) -> bool {
        &&& self.domains_spec() == old.domains_spec()
        &&& accessor == target || !old.domains_spec().contains_key(accessor) ==> self.violations() == old.violations()
            && self.crosses() == old.crosses()
        &&& accessor != target && old.domains_spec().contains_key(accessor) ==> {
            if cross_access(old.domains_spec()[accessor], target, access) {
                self.crosses() == wrap_add(old.crosses(), 1) && self.violations() == old.violations()
            } else {
                self.violations() == wrap_inc_usize(old.violations()) && self.crosses() == old.crosses()
            }
        }
    }

    /// No domain, zero counters.
    pub fn new() -> (t: Self)
        ensures
            t.domains_spec() == Map::<ThreadId, IsolationDomain>::empty(),
            t.violations() == 0,
            t.crosses() == 0,
    {
        ThreadIsolation { domains: BTreeMap::new(), violations_detected: 0, boundary_crosses: 0 }
    }

    /// Puts `thread_id` in a new domain with `config`, created at `now`,
    /// replacing any domain it had.
    pub fn create_domain(&mut self, thread_id: ThreadId, config: IsolationConfig, now: u64) -> (r: Result<(), ThreadError>)
        ensures
            r is Ok,
            final(self).domains_spec().dom() == old(self).domains_spec().dom().insert(thread_id),
            forall|t: ThreadId| t != thread_id && old(self).domains_spec().contains_key(t) ==> #[trigger] final(self).domains_spec()[t]
                == old(self).domains_spec()[t],
            final(self).domains_spec()[thread_id].thread_id == thread_id,
            final(self).domains_spec()[thread_id].config == config,
            final(self).domains_spec()[thread_id].allowed_domains@ == Seq::<ThreadId>::empty(),
            final(self).domains_spec()[thread_id].created_at == now,
            final(self).violations() == old(self).violations(),
            final(self).crosses() == old(self).crosses(),
    {
        let domain = IsolationDomain::new(thread_id, config, now)?;
        self.domains.insert(thread_id, domain);
        Ok(())
    }

    /// Whether `accessor_id` may access `target_id` in kind `access_type`:
    /// a thread may always access itself, a thread without domain anything;
    /// otherwise its domain decides. Decisions of a domain are counted as
    /// crossings or violations.
    pub fn check_access(&mut self, accessor_id: ThreadId, target_id: ThreadId, access_type: AccessType) -> (r: bool)
        ensures
            final(self).domains_spec() == old(self).domains_spec(),
            accessor_id == target_id || !old(self).domains_spec().contains_key(accessor_id) ==> r
                && final(self).violations() == old(self).violations() && final(self).crosses() == old(self).crosses(),
            accessor_id != target_id && old(self).domains_spec().contains_key(accessor_id) ==> {
                &&& r == cross_access(old(self).domains_spec()[accessor_id], target_id, access_type)
                &&& r ==> final(self).crosses() == wrap_add(old(self).crosses(), 1) && final(self).violations()
                    == old(self).violations()
                &&& !r ==> final(self).violations() == wrap_inc_usize(old(self).violations())
                    && final(self).crosses() == old(self).crosses()
            },
    {
        if accessor_id == target_id {
            return true;
        }
        let allowed = match self.domains.get(&accessor_id) {
            Some(domain) => domain.check_cross_domain_access(target_id, access_type),
            None => {
                return true;
            },
        };
        if !allowed {
            self.violations_detected = self.violations_detected.wrapping_add(1);
        } else {
            self.boundary_crosses = self.boundary_crosses.wrapping_add(1);
        }
        allowed
    }

    /// Whether domain `domain_id` may access `size` bytes at `address`; a
    /// thread without domain may access anything.
    pub fn check_memory(&self, domain_id: ThreadId, address: usize, size: usize, write: bool) -> (r: bool)
        ensures
            self.domains_spec().contains_key(domain_id) ==> r == memory_access(
                self.domains_spec()[domain_id],
                address,
                size,
                write,
            ),
            !self.domains_spec().contains_key(domain_id) ==> r,
    {
        match self.domains.get(&domain_id) {
            Some(domain) => domain.check_memory_access(address, size, write),
            None => true,
        }
    }

    /// Takes `thread_id` out of isolation.
    pub fn remove_domain(&mut self, thread_id: ThreadId)
        ensures
            final(self).domains_spec() == old(self).domains_spec().remove(thread_id),
            final(self).violations() == old(self).violations(),
            final(self).crosses() == old(self).crosses(),
    {
        self.domains.remove(&thread_id);
    }

    /// The counters and the number of domains.
    pub fn stats(&self) -> (s: IsolationStats)
        ensures
            s == (IsolationStats {
                domains_active: self.domains_spec().len() as usize,
                violations_detected: self.violations(),
                boundary_crosses: self.crosses(),
                isolation_enabled: true,
            }),
    {
        IsolationStats {
            domains_active: self.domains.len(),
            violations_detected: self.violations_detected,
            boundary_crosses: self.boundary_crosses,
            isolation_enabled: true,
        }
    }
}

/// Whether, with the isolation in `slot`, `accessor` may access `target`
/// in kind `access`; with no isolation active everything is allowed.
pub open spec fn slot_allows(slot: Option<ThreadIsolation>, accessor: ThreadId, target: ThreadId, access: AccessType) -> bool {
    match slot {
        None => true,
        Some(iso) => accessor == target || !iso.domains_spec().contains_key(accessor) || cross_access(
            iso.domains_spec()[accessor],
            target,
            access,
        ),
    }
}

/// Whether, with the isolation in `slot`, domain `domain` may access
/// `size` bytes at `address`.
pub open spec fn slot_memory(slot: Option<ThreadIsolation>, domain: ThreadId, address: usize, size: usize, write: bool) -> bool {
    match slot {
        None => true,
        Some(iso) => !iso.domains_spec().contains_key(domain) || memory_access(
            iso.domains_spec()[domain],
            address,
            size,
            write,
        ),
    }
}

/// Starts isolation with no domain in `slot`.
pub fn init_thread_isolation(slot: &mut Option<ThreadIsolation>, config: SecurityConfig) -> (r: Result<(), ThreadError>)
    ensures
        r is Ok,
        *final(slot) is Some,
        (*final(slot))->0.domains_spec() == Map::<ThreadId, IsolationDomain>::empty(),
{
    *slot = Some(ThreadIsolation::new());
    Ok(())
}

/// Puts `thread_id` in a new domain; an invalid state when isolation is
/// not active.
pub fn create_isolation_domain(slot: &mut Option<ThreadIsolation>, thread_id: ThreadId, config: IsolationConfig, now: u64) -> (r: Result<(), ThreadError>)
    ensures
        *old(slot) is None <==> r is Err,
        *old(slot) is None ==> r == Err::<(), ThreadError>(ThreadError::InvalidState) && *final(slot) is None,
        *old(slot) is Some ==> *final(slot) is Some && (*final(slot))->0.domains_spec().contains_key(thread_id)
            && (*final(slot))->0.domains_spec()[thread_id].config == config,
{
    match slot {
        Some(isolation) => isolation.create_domain(thread_id, config, now),
        None => Err(ThreadError::InvalidState),
    }
}

/// Whether `accessor_id` may access `target_id` in kind `access_type`.
pub fn check_cross_domain_access(slot: &mut Option<ThreadIsolation>, accessor_id: ThreadId, target_id: ThreadId, access_type: AccessType) -> (r: bool)
    ensures
        r == slot_allows(*old(slot), accessor_id, target_id, access_type),
        *old(slot) is None ==> *final(slot) is None,
        *old(slot) is Some ==> *final(slot) is Some && (*final(slot))->0.after_check(
            &(*old(slot))->0,
            accessor_id,
            target_id,
            access_type,
        ),
{
    match slot {
        Some(isolation) => isolation.check_access(accessor_id, target_id, access_type),
        None => true,
    }
}

/// Whether domain `domain_id` may access `size` bytes at `address`.
pub fn check_memory_access(slot: &Option<ThreadIsolation>, domain_id: ThreadId, address: usize, size: usize, write: bool) -> (r: bool)
    ensures
        r == slot_memory(*slot, domain_id, address, size, write),
{
    match slot {
        Some(isolation) => isolation.check_memory(domain_id, address, size, write),
        None => true,
    }
}

/// Takes `thread_id` out of isolation, when it is active.
pub fn remove_isolation_domain(slot: &mut Option<ThreadIsolation>, thread_id: ThreadId)
    ensures
        *old(slot) is None ==> *final(slot) is None,
        *old(slot) is Some ==> *final(slot) is Some && (*final(slot))->0.domains_spec() == (*old(slot))->0.domains_spec().remove(
            thread_id,
        ) && (*final(slot))->0.violations() == (*old(slot))->0.violations() && (*final(slot))->0.crosses()
            == (*old(slot))->0.crosses(),
{
    if let Some(isolation) = slot {
        isolation.remove_domain(thread_id);
    }
}

/// Counters of the isolation.
#[derive(Debug, Clone, Copy, PartialEq, Eq, Structural)]
pub struct IsolationStats {
    pub domains_active: usize,
    pub violations_detected: usize,
    pub boundary_crosses: u64,
    pub isolation_enabled: bool,
}

/// The counters of the isolation in `slot`; all zero and off without it.
pub fn get_isolation_stats(slot: &Option<ThreadIsolation>) -> (s: IsolationStats)
    ensures
        slot is None ==> s == (IsolationStats {
            domains_active: 0,
            violations_detected: 0,
            boundary_crosses: 0,
            isolation_enabled: false,
        }),
        slot matches Some(iso) ==> s == (IsolationStats {
            domains_active: iso.domains_spec().len() as usize,
            violations_detected: iso.violations(),
            boundary_crosses: iso.crosses(),
            isolation_enabled: true,
        }),
{
    match slot {
        Some(isolation) => isolation.stats(),
        None => IsolationStats { domains_active: 0, violations_detected: 0, boundary_crosses: 0, isolation_enabled: false },
    }
}

/// A checked read access of a domain to memory.
pub struct MemoryAccessGuard {
    domain_id: ThreadId,
    address: usize,
    size: usize,
}

impl MemoryAccessGuard {
    /// The domain.
    pub closed spec fn domain(&self) -> ThreadId {
        self.domain_id
    }

    /// The start of the memory.
    pub closed spec fn start(&self) -> usize {
        self.address
    }

    /// The length of the memory.
    pub closed spec fn len(&self) -> usize {
        self.size
    }

    /// Access of domain `domain_id` to `size` bytes at `address` for
    /// reading; refused access is an isolation violation.
    pub fn new(slot: &Option<ThreadIsolation>, domain_id: ThreadId, address: usize, size: usize) -> (r: Result<Self, SecurityViolation>)
        ensures
            slot_memory(*slot, domain_id, address, size, false) ==> (r matches Ok(g) && g.domain() == domain_id
                && g.start() == address && g.len() == size),
            !slot_memory(*slot, domain_id, address, size, false) ==> (r matches Err(v) && v
                == SecurityViolation::IsolationViolation),
    {
        if !check_memory_access(slot, domain_id, address, size, false) {
            return Err(SecurityViolation::IsolationViolation);
        }
        Ok(MemoryAccessGuard { domain_id, address, size })
    }

    /// The address to read from.
    pub fn read_address(&self) -> (a: usize)
        ensures
            a == self.start(),
    {
        self.address
    }

    /// The address to write to, when the domain may write there; else an
    /// isolation violation.
    pub fn write_address(&self, slot: &Option<ThreadIsolation>) -> (r: Result<usize, SecurityViolation>)
        ensures
            slot_memory(*slot, self.domain(), self.start(), self.len(), true) ==> r == Ok::<usize, SecurityViolation>(
                self.start(),
            ),
            !slot_memory(*slot, self.domain(), self.start(), self.len(), true) ==> r == Err::<usize, SecurityViolation>(
                SecurityViolation::IsolationViolation,
            ),
    {
        if !check_memory_access(slot, self.domain_id, self.address, self.size, true) {
            return Err(SecurityViolation::IsolationViolation);
        }
        Ok(self.address)
    }
}

/// A permitted communication channel between two domains.
pub struct CrossDomainChannel {
    sender_domain: ThreadId,
    receiver_domain: ThreadId,
    allowed: bool,
}

impl CrossDomainChannel {
    /// The sending domain.
    pub closed spec fn sender(&self) -> ThreadId {
        self.sender_domain
    }

    /// The receiving domain.
    pub closed spec fn receiver(&self) -> ThreadId {
        self.receiver_domain
    }

    /// Whether sending is allowed.
    pub closed spec fn is_allowed(&self) -> bool {
        self.allowed
    }

    /// A channel from `sender` to `receiver`, when the sender may
    /// communicate with the receiver; refused otherwise.
    pub fn new(slot: &mut Option<ThreadIsolation>, sender: ThreadId, receiver: ThreadId) -> (r: Result<Self, ThreadError>)
        ensures
            slot_allows(*old(slot), sender, receiver, AccessType::Ipc) ==> (r matches Ok(c) && c.sender() == sender
                && c.receiver() == receiver && c.is_allowed()),
            !slot_allows(*old(slot), sender, receiver, AccessType::Ipc) ==> r == Err::<CrossDomainChannel, ThreadError>(
                ThreadError::PermissionDenied,
            ),
            *old(slot) is None ==> *final(slot) is None,
            *old(slot) is Some ==> *final(slot) is Some && (*final(slot))->0.after_check(
                &(*old(slot))->0,
                sender,
                receiver,
                AccessType::Ipc,
            ),
    {
        let allowed = check_cross_domain_access(slot, sender, receiver, AccessType::Ipc);
        if !allowed {
            return Err(ThreadError::PermissionDenied);
        }
        Ok(CrossDomainChannel { sender_domain: sender, receiver_domain: receiver, allowed })
    }

    /// Sends `message`; refused on a channel that is not allowed.
    pub fn send<T>(&self, message: T) -> (r: Result<(), ThreadError>)
        ensures
            self.is_allowed() ==> r is Ok,
            !self.is_allowed() ==> r == Err::<(), ThreadError>(ThreadError::PermissionDenied),
    {
        if !self.allowed {
            return Err(ThreadError::PermissionDenied);
        }
        Ok(())
    }
}

/// Stricter levels allow less: whatever a high level allows a medium level
/// allows, whatever a medium level allows a low level allows, and the
/// critical level allows no access across domains.
pub proof fn law_levels_are_nested(access: AccessType)
    ensures
        level_allows(SecurityLevel::High, access) ==> level_allows(SecurityLevel::Medium, access),
        level_allows(SecurityLevel::Medium, access) ==> level_allows(SecurityLevel::Low, access),
        !level_allows(SecurityLevel::Critical, access),
{
}

/// With isolation active, a thread may always access itself; a thread in a
/// domain of critical level may access no other thread; and once a thread's
/// domain is removed, its accesses are no longer restricted.
pub proof fn law_isolation_decisions(iso: ThreadIsolation, accessor: ThreadId, target: ThreadId, access: AccessType)
    ensures
        slot_allows(Some(iso), accessor, accessor, access),
        accessor != target && iso.domains_spec().contains_key(accessor)
            && iso.domains_spec()[accessor].config.security_level == SecurityLevel::Critical ==> !slot_allows(
            Some(iso),
            accessor,
            target,
            access,
        ),
        !iso.domains_spec().contains_key(accessor) ==> slot_allows(Some(iso), accessor, target, access),
{
}

} // verus!
