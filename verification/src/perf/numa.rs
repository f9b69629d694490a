use vstd::prelude::*;
use crate::perf::{CpuId, PerfConfig, PerfCounters};
use crate::perf::fast_paths::{wrap_inc_usize, wrap_dec_usize};
use crate::observability::metrics::wrap_add;

verus! {

/// Index of a NUMA node.
pub type NumaNodeId = u16;

/// The NUMA layout: the node of each CPU, the CPUs of each node, the
/// distance between nodes and the memory of each node.
#[derive(Debug, Clone)]
pub struct NumaTopology {
    pub node_count: usize,
    pub cpu_to_node: Vec<NumaNodeId>,
    pub node_to_cpus: Vec<Vec<CpuId>>,
    pub distance_matrix: Vec<Vec<u32>>,
    pub node_memory_capacity: Vec<u64>,
}

/// The node of `cpu` in `t`; 0 for a CPU it does not list.
pub open spec fn node_of(t: NumaTopology, cpu: CpuId) -> NumaNodeId {
    if (cpu as int) < t.cpu_to_node@.len() {
        t.cpu_to_node@[cpu as int]
    } else {
        0
    }
}

/// The distance from node `a` to node `b` in `t`; `u32::MAX` when the
/// matrix has no such entry.
pub open spec fn distance(t: NumaTopology, a: NumaNodeId, b: NumaNodeId) -> u32 {
    if (a as int) < t.distance_matrix@.len() && (b as int) < t.distance_matrix@[a as int]@.len() {
        t.distance_matrix@[a as int]@[b as int]
    } else {
        u32::MAX
    }
}

/// Whether node index `k` may be chosen as a neighbour of `from`: it is
/// another node and is not excluded.
pub open spec fn eligible(from: NumaNodeId, exclude: Seq<NumaNodeId>, k: int) -> bool {
    (k as u16) != from && !exclude.contains(k as u16)
}

/// Whether node `n` of `t` may be picked as the nearest neighbour of
/// `from`: it is one of the nodes, another node than `from`, not excluded,
/// and at a known distance.
pub open spec fn closest_candidate(t: NumaTopology, from: NumaNodeId, exclude: Seq<NumaNodeId>, n: NumaNodeId) -> bool {
    &&& (n as int) < t.node_count
    &&& n != from
    &&& !exclude.contains(n)
    &&& distance(t, from, n) < u32::MAX
}

fn slice_contains(s: &[NumaNodeId], x: NumaNodeId) -> (r: bool)
    ensures
        r == s@.contains(x),
{
    let mut i: usize = 0;
    while i < s.len()
        invariant
            i <= s.len(),
            forall|j: int| 0 <= j < i ==> s@[j] != x,
        decreases s.len() - i,
    {
        if s[i] == x {
            return true;
        }
        i = i + 1;
    }
    false
}

impl NumaTopology {
    /// One node holding CPUs `0 .. cpu_count` (the count taken as a CPU
    /// index), at distance 10 from itself, with unlimited memory.
    pub fn single_node(cpu_count: usize) -> (t: Self)
        ensures
            t.node_count == 1,
            t.cpu_to_node@ == Seq::new(cpu_count as nat, |i: int| 0u16),
            t.node_to_cpus@.len() == 1,
            t.node_to_cpus@[0]@ == Seq::new((cpu_count as u32) as nat, |i: int| i as u32),
            t.distance_matrix@.len() == 1,
            t.distance_matrix@[0]@ == seq![10u32],
            t.node_memory_capacity@ == seq![u64::MAX],
    {
        let mut cpu_to_node: Vec<NumaNodeId> = Vec::new();
        let mut i: usize = 0;
        while i < cpu_count
            invariant
                i <= cpu_count,
                cpu_to_node@ == Seq::new(i as nat, |k: int| 0u16),
            decreases cpu_count - i,
        {
            cpu_to_node.push(0);
            i = i + 1;
        }
        let limit: u32 = cpu_count as u32;
        let mut cpus: Vec<CpuId> = Vec::new();
        let mut c: u32 = 0;
        while c < limit
            invariant
                c <= limit,
                cpus@ == Seq::new(c as nat, |k: int| k as u32),
            decreases limit - c,
        {
            cpus.push(c);
            c = c + 1;
        }
        let mut node_to_cpus: Vec<Vec<CpuId>> = Vec::new();
        node_to_cpus.push(cpus);
        let mut row: Vec<u32> = Vec::new();
        row.push(10);
        let mut distance_matrix: Vec<Vec<u32>> = Vec::new();
        distance_matrix.push(row);
        let mut node_memory_capacity: Vec<u64> = Vec::new();
        node_memory_capacity.push(u64::MAX);
        NumaTopology { node_count: 1, cpu_to_node, node_to_cpus, distance_matrix, node_memory_capacity }
    }

    /// The layout assumed when the system gives none: one node of 4 CPUs.
    pub fn detect() -> (t: Self)
        ensures
            t.node_count == 1,
            t.cpu_to_node@ == Seq::new(4, |i: int| 0u16),
            t.node_to_cpus@.len() == 1,
            t.node_to_cpus@[0]@ == Seq::new(4, |i: int| i as u32),
            t.distance_matrix@.len() == 1,
            t.distance_matrix@[0]@ == seq![10u32],
            t.node_memory_capacity@ == seq![u64::MAX],
    {
        NumaTopology::single_node(4)
    }

    /// The node of CPU `cpu_id`, 0 for a CPU not listed.
    pub fn get_cpu_node(&self, cpu_id: CpuId) -> (n: NumaNodeId)
        ensures
            n == node_of(*self, cpu_id),
    {
        let k = cpu_id as usize;
        if k < self.cpu_to_node.len() {
            self.cpu_to_node[k]
        } else {
            0
        }
    }

    /// The CPUs of node `node_id`, none for a node not listed.
    pub fn get_node_cpus(&self, node_id: NumaNodeId) -> (cpus: &[CpuId])
        ensures
            (node_id as int) < self.node_to_cpus@.len() ==> cpus@ == self.node_to_cpus@[node_id as int]@,
            (node_id as int) >= self.node_to_cpus@.len() ==> cpus@ == Seq::<CpuId>::empty(),
    {
        let k = node_id as usize;
        if k < self.node_to_cpus.len() {
            self.node_to_cpus[k].as_slice()
        } else {
            &[]
        }
    }

    /// The distance from `node1` to `node2`, `u32::MAX` when unknown.
    pub fn get_distance(&self, node1: NumaNodeId, node2: NumaNodeId) -> (d: u32)
        ensures
            d == distance(*self, node1, node2),
    {
        let a = node1 as usize;
        let b = node2 as usize;
        if a < self.distance_matrix.len() && b < self.distance_matrix[a].len() {
            self.distance_matrix[a][b]
        } else {
            u32::MAX
        }
    }

    /// The nearest other node to `from_node` outside `exclude`, among the
    /// node indices `0 .. node_count` (taken as node ids); on a tie the
    /// lowest index wins, and nodes at an unknown distance never do.
    pub fn find_closest_node(&self, from_node: NumaNodeId, exclude: &[NumaNodeId]) -> (r: Option<NumaNodeId>)
        ensures
            r is None ==> forall|k: int|
                0 <= k < self.node_count && #[trigger] eligible(from_node, exclude@, k) ==> distance(
                    *self,
                    from_node,
                    k as u16,
                ) == u32::MAX,
            r is Some ==> exists|k: int|
                {
                    &&& 0 <= k < self.node_count
                    &&& r == Some(k as u16)
                    &&& eligible(from_node, exclude@, k)
                    &&& distance(*self, from_node, k as u16) < u32::MAX
                    &&& forall|j: int|
                        0 <= j < self.node_count && #[trigger] eligible(from_node, exclude@, j) ==> distance(
                            *self,
                            from_node,
                            j as u16,
                        ) >= distance(*self, from_node, k as u16)
                    &&& forall|j: int|
                        0 <= j < k && #[trigger] eligible(from_node, exclude@, j) ==> distance(
                            *self,
                            from_node,
                            j as u16,
                        ) > distance(*self, from_node, k as u16)
                },
            self.node_count <= 0x10000 ==> (r is None <==> forall|n: NumaNodeId|
                !#[trigger] closest_candidate(*self, from_node, exclude@, n)),
            self.node_count <= 0x10000 && r is Some ==> {
                let n = r->0;
                &&& closest_candidate(*self, from_node, exclude@, n)
                &&& forall|m: NumaNodeId|
                    #[trigger] closest_candidate(*self, from_node, exclude@, m) ==> distance(*self, from_node, n)
                        < distance(*self, from_node, m) || (distance(*self, from_node, n) == distance(
                        *self,
                        from_node,
                        m,
                    ) && n <= m)
            },
    {
        let mut best: Option<NumaNodeId> = None;
        let mut best_distance: u32 = u32::MAX;
        let ghost mut best_k: int = 0;
        let mut k: usize = 0;
        while k < self.node_count
            invariant
                k <= self.node_count,
                best is None ==> best_distance == u32::MAX,
                best is Some ==> {
                    &&& 0 <= best_k < k
                    &&& best == Some(best_k as u16)
                    &&& eligible(from_node, exclude@, best_k)
                    &&& best_distance == distance(*self, from_node, best_k as u16)
                    &&& best_distance < u32::MAX
                    &&& forall|j: int|
                        0 <= j < best_k && #[trigger] eligible(from_node, exclude@, j) ==> distance(
                            *self,
                            from_node,
                            j as u16,
                        ) > best_distance
                },
                forall|j: int|
                    0 <= j < k && #[trigger] eligible(from_node, exclude@, j) ==> distance(
                        *self,
                        from_node,
                        j as u16,
                    ) >= best_distance,
            decreases self.node_count - k,
        {
            let node_id = k as NumaNodeId;
            if node_id != from_node && !slice_contains(exclude, node_id) {
                let d = self.get_distance(from_node, node_id);
                if d < best_distance {
                    best_distance = d;
                    best = Some(node_id);
                    proof {
                        best_k = k as int;
                    }
                }
            }
            k = k + 1;
        }
        proof {
            if self.node_count <= 0x10000 {
                assert forall|m: NumaNodeId| #[trigger] closest_candidate(*self, from_node, exclude@, m) implies best is Some
                    && distance(*self, from_node, best->0) <= distance(*self, from_node, m) && (distance(
                    *self,
                    from_node,
                    best->0,
                ) == distance(*self, from_node, m) ==> best->0 <= m) by {
                    let j = m as int;
                    assert((j as u16) == m);
                    assert(eligible(from_node, exclude@, j));
                    if best is Some {
                        assert((best_k as u16) as int == best_k);
                    }
                }
                if best is Some {
                    assert((best_k as u16) as int == best_k);
                    assert(eligible(from_node, exclude@, best_k));
                    assert(closest_candidate(*self, from_node, exclude@, best->0));
                }
            }
        }
        best
    }
}

/// Where threads are placed among NUMA nodes.
#[derive(Debug, Clone, Copy, PartialEq, Eq, Structural)]
pub enum NumaPlacementPolicy {
    Local,
    Spread,
    Interleave,
    FollowMemory,
    Preferred(NumaNodeId),
}

/// Scheduler counters of one node.
#[derive(Debug, Clone, Copy)]
pub struct NumaNodePerfStats {
    pub scheduler_runs: u64,
    pub work_steals: u64,
    pub load_imbalances: u64,
    pub memory_pressure_events: u64,
}

/// Counters of one node; they wrap around.
#[derive(Debug, Clone, Copy)]
pub struct NumaNodeState {
    pub node_id: NumaNodeId,
    pub active_threads: usize,
    pub affine_threads: usize,
    pub local_allocations: u64,
    pub remote_allocations: u64,
    pub migrations_in: u64,
    pub migrations_out: u64,
    pub perf_stats: NumaNodePerfStats,
}

impl NumaNodeState {
    /// Node `node_id` with all counters zero.
    pub open spec fn new_spec(node_id: NumaNodeId) -> NumaNodeState {
        NumaNodeState {
            node_id,
            active_threads: 0,
            affine_threads: 0,
            local_allocations: 0,
            remote_allocations: 0,
            migrations_in: 0,
            migrations_out: 0,
            perf_stats: NumaNodePerfStats {
                scheduler_runs: 0,
                work_steals: 0,
                load_imbalances: 0,
                memory_pressure_events: 0,
            },
        }
    }

    /// Node `node_id` with all counters zero.
    pub fn new(node_id: NumaNodeId) -> (s: Self)
        ensures
            s == Self::new_spec(node_id),
            s == (NumaNodeState {
                node_id,
                active_threads: 0,
                affine_threads: 0,
                local_allocations: 0,
                remote_allocations: 0,
                migrations_in: 0,
                migrations_out: 0,
                perf_stats: NumaNodePerfStats {
                    scheduler_runs: 0,
                    work_steals: 0,
                    load_imbalances: 0,
                    memory_pressure_events: 0,
                },
            }),
    {
        NumaNodeState {
            node_id,
            active_threads: 0,
            affine_threads: 0,
            local_allocations: 0,
            remote_allocations: 0,
            migrations_in: 0,
            migrations_out: 0,
            perf_stats: NumaNodePerfStats {
                scheduler_runs: 0,
                work_steals: 0,
                load_imbalances: 0,
                memory_pressure_events: 0,
            },
        }
    }

    /// A thread moved onto this node.
    pub fn record_migration_in(&mut self)
        ensures
            *final(self) == (NumaNodeState {
                migrations_in: wrap_add(old(self).migrations_in, 1),
                active_threads: wrap_inc_usize(old(self).active_threads),
                ..*old(self)
            }),
    {
        self.migrations_in = self.migrations_in.wrapping_add(1);
        self.active_threads = self.active_threads.wrapping_add(1);
    }

    /// A thread moved off this node.
    pub fn record_migration_out(&mut self)
        ensures
            *final(self) == (NumaNodeState {
                migrations_out: wrap_add(old(self).migrations_out, 1),
                active_threads: wrap_dec_usize(old(self).active_threads),
                ..*old(self)
            }),
    {
        self.migrations_out = self.migrations_out.wrapping_add(1);
        self.active_threads = self.active_threads.wrapping_sub(1);
    }

    /// `size` bytes were allocated on this node for a thread of this node.
    pub fn record_local_allocation(&mut self, size: usize, counters: &mut PerfCounters)
        ensures
            *final(self) == (NumaNodeState {
                local_allocations: wrap_add(old(self).local_allocations, size as u64),
                ..*old(self)
            }),
            *final(counters) == (PerfCounters {
                numa_local_allocations: wrap_add(old(counters).numa_local_allocations, 1),
                ..*old(counters)
            }),
    {
        self.local_allocations = self.local_allocations.wrapping_add(size as u64);
        counters.record_numa_local();
    }

    /// `size` bytes were allocated on this node for a thread of another.
    pub fn record_remote_allocation(&mut self, size: usize, counters: &mut PerfCounters)
        ensures
            *final(self) == (NumaNodeState {
                remote_allocations: wrap_add(old(self).remote_allocations, size as u64),
                ..*old(self)
            }),
            *final(counters) == (PerfCounters {
                numa_remote_allocations: wrap_add(old(counters).numa_remote_allocations, 1),
                ..*old(counters)
            }),
    {
        self.remote_allocations = self.remote_allocations.wrapping_add(size as u64);
        counters.record_numa_remote();
    }
}

/// Twice the load of a node: active threads count one each, threads with
/// affinity to it one half each.
pub open spec fn load2(s: NumaNodeState) -> int {
    2 * s.active_threads + s.affine_threads
}

impl NumaNodeState {
    /// Twice the node's load (active threads count one, threads with
    /// affinity one half), so that it is a whole number.
    pub fn get_load_doubled(&self) -> (r: u128)
        ensures
            r == load2(*self),
    {
        2 * (self.active_threads as u128) + (self.affine_threads as u128)
    }
}

/// The index of the first least loaded node among the first `n` states,
/// or -1 when `n` is 0.
pub open spec fn least_loaded(states: Seq<NumaNodeState>, n: int) -> int
    decreases n,
{
    if n <= 0 {
        -1
    } else {
        let b = least_loaded(states, n - 1);
        if b == -1 || load2(states[n - 1]) < load2(states[b]) {
            n - 1
        } else {
            b
        }
    }
}

/// The first most loaded node among the first `n` states with its doubled
/// load; (0, 0) when none has any load.
pub open spec fn max_scan(states: Seq<NumaNodeState>, n: int) -> (int, int)
    decreases n,
{
    if n <= 0 {
        (0, 0)
    } else {
        let (i, v) = max_scan(states, n - 1);
        if load2(states[n - 1]) > v {
            (n - 1, load2(states[n - 1]))
        } else {
            (i, v)
        }
    }
}

/// The first least loaded node among the first `n` states (`n` at least
/// one) with its doubled load.
pub open spec fn min_scan(states: Seq<NumaNodeState>, n: int) -> (int, int)
    decreases n,
{
    if n <= 1 {
        (0, load2(states[0]))
    } else {
        let (i, v) = min_scan(states, n - 1);
        if load2(states[n - 1]) < v {
            (n - 1, load2(states[n - 1]))
        } else {
            (i, v)
        }
    }
}

/// Largest distance a balancing migration may cross.
pub const MIGRATION_COST_THRESHOLD: u32 = 20;

/// A suggested move of a thread from one node to another; the benefit is
/// the difference of their doubled loads.
#[derive(Debug, Clone, Copy)]
pub struct ThreadMigrationSuggestion {
    pub from_node: NumaNodeId,
    pub to_node: NumaNodeId,
    pub migration_cost: u32,
    pub expected_benefit_doubled: u128,
    pub target_cpu: Option<CpuId>,
}

/// Counters of one node, with its doubled load.
#[derive(Debug, Clone, Copy)]
pub struct NumaNodeStats {
    pub node_id: NumaNodeId,
    pub active_threads: usize,
    pub affine_threads: usize,
    pub load_doubled: u128,
    pub migrations_in: u64,
    pub migrations_out: u64,
    pub local_allocations: u64,
    pub remote_allocations: u64,
}

/// System-wide NUMA figures: allocation totals (their ratio is the memory
/// locality), migrations, nodes running threads, and the largest and
/// smallest doubled node loads (their ratio is the load imbalance).
#[derive(Debug, Clone, Copy)]
pub struct NumaEfficiencyMetrics {
    pub local_allocations: u64,
    pub remote_allocations: u64,
    pub total_migrations: u64,
    pub active_nodes: usize,
    pub max_load_doubled: u128,
    pub min_load_doubled: Option<u128>,
}

/// The sum of the local allocations of the first `n` states.
pub open spec fn local_sum(states: Seq<NumaNodeState>, n: int) -> int
    decreases n,
{
    if n <= 0 {
        0
    } else {
        local_sum(states, n - 1) + states[n - 1].local_allocations
    }
}

/// The sum of the remote allocations of the first `n` states.
pub open spec fn remote_sum(states: Seq<NumaNodeState>, n: int) -> int
    decreases n,
{
    if n <= 0 {
        0
    } else {
        remote_sum(states, n - 1) + states[n - 1].remote_allocations
    }
}

/// The sum of the migrations in and out of the first `n` states.
pub open spec fn migration_sum(states: Seq<NumaNodeState>, n: int) -> int
    decreases n,
{
    if n <= 0 {
        0
    } else {
        migration_sum(states, n - 1) + states[n - 1].migrations_in + states[n - 1].migrations_out
    }
}

/// The number of the first `n` states with an active thread.
pub open spec fn active_count(states: Seq<NumaNodeState>, n: int) -> int
    decreases n,
{
    if n <= 0 {
        0
    } else {
        active_count(states, n - 1) + if states[n - 1].active_threads > 0 {
            1int
        } else {
            0int
        }
    }
}

proof fn lemma_sums_monotone(states: Seq<NumaNodeState>, i: int, n: int)
    requires
        0 <= i <= n <= states.len(),
    ensures
        local_sum(states, i) <= local_sum(states, n),
        remote_sum(states, i) <= remote_sum(states, n),
        migration_sum(states, i) <= migration_sum(states, n),
    decreases n - i,
{
    if i < n {
        lemma_sums_monotone(states, i, n - 1);
    }
}

proof fn lemma_active_bound(states: Seq<NumaNodeState>, i: int)
    requires
        0 <= i <= states.len(),
    ensures
        0 <= active_count(states, i) <= i,
    decreases i,
{
    if i > 0 {
        lemma_active_bound(states, i - 1);
    }
}

/// Places threads on NUMA nodes and suggests migrations to balance their
/// load.
pub struct NumaAwareScheduler {
    topology: NumaTopology,
    node_states: Vec<NumaNodeState>,
    placement_policy: NumaPlacementPolicy,
    migration_cost_threshold: u32,
    config: PerfConfig,
}

impl NumaAwareScheduler {
    /// The layout.
    pub closed spec fn topology_spec(&self) -> NumaTopology {
        self.topology
    }

    /// The state of each node.
    pub closed spec fn states(&self) -> Seq<NumaNodeState> {
        self.node_states@
    }

    /// The placement policy.
    pub closed spec fn policy(&self) -> NumaPlacementPolicy {
        self.placement_policy
    }

    /// One state per node of the layout.
    pub closed spec fn wf(&self) -> bool {
        &&& self.node_states@.len() == self.topology.node_count
        &&& self.migration_cost_threshold == MIGRATION_COST_THRESHOLD
    }

    /// A scheduler for `topology` with idle nodes (numbered by their index)
    /// and local placement.
    pub fn new(config: PerfConfig, topology: NumaTopology) -> (s: Self)
        ensures
            s.wf(),
            s.topology_spec() == topology,
            s.policy() == NumaPlacementPolicy::Local,
            forall|i: int| 0 <= i < s.states().len() ==> #[trigger] s.states()[i] == NumaNodeState::new_spec(i as u16),
    {
        let mut node_states: Vec<NumaNodeState> = Vec::new();
        let mut k: usize = 0;
        while k < topology.node_count
            invariant
                k <= topology.node_count,
                node_states@.len() == k,
                forall|i: int| 0 <= i < k ==> #[trigger] node_states@[i] == NumaNodeState::new_spec(i as u16),
            decreases topology.node_count - k,
        {
            node_states.push(NumaNodeState::new(k as NumaNodeId));
            k = k + 1;
        }
        NumaAwareScheduler {
            topology,
            node_states,
            placement_policy: NumaPlacementPolicy::Local,
            migration_cost_threshold: MIGRATION_COST_THRESHOLD,
            config,
        }
    }

    /// The node a thread with id `thread_id`, now on CPU `current_cpu`,
    /// should run on: its CPU's node under the local and follow-memory
    /// policies, the least loaded node when spreading (its CPU's node if
    /// there is none), its id modulo the node count when interleaving, and
    /// the preferred node when it exists.
    pub fn find_optimal_placement(&self, thread_id: u64, current_cpu: CpuId) -> (n: NumaNodeId)
        requires
            self.wf(),
            self.policy() == NumaPlacementPolicy::Interleave ==> self.topology_spec().node_count > 0,
        ensures
            self.policy() is Local ==> n == node_of(self.topology_spec(), current_cpu),
            self.policy() is FollowMemory ==> n == node_of(self.topology_spec(), current_cpu),
            self.policy() is Spread ==> n == if least_loaded(self.states(), self.states().len() as int) >= 0 {
                least_loaded(self.states(), self.states().len() as int) as u16
            } else {
                node_of(self.topology_spec(), current_cpu)
            },
            self.policy() is Interleave ==> n == (thread_id % (self.topology_spec().node_count as u64)) as u16,
            self.policy() matches NumaPlacementPolicy::Preferred(p) ==> n == if (p as int) < (
            self.topology_spec().node_count as u16) as int {
                p
            } else {
                node_of(self.topology_spec(), current_cpu)
            },
    {
        let current_node = self.topology.get_cpu_node(current_cpu);
        match self.placement_policy {
            NumaPlacementPolicy::Local => current_node,
            NumaPlacementPolicy::FollowMemory => current_node,
            NumaPlacementPolicy::Spread => match self.find_least_loaded_node() {
                Some(n) => n,
                None => current_node,
            },
            NumaPlacementPolicy::Interleave => {
                let count = self.topology.node_count as u64;
                (thread_id % count) as NumaNodeId
            },
            NumaPlacementPolicy::Preferred(node_id) => {
                if node_id < self.topology.node_count as NumaNodeId {
                    node_id
                } else {
                    current_node
                }
            },
        }
    }

    /// The first node of least load, `None` without nodes.
    fn find_least_loaded_node(&self) -> (r: Option<NumaNodeId>)
        ensures
            -1 <= least_loaded(self.states(), self.states().len() as int) < self.states().len(),
            least_loaded(self.states(), self.states().len() as int) == -1 ==> r is None,
            least_loaded(self.states(), self.states().len() as int) >= 0 ==> r == Some(
                least_loaded(self.states(), self.states().len() as int) as u16,
            ),
    {
        let mut best: Option<usize> = None;
        let mut best_load: u128 = 0;
        let mut k: usize = 0;
        while k < self.node_states.len()
            invariant
                k <= self.node_states@.len(),
                least_loaded(self.node_states@, k as int) == -1 ==> best is None,
                least_loaded(self.node_states@, k as int) >= 0 ==> best == Some(least_loaded(self.node_states@, k as int) as usize)
                    && best_load == load2(self.node_states@[least_loaded(self.node_states@, k as int)]),
                -1 <= least_loaded(self.node_states@, k as int) < k,
            decreases self.node_states@.len() - k,
        {
            let load = self.node_states[k].get_load_doubled();
            match best {
                None => {
                    best = Some(k);
                    best_load = load;
                },
                Some(_) => {
                    if load < best_load {
                        best = Some(k);
                        best_load = load;
                    }
                },
            }
            k = k + 1;
        }
        match best {
            Some(b) => Some(b as NumaNodeId),
            None => None,
        }
    }

    /// A pair of nodes (most loaded, least loaded) to balance: with two
    /// nodes or more, when the least load is above zero, the most load
    /// exceeds it by more than half and the two are at most
    /// `MIGRATION_COST_THRESHOLD` apart.
    pub fn should_balance_load(&self) -> (r: Option<(NumaNodeId, NumaNodeId)>)
        requires
            self.wf(),
        ensures
            ({
                let states = self.states();
                let n = states.len() as int;
                let (maxi, maxv) = max_scan(states, n);
                let (mini, minv) = min_scan(states, n);
                r == if n < 2 {
                    None
                } else if minv > 0 && 2 * maxv > 3 * minv && distance(
                    self.topology_spec(),
                    maxi as u16,
                    mini as u16,
                ) <= MIGRATION_COST_THRESHOLD {
                    Some((maxi as u16, mini as u16))
                } else {
                    None
                }
            }),
    {
        if self.topology.node_count < 2 {
            return None;
        }
        let mut max_load: u128 = 0;
        let mut max_node: usize = 0;
        let mut min_load: u128 = self.node_states[0].get_load_doubled();
        let mut min_node: usize = 0;
        let mut k: usize = 1;
        let ghost states = self.node_states@;
        proof {
            let l0 = load2(states[0]);
            assert(max_scan(states, 0) == (0int, 0int));
            assert(max_scan(states, 1) == (if l0 > 0 { (0int, l0) } else { (0int, 0int) }));
        }
        if min_load > 0 {
            max_load = min_load;
        }
        while k < self.node_states.len()
            invariant
                1 <= k <= self.node_states@.len(),
                states == self.node_states@,
                (max_node as int, max_load as int) == max_scan(states, k as int),
                (min_node as int, min_load as int) == min_scan(states, k as int),
                max_node < k,
                min_node < k,
                max_load <= 3 * usize::MAX,
                min_load <= 3 * usize::MAX,
            decreases self.node_states@.len() - k,
        {
            let load = self.node_states[k].get_load_doubled();
            if load > max_load {
                max_load = load;
                max_node = k;
            }
            if load < min_load {
                min_load = load;
                min_node = k;
            }
            k = k + 1;
        }
        if min_load > 0 && 2 * max_load > 3 * min_load {
            let d = self.topology.get_distance(max_node as NumaNodeId, min_node as NumaNodeId);
            if d <= self.migration_cost_threshold {
                return Some((max_node as NumaNodeId, min_node as NumaNodeId));
            }
        }
        None
    }

    /// A move from `from_node` to `to_node`, when they are at most
    /// `MIGRATION_COST_THRESHOLD` apart, both exist and the first is more
    /// loaded; its target is the first CPU of `to_node`, if any.
    pub fn suggest_migration(&self, from_node: NumaNodeId, to_node: NumaNodeId) -> (r: Option<ThreadMigrationSuggestion>)
        requires
            self.wf(),
        ensures
            ({
                let d = distance(self.topology_spec(), from_node, to_node);
                let states = self.states();
                let ok = d <= MIGRATION_COST_THRESHOLD && (from_node as int) < states.len() && (to_node as int)
                    < states.len() && load2(states[from_node as int]) > load2(states[to_node as int]);
                &&& !ok ==> r is None
                &&& ok ==> (r matches Some(m) && {
                    &&& m.from_node == from_node
                    &&& m.to_node == to_node
                    &&& m.migration_cost == d
                    &&& m.expected_benefit_doubled == load2(states[from_node as int]) - load2(states[to_node as int])
                    &&& m.target_cpu == if (to_node as int) < self.topology_spec().node_to_cpus@.len()
                        && self.topology_spec().node_to_cpus@[to_node as int]@.len() > 0 {
                        Some(self.topology_spec().node_to_cpus@[to_node as int]@[0])
                    } else {
                        None::<CpuId>
                    }
                })
            }),
    {
        let distance = self.topology.get_distance(from_node, to_node);
        if distance > self.migration_cost_threshold {
            return None;
        }
        if from_node as usize >= self.node_states.len() || to_node as usize >= self.node_states.len() {
            return None;
        }
        let from_load = self.node_states[from_node as usize].get_load_doubled();
        let to_load = self.node_states[to_node as usize].get_load_doubled();
        if from_load <= to_load {
            return None;
        }
        Some(
            ThreadMigrationSuggestion {
                from_node,
                to_node,
                migration_cost: distance,
                expected_benefit_doubled: from_load - to_load,
                target_cpu: self.find_best_cpu_in_node(to_node),
            },
        )
    }

    /// The first CPU of node `node_id`, if it has any.
    fn find_best_cpu_in_node(&self, node_id: NumaNodeId) -> (r: Option<CpuId>)
        ensures
            r == if (node_id as int) < self.topology_spec().node_to_cpus@.len()
                && self.topology_spec().node_to_cpus@[node_id as int]@.len() > 0 {
                Some(self.topology_spec().node_to_cpus@[node_id as int]@[0])
            } else {
                None::<CpuId>
            },
    {
        let cpus = self.topology.get_node_cpus(node_id);
        if cpus.len() == 0 {
            return None;
        }
        Some(cpus[0])
    }

    /// Sets the placement policy.
    pub fn set_placement_policy(&mut self, policy: NumaPlacementPolicy)
        ensures
            final(self).policy() == policy,
            final(self).topology_spec() == old(self).topology_spec(),
            final(self).states() == old(self).states(),
            final(self).wf() == old(self).wf(),
    {
        self.placement_policy = policy;
    }

    /// The counters of every node, numbered by index.
    pub fn get_numa_stats(&self) -> (r: Vec<NumaNodeStats>)
        ensures
            r@.len() == self.states().len(),
            forall|i: int|
                0 <= i < r@.len() ==> {
                    let s = #[trigger] self.states()[i];
                    r@[i] == NumaNodeStats {
                        node_id: i as u16,
                        active_threads: s.active_threads,
                        affine_threads: s.affine_threads,
                        load_doubled: load2(s) as u128,
                        migrations_in: s.migrations_in,
                        migrations_out: s.migrations_out,
                        local_allocations: s.local_allocations,
                        remote_allocations: s.remote_allocations,
                    }
                },
    {
        let mut r: Vec<NumaNodeStats> = Vec::new();
        let mut k: usize = 0;
        while k < self.node_states.len()
            invariant
                k <= self.node_states@.len(),
                r@.len() == k,
                forall|i: int|
                    0 <= i < k ==> {
                        let s = #[trigger] self.node_states@[i];
                        r@[i] == NumaNodeStats {
                            node_id: i as u16,
                            active_threads: s.active_threads,
                            affine_threads: s.affine_threads,
                            load_doubled: load2(s) as u128,
                            migrations_in: s.migrations_in,
                            migrations_out: s.migrations_out,
                            local_allocations: s.local_allocations,
                            remote_allocations: s.remote_allocations,
                        }
                    },
            decreases self.node_states@.len() - k,
        {
            let s = self.node_states[k];
            r.push(
                NumaNodeStats {
                    node_id: k as NumaNodeId,
                    active_threads: s.active_threads,
                    affine_threads: s.affine_threads,
                    load_doubled: s.get_load_doubled(),
                    migrations_in: s.migrations_in,
                    migrations_out: s.migrations_out,
                    local_allocations: s.local_allocations,
                    remote_allocations: s.remote_allocations,
                },
            );
            k = k + 1;
        }
        r
    }

    /// The system-wide figures. The totals must fit in 64 bits.
    pub fn get_numa_efficiency(&self) -> (m: NumaEfficiencyMetrics)
        requires
            local_sum(self.states(), self.states().len() as int) <= u64::MAX,
            remote_sum(self.states(), self.states().len() as int) <= u64::MAX,
            migration_sum(self.states(), self.states().len() as int) <= u64::MAX,
        ensures
            ({
                let states = self.states();
                let n = states.len() as int;
                &&& m.local_allocations == local_sum(states, n)
                &&& m.remote_allocations == remote_sum(states, n)
                &&& m.total_migrations == migration_sum(states, n)
                &&& m.active_nodes == active_count(states, n)
                &&& m.max_load_doubled == max_scan(states, n).1
                &&& n == 0 ==> m.min_load_doubled is None
                &&& n > 0 ==> m.min_load_doubled == Some(min_scan(states, n).1 as u128)
            }),
    {
        let ghost states = self.node_states@;
        let n = self.node_states.len();
        let mut local: u64 = 0;
        let mut remote: u64 = 0;
        let mut migrations: u64 = 0;
        let mut active: usize = 0;
        let mut max_load: u128 = 0;
        let mut min_load: Option<u128> = None;
        let mut k: usize = 0;
        proof {
            lemma_sums_monotone(states, 0, n as int);
        }
        while k < n
            invariant
                k <= n,
                n == states.len(),
                states == self.node_states@,
                local_sum(states, n as int) <= u64::MAX,
                remote_sum(states, n as int) <= u64::MAX,
                migration_sum(states, n as int) <= u64::MAX,
                local == local_sum(states, k as int),
                remote == remote_sum(states, k as int),
                migrations == migration_sum(states, k as int),
                active == active_count(states, k as int),
                max_load == max_scan(states, k as int).1,
                k == 0 ==> min_load is None,
                k > 0 ==> min_load == Some(min_scan(states, k as int).1 as u128),
                k > 0 ==> 0 <= min_scan(states, k as int).1 <= 3 * usize::MAX,
            decreases n - k,
        {
            proof {
                lemma_sums_monotone(states, k + 1, n as int);
                lemma_active_bound(states, k as int);
            }
            let s = self.node_states[k];
            local = local + s.local_allocations;
            remote = remote + s.remote_allocations;
            migrations = migrations + s.migrations_in + s.migrations_out;
            if s.active_threads > 0 {
                active = active + 1;
            }
            let load = s.get_load_doubled();
            if load > max_load {
                max_load = load;
            }
            min_load = match min_load {
                None => Some(load),
                Some(m) => if load < m {
                    Some(load)
                } else {
                    Some(m)
                },
            };
            k = k + 1;
        }
        NumaEfficiencyMetrics {
            local_allocations: local,
            remote_allocations: remote,
            total_migrations: migrations,
            active_nodes: active,
            max_load_doubled: max_load,
            min_load_doubled: min_load,
        }
    }
}

/// The layout to optimize for: the assumed one when `config` reports
/// several nodes, else one node with the configured CPUs.
pub fn init_numa_optimization(config: &PerfConfig) -> (t: NumaTopology)
    ensures
        t.node_count == 1,
        config.numa_nodes > 1 ==> t.cpu_to_node@.len() == 4,
        config.numa_nodes <= 1 ==> t.cpu_to_node@.len() == config.cpu_count,
{
    if config.numa_nodes > 1 {
        NumaTopology::detect()
    } else {
        NumaTopology::single_node(config.cpu_count)
    }
}

} // verus!
