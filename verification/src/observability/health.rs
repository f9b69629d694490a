use vstd::prelude::*;
use std::collections::BTreeMap;
use std::string::String;

verus! {

/// Overall health, from best to worst.
#[derive(Debug, Clone, Copy, PartialEq, Eq, Structural)]
pub enum HealthStatus {
    Healthy,
    Warning,
    Critical,
    Failed,
}

/// The score of a status: 100, 75, 25 and 0 from best to worst.
pub open spec fn status_score(s: HealthStatus) -> u8 {
    match s {
        HealthStatus::Healthy => 100,
        HealthStatus::Warning => 75,
        HealthStatus::Critical => 25,
        HealthStatus::Failed => 0,
    }
}

/// The worse of two statuses (the second one when they score the same).
pub open spec fn worse(a: HealthStatus, b: HealthStatus) -> HealthStatus {
    if status_score(a) < status_score(b) {
        a
    } else {
        b
    }
}

impl HealthStatus {
    /// The numeric score of this status.
    pub fn score(self) -> (r: u8)
        ensures
            r == status_score(self),
    {
        match self {
            HealthStatus::Healthy => 100,
            HealthStatus::Warning => 75,
            HealthStatus::Critical => 25,
            HealthStatus::Failed => 0,
        }
    }

    /// The worse of this status and `other`.
    pub fn combine(self, other: HealthStatus) -> (r: HealthStatus)
        ensures
            r == worse(self, other),
    {
        if self.score() < other.score() {
            self
        } else {
            other
        }
    }
}

/// How serious an issue is, from least to most.
#[derive(Debug, Clone, Copy, PartialEq, Eq, Structural, PartialOrd, Ord)]
pub enum IssueSeverity {
    Info,
    Warning,
    Critical,
    Fatal,
}

/// The area an issue belongs to.
#[derive(Debug, Clone, Copy, PartialEq, Eq, Structural)]
pub enum IssueCategory {
    Performance,
    Resource,
    Concurrency,
    Memory,
    Scheduler,
    Deadlock,
    Configuration,
    Hardware,
    Other,
}

/// Where health is heading.
#[derive(Debug, Clone, Copy, PartialEq, Eq, Structural)]
pub enum TrendDirection {
    Improving,
    Stable,
    Degrading,
    Unknown,
}

/// One recorded health check: its time (ns), score and issue count.
#[derive(Debug, Clone, Copy)]
pub struct HealthHistoryEntry {
    pub timestamp: u64,
    pub health_score: u8,
    pub active_issues: usize,
}

/// A problem found by a health check.
#[derive(Debug, Clone)]
pub struct HealthIssue {
    pub severity: IssueSeverity,
    pub category: IssueCategory,
    pub description: String,
    pub component: String,
    pub detected_at: u64,
    pub context: BTreeMap<String, String>,
    pub remediation: Option<String>,
}

/// The status that an issue of severity `sev` imposes.
pub open spec fn severity_status(sev: IssueSeverity) -> HealthStatus {
    match sev {
        IssueSeverity::Info => HealthStatus::Healthy,
        IssueSeverity::Warning => HealthStatus::Warning,
        IssueSeverity::Critical => HealthStatus::Critical,
        IssueSeverity::Fatal => HealthStatus::Failed,
    }
}

/// The worst of the statuses in `s`, starting from healthy.
pub open spec fn worst(s: Seq<HealthStatus>) -> HealthStatus
    decreases s.len(),
{
    if s.len() == 0 {
        HealthStatus::Healthy
    } else {
        worse(worst(s.drop_last()), s.last())
    }
}

/// The statuses imposed by the issues in `issues`.
pub open spec fn issue_statuses(issues: Seq<HealthIssue>) -> Seq<HealthStatus> {
    Seq::new(issues.len(), |i: int| severity_status(issues[i].severity))
}

/// The overall status: the worst of the components' statuses and of the
/// statuses the issues impose.
pub open spec fn overall(components: Seq<HealthStatus>, issues: Seq<HealthIssue>) -> HealthStatus {
    worst(components + issue_statuses(issues))
}

fn severity_to_status(sev: IssueSeverity) -> (r: HealthStatus)
    ensures
        r == severity_status(sev),
{
    match sev {
        IssueSeverity::Info => HealthStatus::Healthy,
        IssueSeverity::Warning => HealthStatus::Warning,
        IssueSeverity::Critical => HealthStatus::Critical,
        IssueSeverity::Fatal => HealthStatus::Failed,
    }
}

/// The overall status of a system whose components report
/// `component_statuses` and in which `issues` are open.
pub fn calculate_overall_status(component_statuses: &[HealthStatus], issues: &[HealthIssue]) -> (r: HealthStatus)
    ensures
        r == overall(component_statuses@, issues@),
{
    let ghost cs = component_statuses@;
    let ghost is = issue_statuses(issues@);
    let mut status = HealthStatus::Healthy;
    let mut i: usize = 0;
    while i < component_statuses.len()
        invariant
            i <= component_statuses.len(),
            cs == component_statuses@,
            status == worst(cs.subrange(0, i as int)),
        decreases component_statuses.len() - i,
    {
        assert(cs.subrange(0, i + 1).drop_last() == cs.subrange(0, i as int));
        status = status.combine(component_statuses[i]);
        i = i + 1;
    }
    assert(cs.subrange(0, cs.len() as int) == cs);
    let mut j: usize = 0;
    while j < issues.len()
        invariant
            j <= issues.len(),
            cs == component_statuses@,
            is == issue_statuses(issues@),
            status == worst(cs + is.subrange(0, j as int)),
        decreases issues.len() - j,
    {
        assert((cs + is.subrange(0, j + 1)).drop_last() == cs + is.subrange(0, j as int));
        let s = severity_to_status(issues[j].severity);
        status = status.combine(s);
        j = j + 1;
    }
    assert(is.subrange(0, is.len() as int) == is);
    status
}

/// Combining statuses keeps the worse one whatever the order and grouping,
/// and a healthy status changes nothing.
pub proof fn law_worse_is_order_free(a: HealthStatus, b: HealthStatus, c: HealthStatus)
    ensures
        worse(a, b) == worse(b, a),
        worse(worse(a, b), c) == worse(a, worse(b, c)),
        worse(HealthStatus::Healthy, a) == a,
        worse(a, HealthStatus::Healthy) == a,
        status_score(worse(a, b)) <= status_score(a),
        status_score(worse(a, b)) <= status_score(b),
{
}

proof fn lemma_worst_bound(s: Seq<HealthStatus>)
    ensures
        forall|k: int| 0 <= k < s.len() ==> status_score(worst(s)) <= status_score(#[trigger] s[k]),
        worst(s) == HealthStatus::Healthy || exists|k: int| 0 <= k < s.len() && #[trigger] s[k] == worst(s),
    decreases s.len(),
{
    if s.len() > 0 {
        let init = s.drop_last();
        lemma_worst_bound(init);
        assert forall|k: int| 0 <= k < s.len() implies status_score(worst(s)) <= status_score(#[trigger] s[k]) by {
            if k < s.len() - 1 {
                assert(s[k] == init[k]);
            }
        }
        if worst(s) != HealthStatus::Healthy {
            if worst(s) == s.last() {
                assert(s[s.len() - 1] == worst(s));
            } else {
                let k = choose|k: int| 0 <= k < init.len() && #[trigger] init[k] == worst(init);
                assert(s[k] == worst(s));
            }
        }
    }
}

/// The overall status is no better than any component's status nor than the
/// status any open issue imposes, and it is one of those statuses (healthy
/// when there are none).
pub proof fn law_overall_is_worst(components: Seq<HealthStatus>, issues: Seq<HealthIssue>)
    ensures
        forall|k: int|
            0 <= k < components.len() ==> status_score(overall(components, issues)) <= status_score(
                #[trigger] components[k],
            ),
        forall|k: int|
            0 <= k < issues.len() ==> status_score(overall(components, issues)) <= status_score(
                severity_status(#[trigger] issues[k].severity),
            ),
        overall(components, issues) == HealthStatus::Healthy || (exists|k: int|
            0 <= k < components.len() && #[trigger] components[k] == overall(components, issues)) || (
        exists|k: int|
            0 <= k < issues.len() && severity_status(#[trigger] issues[k].severity) == overall(
                components,
                issues,
            )),
{
    let all = components + issue_statuses(issues);
    lemma_worst_bound(all);
    assert forall|k: int| 0 <= k < components.len() implies status_score(overall(components, issues))
        <= status_score(#[trigger] components[k]) by {
        assert(all[k] == components[k]);
    }
    assert forall|k: int| 0 <= k < issues.len() implies status_score(overall(components, issues))
        <= status_score(severity_status(#[trigger] issues[k].severity)) by {
        assert(all[components.len() + k] == severity_status(issues[k].severity));
    }
    if overall(components, issues) != HealthStatus::Healthy {
        let k = choose|k: int| 0 <= k < all.len() && #[trigger] all[k] == worst(all);
        if k < components.len() {
            assert(components[k] == overall(components, issues));
        } else {
            let j = k - components.len();
            assert(severity_status(issues[j].severity) == overall(components, issues));
        }
    }
}

/// How issue severities weigh in the overall status: the system is healthy
/// exactly when every component is healthy and every open issue is only
/// informational; it has failed exactly when a component failed or a fatal
/// issue is open; and with healthy components, open issues that are all
/// warnings (or all critical) make it warning (or critical).
pub proof fn law_overall_by_severity(components: Seq<HealthStatus>, issues: Seq<HealthIssue>)
    ensures
        overall(components, issues) == HealthStatus::Healthy <==> (forall|k: int|
            0 <= k < components.len() ==> #[trigger] components[k] == HealthStatus::Healthy) && (forall|j: int|
            0 <= j < issues.len() ==> #[trigger] issues[j].severity == IssueSeverity::Info),
        overall(components, issues) == HealthStatus::Failed <==> (exists|k: int|
            0 <= k < components.len() && #[trigger] components[k] == HealthStatus::Failed) || (exists|j: int|
            0 <= j < issues.len() && #[trigger] issues[j].severity == IssueSeverity::Fatal),
        (forall|k: int| 0 <= k < components.len() ==> #[trigger] components[k] == HealthStatus::Healthy)
            && issues.len() > 0 && (forall|j: int|
            0 <= j < issues.len() ==> #[trigger] issues[j].severity == IssueSeverity::Warning) ==> overall(
            components,
            issues,
        ) == HealthStatus::Warning,
        (forall|k: int| 0 <= k < components.len() ==> #[trigger] components[k] == HealthStatus::Healthy)
            && issues.len() > 0 && (forall|j: int|
            0 <= j < issues.len() ==> #[trigger] issues[j].severity == IssueSeverity::Critical) ==> overall(
            components,
            issues,
        ) == HealthStatus::Critical,
{
    law_overall_is_worst(components, issues);
    let o = overall(components, issues);
    if o == HealthStatus::Healthy {
        assert forall|k: int| 0 <= k < components.len() implies #[trigger] components[k] == HealthStatus::Healthy by {
            assert(status_score(o) <= status_score(components[k]));
        }
        assert forall|j: int| 0 <= j < issues.len() implies #[trigger] issues[j].severity == IssueSeverity::Info by {
            assert(status_score(o) <= status_score(severity_status(issues[j].severity)));
        }
    }
    if o == HealthStatus::Failed {
        if !(exists|k: int| 0 <= k < components.len() && #[trigger] components[k] == HealthStatus::Failed) {
            let j = choose|j: int| 0 <= j < issues.len() && severity_status(#[trigger] issues[j].severity) == o;
            assert(issues[j].severity == IssueSeverity::Fatal);
        }
    }
    if exists|k: int| 0 <= k < components.len() && #[trigger] components[k] == HealthStatus::Failed {
        let k = choose|k: int| 0 <= k < components.len() && #[trigger] components[k] == HealthStatus::Failed;
        assert(status_score(o) <= status_score(components[k]));
    }
    if exists|j: int| 0 <= j < issues.len() && #[trigger] issues[j].severity == IssueSeverity::Fatal {
        let j = choose|j: int| 0 <= j < issues.len() && #[trigger] issues[j].severity == IssueSeverity::Fatal;
        assert(status_score(o) <= status_score(severity_status(issues[j].severity)));
    }
    if issues.len() > 0 {
        assert(status_score(o) <= status_score(severity_status(issues[0].severity)));
    }
}

/// `s` cut down to its last `max` entries.
pub open spec fn last_entries(s: Seq<HealthHistoryEntry>, max: nat) -> Seq<HealthHistoryEntry> {
    if s.len() > max {
        s.subrange(s.len() - max, s.len() as int)
    } else {
        s
    }
}

/// Appends `entry` to `history` and keeps only the last `max_entries`.
pub fn record_history(history: &mut Vec<HealthHistoryEntry>, entry: HealthHistoryEntry, max_entries: usize)
    requires
        old(history)@.len() <= max_entries,
    ensures
        final(history)@ == last_entries(old(history)@.push(entry), max_entries as nat),
        final(history)@.len() <= max_entries,
{
    let len = history.len();
    if len < max_entries {
        history.push(entry);
        return;
    }
    if max_entries == 0 {
        *history = Vec::new();
        return;
    }
    let mut kept: Vec<HealthHistoryEntry> = Vec::new();
    let mut i: usize = 1;
    while i < len
        invariant
            1 <= i <= len,
            len == history@.len(),
            kept@ == history@.subrange(1, i as int),
        decreases len - i,
    {
        kept.push(history[i]);
        i = i + 1;
    }
    kept.push(entry);
    proof {
        assert(kept@ == last_entries(old(history)@.push(entry), max_entries as nat));
    }
    *history = kept;
}

/// The summed scores of entries `from .. to` of `h`.
pub open spec fn score_sum(h: Seq<HealthHistoryEntry>, from: int, to: int) -> int
    decreases to - from,
{
    if to <= from {
        0
    } else {
        score_sum(h, from, to - 1) + h[to - 1].health_score
    }
}

/// The direction of health over the history `h`, `previous` while it has
/// fewer than two entries. The average score of the last five entries is
/// compared with that of the (up to) five before them: more than 2 points
/// up is improving, more than 2 points down degrading, anything else stable.
/// With nothing before the last five entries there is nothing to compare,
/// and the trend is stable.
pub open spec fn trend_of(h: Seq<HealthHistoryEntry>, previous: TrendDirection) -> TrendDirection {
    let n = h.len() as int;
    if n < 2 {
        previous
    } else if n <= 5 {
        TrendDirection::Stable
    } else {
        let recent = score_sum(h, n - 5, n);
        let on = if n - 5 < 5 { n - 5 } else { 5 };
        let older = score_sum(h, n - 5 - on, n - 5);
        if recent * on - older * 5 > 10 * on {
            TrendDirection::Improving
        } else if recent * on - older * 5 < -10 * on {
            TrendDirection::Degrading
        } else {
            TrendDirection::Stable
        }
    }
}

proof fn lemma_score_sum_shift(h: Seq<HealthHistoryEntry>, h2: Seq<HealthHistoryEntry>, d: int, from: int, to: int)
    requires
        0 <= from,
        to <= h.len(),
        h2.len() == h.len(),
        forall|i: int| 0 <= i < h.len() ==> #[trigger] h2[i].health_score == h[i].health_score + d,
    ensures
        score_sum(h2, from, to) == score_sum(h, from, to) + d * (if to > from { to - from } else { 0 }),
    decreases to - from,
{
    if to > from {
        lemma_score_sum_shift(h, h2, d, from, to - 1);
        assert(h2[to - 1].health_score == h[to - 1].health_score + d);
        if to - 1 > from {
            assert(d * (to - from) == d * (to - 1 - from) + d) by (nonlinear_arith);
        } else {
            assert(d * (to - from) == d) by (nonlinear_arith)
                requires
                    to - from == 1,
            ;
        }
    }
}

/// The trend compares average scores, so it does not depend on the level
/// of the scores: adding the same amount to every score of a history
/// leaves its trend as it was.
pub proof fn law_trend_ignores_score_level(
    h: Seq<HealthHistoryEntry>,
    h2: Seq<HealthHistoryEntry>,
    d: int,
    previous: TrendDirection,
)
    requires
        h2.len() == h.len(),
        forall|i: int| 0 <= i < h.len() ==> #[trigger] h2[i].health_score == h[i].health_score + d,
    ensures
        trend_of(h2, previous) == trend_of(h, previous),
{
    let n = h.len() as int;
    if n > 5 {
        let on = if n - 5 < 5 { n - 5 } else { 5 };
        lemma_score_sum_shift(h, h2, d, n - 5, n);
        lemma_score_sum_shift(h, h2, d, n - 5 - on, n - 5);
        let r = score_sum(h, n - 5, n);
        let o = score_sum(h, n - 5 - on, n - 5);
        assert((r + d * 5) * on - (o + d * on) * 5 == r * on - o * 5) by (nonlinear_arith);
    }
}

/// A history whose checks all scored the same shows no trend: from two
/// entries on it is stable, whatever its length.
pub proof fn law_steady_scores_are_stable(h: Seq<HealthHistoryEntry>, previous: TrendDirection)
    requires
        h.len() >= 2,
        forall|i: int, j: int| 0 <= i < h.len() && 0 <= j < h.len() ==> #[trigger] h[i].health_score
            == #[trigger] h[j].health_score,
    ensures
        trend_of(h, previous) == TrendDirection::Stable,
{
    let n = h.len() as int;
    if n > 5 {
        let s = h[0].health_score as int;
        let flat = Seq::new(h.len(), |i: int| HealthHistoryEntry { timestamp: 0, health_score: 0, active_issues: 0 });
        assert forall|i: int| 0 <= i < h.len() implies #[trigger] h[i].health_score == flat[i].health_score + s by {
            assert(h[i].health_score == h[0].health_score);
        }
        law_trend_ignores_score_level(flat, h, s, previous);
        let on = if n - 5 < 5 { n - 5 } else { 5 };
        lemma_score_sum_zero(flat, n - 5, n);
        lemma_score_sum_zero(flat, n - 5 - on, n - 5);
    }
}

proof fn lemma_score_sum_const(h: Seq<HealthHistoryEntry>, c: int, from: int, to: int)
    requires
        0 <= from <= to <= h.len(),
        forall|i: int| from <= i < to ==> #[trigger] h[i].health_score == c,
    ensures
        score_sum(h, from, to) == c * (to - from),
    decreases to - from,
{
    if to > from {
        lemma_score_sum_const(h, c, from, to - 1);
        assert(h[to - 1].health_score == c);
        assert(c * (to - from) == c * (to - 1 - from) + c) by (nonlinear_arith);
    } else {
        assert(c * (to - from) == 0) by (nonlinear_arith)
            requires
                to == from,
        ;
    }
}

/// The trend compares the average of the last five checks with that of the
/// (up to five) checks before them: when the last five all scored `b` and
/// those before them all scored `a`, health is improving when `b` is more
/// than 2 points above `a`, degrading when it is more than 2 points below,
/// and stable otherwise.
pub proof fn law_trend_compares_recent_with_older(
    h: Seq<HealthHistoryEntry>,
    a: int,
    b: int,
    previous: TrendDirection,
)
    requires
        h.len() > 5,
        forall|i: int| h.len() - 5 <= i < h.len() ==> #[trigger] h[i].health_score == b,
        forall|i: int|
            h.len() - 10 <= i < h.len() - 5 && 0 <= i ==> #[trigger] h[i].health_score == a,
    ensures
        trend_of(h, previous) == if b > a + 2 {
            TrendDirection::Improving
        } else if b < a - 2 {
            TrendDirection::Degrading
        } else {
            TrendDirection::Stable
        },
{
    let n = h.len() as int;
    let on = if n - 5 < 5 { n - 5 } else { 5 };
    lemma_score_sum_const(h, b, n - 5, n);
    lemma_score_sum_const(h, a, n - 5 - on, n - 5);
    assert(b * 5 * on - a * on * 5 == 5 * on * (b - a)) by (nonlinear_arith);
    assert(5 * on * (b - a) > 10 * on <==> b - a > 2) by (nonlinear_arith)
        requires
            on >= 1,
    ;
    assert(5 * on * (b - a) < -10 * on <==> b - a < -2) by (nonlinear_arith)
        requires
            on >= 1,
    ;
}

proof fn lemma_score_sum_zero(h: Seq<HealthHistoryEntry>, from: int, to: int)
    requires
        0 <= from,
        to <= h.len(),
        forall|i: int| 0 <= i < h.len() ==> #[trigger] h[i].health_score == 0,
    ensures
        score_sum(h, from, to) == 0,
    decreases to - from,
{
    if to > from {
        lemma_score_sum_zero(h, from, to - 1);
    }
}

proof fn lemma_score_sum_bound(h: Seq<HealthHistoryEntry>, from: int, to: int)
    requires
        0 <= from,
        to <= h.len(),
    ensures
        0 <= score_sum(h, from, to) <= 255 * (if to > from { to - from } else { 0 }),
    decreases to - from,
{
    if to > from {
        lemma_score_sum_bound(h, from, to - 1);
    }
}

fn sum_scores(history: &[HealthHistoryEntry], from: usize, to: usize) -> (s: u64)
    requires
        from <= to <= history@.len(),
        to - from <= 5,
    ensures
        s == score_sum(history@, from as int, to as int),
{
    let mut s: u64 = 0;
    let mut i = from;
    while i < to
        invariant
            from <= i <= to,
            to <= history@.len(),
            to - from <= 5,
            s == score_sum(history@, from as int, i as int),
        decreases to - i,
    {
        proof {
            lemma_score_sum_bound(history@, from as int, i as int);
        }
        s = s + history[i].health_score as u64;
        i = i + 1;
    }
    s
}

/// The direction of health over `history`, `previous` while it is shorter
/// than two entries; see `trend_of`.
pub fn trend_direction(history: &[HealthHistoryEntry], previous: TrendDirection) -> (t: TrendDirection)
    ensures
        t == trend_of(history@, previous),
{
    let n = history.len();
    if n < 2 {
        return previous;
    }
    if n <= 5 {
        return TrendDirection::Stable;
    }
    let recent = sum_scores(history, n - 5, n);
    let on: usize = if n - 5 < 5 {
        n - 5
    } else {
        5
    };
    let older = sum_scores(history, n - 5 - on, n - 5);
    proof {
        lemma_score_sum_bound(history@, n - 5, n as int);
        lemma_score_sum_bound(history@, n - 5 - on, n - 5);
    }
    let on64 = on as u64;
    assert(recent * on64 <= 1275 * 5) by (nonlinear_arith)
        requires
            recent <= 1275,
            on64 <= 5,
    ;
    if recent * on64 > older * 5 + 10 * on64 {
        TrendDirection::Improving
    } else if recent * on64 + 10 * on64 < older * 5 {
        TrendDirection::Degrading
    } else {
        TrendDirection::Stable
    }
}

/// Settings of the health monitor.
#[derive(Debug, Clone, Copy)]
pub struct HealthMonitorConfig {
    pub check_interval_ms: u32,
    pub enable_deadlock_detection: bool,
    pub enable_resource_monitoring: bool,
    pub enable_performance_monitoring: bool,
    pub max_history_entries: usize,
}

/// Checks every 5 s with every checker on, keeping 100 history entries.
pub open spec fn default_health_config() -> HealthMonitorConfig {
    HealthMonitorConfig {
        check_interval_ms: 5000,
        enable_deadlock_detection: true,
        enable_resource_monitoring: true,
        enable_performance_monitoring: true,
        max_history_entries: 100,
    }
}

impl Default for HealthMonitorConfig {
    /// Every 5 s, every checker on, 100 history entries.
    fn default() -> (c: Self)
        ensures
            c == default_health_config(),
    {
        HealthMonitorConfig {
            check_interval_ms: 5000,
            enable_deadlock_detection: true,
            enable_resource_monitoring: true,
            enable_performance_monitoring: true,
            max_history_entries: 100,
        }
    }
}

/// The checker of resource exhaustion.
pub struct ResourceHealthChecker {
    name: String,
}

impl ResourceHealthChecker {
    /// Its name.
    pub closed spec fn spec_name(&self) -> Seq<char> {
        self.name@
    }

    /// The checker named "resource".
    pub fn new() -> (c: Self)
        ensures
            c.spec_name() == "resource"@,
    {
        ResourceHealthChecker { name: "resource".to_owned() }
    }

    /// Its name.
    pub fn name(&self) -> (r: &str)
        ensures
            r@ == self.spec_name(),
    {
        self.name.as_str()
    }
}

/// The checker of scheduling performance.
pub struct PerformanceHealthChecker {
    name: String,
}

impl PerformanceHealthChecker {
    /// Its name.
    pub closed spec fn spec_name(&self) -> Seq<char> {
        self.name@
    }

    /// The checker named "performance".
    pub fn new() -> (c: Self)
        ensures
            c.spec_name() == "performance"@,
    {
        PerformanceHealthChecker { name: "performance".to_owned() }
    }

    /// Its name.
    pub fn name(&self) -> (r: &str)
        ensures
            r@ == self.spec_name(),
    {
        self.name.as_str()
    }
}

/// The checker of deadlocks.
pub struct DeadlockHealthChecker {
    name: String,
}

impl DeadlockHealthChecker {
    /// Its name.
    pub closed spec fn spec_name(&self) -> Seq<char> {
        self.name@
    }

    /// The checker named "deadlock".
    pub fn new() -> (c: Self)
        ensures
            c.spec_name() == "deadlock"@,
    {
        DeadlockHealthChecker { name: "deadlock".to_owned() }
    }

    /// Its name.
    pub fn name(&self) -> (r: &str)
        ensures
            r@ == self.spec_name(),
    {
        self.name.as_str()
    }
}

/// The names of the built-in checkers that `config` turns on, in the order
/// resource, performance, deadlock.
pub open spec fn default_checker_names(config: HealthMonitorConfig) -> Seq<Seq<char>> {
    let a = if config.enable_resource_monitoring {
        seq!["resource"@]
    } else {
        Seq::empty()
    };
    let b = if config.enable_performance_monitoring {
        seq!["performance"@]
    } else {
        Seq::empty()
    };
    let c = if config.enable_deadlock_detection {
        seq!["deadlock"@]
    } else {
        Seq::empty()
    };
    a + b + c
}

/// Keeps the outcome of health checks. The checks themselves run outside:
/// their component statuses and issues are handed to `record_check`.
pub struct HealthMonitor {
    config: HealthMonitorConfig,
    enabled: bool,
    checkers: Vec<String>,
    status: HealthStatus,
    active_issues: Vec<HealthIssue>,
    component_count: usize,
    history: Vec<HealthHistoryEntry>,
    trend: TrendDirection,
    last_check: u64,
    check_counter: u64,
}

/// What the last health check found: its overall status, the direction of
/// health over the recorded checks, its time (ns), the number of its
/// components, of open issues, and of recorded checks.
#[derive(Debug, Clone, Copy)]
pub struct HealthReport {
    pub overall_status: HealthStatus,
    pub trend: TrendDirection,
    pub timestamp: u64,
    pub components: usize,
    pub active_issues: usize,
    pub history_len: usize,
}

impl HealthMonitor {
    /// The settings in force.
    pub closed spec fn config_spec(&self) -> HealthMonitorConfig {
        self.config
    }

    /// Whether monitoring is on.
    pub closed spec fn spec_enabled(&self) -> bool {
        self.enabled
    }

    /// The names of the registered checkers, in registration order.
    pub closed spec fn checker_names(&self) -> Seq<Seq<char>> {
        self.checkers@.map_values(|s: String| s@)
    }

    /// The status found by the last check.
    pub closed spec fn current_status(&self) -> HealthStatus {
        self.status
    }

    /// The issues found by the last check and reported since.
    pub closed spec fn issues(&self) -> Seq<HealthIssue> {
        self.active_issues@
    }

    /// The number of components of the last check.
    pub closed spec fn components(&self) -> nat {
        self.component_count as nat
    }

    /// The recorded checks, oldest first.
    pub closed spec fn history_spec(&self) -> Seq<HealthHistoryEntry> {
        self.history@
    }

    /// The direction of health over the recorded checks.
    pub closed spec fn trend_spec(&self) -> TrendDirection {
        self.trend
    }

    /// The time of the last check.
    pub closed spec fn last_check_time(&self) -> u64 {
        self.last_check
    }

    /// The number of checks made, modulo 2^64.
    pub closed spec fn checks(&self) -> u64 {
        self.check_counter
    }

    /// `self` and `other` agree on everything but the checkers, the open
    /// issues and the switch, as far as each flag allows them to differ.
    pub open spec fn agrees_with(&self, other: &Self, checkers: bool, issues: bool, enabled: bool) -> bool {
        &&& self.config_spec() == other.config_spec()
        &&& (!enabled ==> self.spec_enabled() == other.spec_enabled())
        &&& (!checkers ==> self.checker_names() == other.checker_names())
        &&& self.current_status() == other.current_status()
        &&& (!issues ==> self.issues() == other.issues())
        &&& self.components() == other.components()
        &&& self.history_spec() == other.history_spec()
        &&& self.trend_spec() == other.trend_spec()
        &&& self.last_check_time() == other.last_check_time()
        &&& self.checks() == other.checks()
    }

    /// The history never holds more entries than the settings keep.
    pub open spec fn wf(&self) -> bool {
        self.history_spec().len() <= self.config_spec().max_history_entries
    }

    /// A monitor that is off, with the default settings, no checker, a
    /// healthy status, an unknown trend and nothing recorded.
    pub fn new(now: u64) -> (m: Self)
        ensures
            m.wf(),
            !m.spec_enabled(),
            m.config_spec() == default_health_config(),
            m.checker_names() == Seq::<Seq<char>>::empty(),
            m.current_status() == HealthStatus::Healthy,
            m.issues() == Seq::<HealthIssue>::empty(),
            m.components() == 0,
            m.history_spec() == Seq::<HealthHistoryEntry>::empty(),
            m.trend_spec() == TrendDirection::Unknown,
            m.last_check_time() == now,
            m.checks() == 0,
    {
        let m = HealthMonitor {
            config: HealthMonitorConfig::default(),
            enabled: false,
            checkers: Vec::new(),
            status: HealthStatus::Healthy,
            active_issues: Vec::new(),
            component_count: 0,
            history: Vec::new(),
            trend: TrendDirection::Unknown,
            last_check: now,
            check_counter: 0,
        };
        assert(m.checker_names() == Seq::<Seq<char>>::empty());
        m
    }

    fn push_checker(&mut self, name: &str)
        ensures
            final(self).checker_names() == old(self).checker_names().push(name@),
            final(self).agrees_with(old(self), true, false, false),
    {
        self.checkers.push(name.to_owned());
        assert(self.checker_names() == old(self).checker_names().push(name@));
    }

    /// Takes `config`, registers the built-in checkers it turns on after
    /// those already registered, and turns monitoring on. The history is
    /// cut to what the new settings keep.
    pub fn init(&mut self, config: HealthMonitorConfig) -> (r: Result<(), &'static str>)
        requires
            old(self).wf(),
        ensures
            r is Ok,
            final(self).wf(),
            final(self).spec_enabled(),
            final(self).config_spec() == config,
            final(self).checker_names() == old(self).checker_names() + default_checker_names(config),
            final(self).current_status() == old(self).current_status(),
            final(self).issues() == old(self).issues(),
            final(self).components() == old(self).components(),
            final(self).history_spec() == last_entries(
                old(self).history_spec(),
                config.max_history_entries as nat,
            ),
            final(self).trend_spec() == old(self).trend_spec(),
            final(self).last_check_time() == old(self).last_check_time(),
            final(self).checks() == old(self).checks(),
    {
        self.config = config;
        let ghost before = self.checker_names();
        if config.enable_resource_monitoring {
            self.push_checker("resource");
        }
        if config.enable_performance_monitoring {
            self.push_checker("performance");
        }
        if config.enable_deadlock_detection {
            self.push_checker("deadlock");
        }
        proof {
            reveal_strlit("resource");
            reveal_strlit("performance");
            reveal_strlit("deadlock");
            assert(self.checker_names() == before + default_checker_names(config));
        }
        let len = self.history.len();
        let max = config.max_history_entries;
        if len > max {
            let mut kept: Vec<HealthHistoryEntry> = Vec::new();
            let start = len - max;
            let mut i = start;
            while i < len
                invariant
                    start <= i <= len,
                    len == self.history@.len(),
                    start == len - max,
                    kept@ == self.history@.subrange(start as int, i as int),
                decreases len - i,
            {
                kept.push(self.history[i]);
                i = i + 1;
            }
            self.history = kept;
        }
        self.enabled = true;
        Ok(())
    }

    /// Whether monitoring is on.
    pub fn is_enabled(&self) -> (r: bool)
        ensures
            r == self.spec_enabled(),
    {
        self.enabled
    }

    /// Registers a checker named `name` after the others.
    pub fn register_checker(&mut self, name: String)
        ensures
            final(self).checker_names() == old(self).checker_names().push(name@),
            final(self).agrees_with(old(self), true, false, false),
    {
        self.checkers.push(name);
        assert(self.checker_names() == old(self).checker_names().push(name@));
    }

    /// Records the outcome of a check made at `now`, in which the checkers
    /// reported `component_statuses` and `issues`: the status becomes the
    /// overall one, the issues replace the open ones, the check is added to
    /// the history and counted, and the trend is worked out over the new
    /// history. While monitoring is off nothing changes and the current
    /// status is returned.
    pub fn record_check(&mut self, component_statuses: &[HealthStatus], issues: Vec<HealthIssue>, now: u64) -> (r: HealthStatus)
        requires
            old(self).wf(),
        ensures
            final(self).wf(),
            !old(self).spec_enabled() ==> r == old(self).current_status() && *final(self) == *old(self),
            old(self).spec_enabled() ==> {
                &&& r == overall(component_statuses@, issues@)
                &&& final(self).current_status() == r
                &&& final(self).issues() == issues@
                &&& final(self).components() == component_statuses@.len()
                &&& final(self).history_spec() == last_entries(
                    old(self).history_spec().push(
                        HealthHistoryEntry { timestamp: now, health_score: status_score(r), active_issues: 0 },
                    ),
                    old(self).config_spec().max_history_entries as nat,
                )
                &&& final(self).trend_spec() == trend_of(final(self).history_spec(), old(self).trend_spec())
                &&& final(self).last_check_time() == now
                &&& final(self).checks() == crate::observability::metrics::wrap_add(old(self).checks(), 1)
                &&& final(self).spec_enabled()
                &&& final(self).config_spec() == old(self).config_spec()
                &&& final(self).checker_names() == old(self).checker_names()
            },
    {
        if !self.enabled {
            return self.status;
        }
        let status = calculate_overall_status(component_statuses, issues.as_slice());
        let entry = HealthHistoryEntry { timestamp: now, health_score: status.score(), active_issues: 0 };
        record_history(&mut self.history, entry, self.config.max_history_entries);
        self.trend = trend_direction(self.history.as_slice(), self.trend);
        self.status = status;
        self.active_issues = issues;
        self.component_count = component_statuses.len();
        self.last_check = now;
        self.check_counter = self.check_counter.wrapping_add(1);
        status
    }

    /// Adds `issue` to the open issues.
    pub fn report_issue(&mut self, issue: HealthIssue)
        ensures
            final(self).issues() == old(self).issues().push(issue),
            final(self).agrees_with(old(self), false, true, false),
    {
        self.active_issues.push(issue);
    }

    /// The number of checks made, the number of components of the last one
    /// and the current status.
    pub fn get_stats(&self) -> (r: (u64, usize, HealthStatus))
        ensures
            r.0 == self.checks(),
            r.1 == self.components(),
            r.2 == self.current_status(),
    {
        (self.check_counter, self.component_count, self.status)
    }

    /// The report of the last check.
    pub fn get_current_health(&self) -> (r: HealthReport)
        ensures
            r.overall_status == self.current_status(),
            r.trend == self.trend_spec(),
            r.timestamp == self.last_check_time(),
            r.components == self.components(),
            r.active_issues == self.issues().len(),
            r.history_len == self.history_spec().len(),
    {
        HealthReport {
            overall_status: self.status,
            trend: self.trend,
            timestamp: self.last_check,
            components: self.component_count,
            active_issues: self.active_issues.len(),
            history_len: self.history.len(),
        }
    }

    /// Turns monitoring off.
    pub fn disable(&mut self)
        ensures
            !final(self).spec_enabled(),
            final(self).agrees_with(old(self), false, false, true),
    {
        self.enabled = false;
    }
}

/// Starts `monitor` with the default settings but a check every
/// `interval_ms` milliseconds.
pub fn init_health_monitor(monitor: &mut HealthMonitor, interval_ms: u32) -> (r: Result<(), &'static str>)
    requires
        old(monitor).wf(),
    ensures
        r is Ok,
        final(monitor).wf(),
        final(monitor).spec_enabled(),
        final(monitor).config_spec() == (HealthMonitorConfig {
            check_interval_ms: interval_ms,
            ..default_health_config()
        }),
        final(monitor).checker_names() == old(monitor).checker_names() + seq![
            "resource"@,
            "performance"@,
            "deadlock"@,
        ],
        final(monitor).current_status() == old(monitor).current_status(),
        final(monitor).checks() == old(monitor).checks(),
{
    let config = HealthMonitorConfig { check_interval_ms: interval_ms, ..HealthMonitorConfig::default() };
    let r = monitor.init(config);
    assert(default_checker_names(config) == seq!["resource"@, "performance"@, "deadlock"@]);
    r
}

/// Stops `monitor`.
pub fn cleanup_health_monitor(monitor: &mut HealthMonitor)
    ensures
        !final(monitor).spec_enabled(),
        final(monitor).checker_names() == old(monitor).checker_names(),
        final(monitor).current_status() == old(monitor).current_status(),
        final(monitor).history_spec() == old(monitor).history_spec(),
{
    monitor.disable();
}

} // verus!
