//! Per-tab memory policy: thresholds derived from the configured headroom,
//! pressure classification with mitigation actions, attribution labels and
//! a cached aggregate of observed process memory.
use crate::text::{
    ascii_lower, bool_text, bool_word, contains_text, decimal, decimal_text, first_word,
    parsed_u64, text_ascii_lowercase, text_contains, text_first_word, text_lines, text_lines_of,
    text_nul_to_space, text_parse_u64, text_strip_prefix, text_trim, trim_end_ws, trim_start_ws,
};
use vstd::prelude::*;

verus! {

#[derive(Clone, Debug, PartialEq, Eq)]
pub struct MemoryThresholds {
    pub warning_bytes: u64,
    pub critical_bytes: u64,
    pub hard_limit_bytes: u64,
}

#[derive(Clone, Debug, PartialEq, Eq)]
pub struct TabTelemetry {
    pub tab_id: String,
    pub renderer_bytes: u64,
    pub browser_bytes: u64,
    pub gpu_bytes: u64,
}

#[derive(Clone, Copy, Debug, PartialEq, Eq, Structural)]
pub enum TelemetrySource {
    SyntheticSample,
    LinuxProcessRss,
    AggregateProcessRss,
}

#[derive(Clone, Copy, Debug, PartialEq, Eq, Structural)]
pub enum AttributionConfidence {
    TestOnly,
    Aggregate,
    ProcessObserved,
}

#[derive(Clone, Debug, PartialEq, Eq)]
pub struct MemoryAttribution {
    pub source: TelemetrySource,
    pub confidence: AttributionConfidence,
    pub live_mvp_evidence: bool,
    pub detail: String,
}

#[derive(Clone, Debug, PartialEq, Eq)]
pub struct ProcessMemoryObservation {
    pub pid: u32,
    pub command: String,
    pub rss_bytes: u64,
}

#[derive(Clone, Debug, PartialEq, Eq)]
pub struct ObservedMemoryTelemetry {
    pub telemetry: TabTelemetry,
    pub attribution: MemoryAttribution,
    pub processes: Vec<ProcessMemoryObservation>,
}

#[derive(Clone, Copy, Debug, PartialEq, Eq, Structural)]
pub enum MemoryPressureLevel {
    Normal,
    Warning,
    Critical,
    Exhausted,
}

#[derive(Clone, Copy, Debug, PartialEq, Eq, Structural)]
pub enum MitigationAction {
    Observe,
    WarnUser,
    DeprioritizeBackgroundWork,
    CaptureRecoveryReport,
}

#[derive(Clone, Debug, PartialEq, Eq)]
pub struct MemoryEvent {
    pub tab_id: String,
    pub level: MemoryPressureLevel,
    pub total_bytes: u64,
    pub summary: String,
}

#[derive(Clone, Debug, PartialEq, Eq)]
pub struct PolicyDecision {
    pub event: MemoryEvent,
    pub actions: Vec<MitigationAction>,
}

#[derive(Clone, Debug, PartialEq, Eq)]
pub struct SupportedSystemReport {
    pub target_bytes: u64,
    pub available_bytes: u64,
    pub meets_target: bool,
    pub summary: String,
}

#[derive(Clone, Debug, PartialEq, Eq)]
pub struct RecoveryReport {
    pub tab_id: String,
    pub suspected_cause: String,
    pub captured_bytes: u64,
    pub attribution: MemoryAttribution,
    pub process_count: usize,
}

// ---------------------------------------------------------------------------
// Names printed by `{:?}`
// ---------------------------------------------------------------------------
pub open spec fn source_name(s: TelemetrySource) -> Seq<char> {
    match s {
        TelemetrySource::SyntheticSample => "SyntheticSample"@,
        TelemetrySource::LinuxProcessRss => "LinuxProcessRss"@,
        TelemetrySource::AggregateProcessRss => "AggregateProcessRss"@,
    }
}

pub open spec fn confidence_name(c: AttributionConfidence) -> Seq<char> {
    match c {
        AttributionConfidence::TestOnly => "TestOnly"@,
        AttributionConfidence::Aggregate => "Aggregate"@,
        AttributionConfidence::ProcessObserved => "ProcessObserved"@,
    }
}

pub open spec fn level_name(l: MemoryPressureLevel) -> Seq<char> {
    match l {
        MemoryPressureLevel::Normal => "Normal"@,
        MemoryPressureLevel::Warning => "Warning"@,
        MemoryPressureLevel::Critical => "Critical"@,
        MemoryPressureLevel::Exhausted => "Exhausted"@,
    }
}

pub open spec fn action_name(a: MitigationAction) -> Seq<char> {
    match a {
        MitigationAction::Observe => "Observe"@,
        MitigationAction::WarnUser => "WarnUser"@,
        MitigationAction::DeprioritizeBackgroundWork => "DeprioritizeBackgroundWork"@,
        MitigationAction::CaptureRecoveryReport => "CaptureRecoveryReport"@,
    }
}

impl TelemetrySource {
    /// The variant's name, as `{:?}` prints it.
    pub fn debug_name(&self) -> (s: &'static str)
        ensures
            s@ == source_name(*self),
    {
        match self {
            TelemetrySource::SyntheticSample => "SyntheticSample",
            TelemetrySource::LinuxProcessRss => "LinuxProcessRss",
            TelemetrySource::AggregateProcessRss => "AggregateProcessRss",
        }
    }
}

impl AttributionConfidence {
    /// The variant's name, as `{:?}` prints it.
    pub fn debug_name(&self) -> (s: &'static str)
        ensures
            s@ == confidence_name(*self),
    {
        match self {
            AttributionConfidence::TestOnly => "TestOnly",
            AttributionConfidence::Aggregate => "Aggregate",
            AttributionConfidence::ProcessObserved => "ProcessObserved",
        }
    }
}

impl MemoryPressureLevel {
    /// The variant's name, as `{:?}` prints it.
    pub fn debug_name(&self) -> (s: &'static str)
        ensures
            s@ == level_name(*self),
    {
        match self {
            MemoryPressureLevel::Normal => "Normal",
            MemoryPressureLevel::Warning => "Warning",
            MemoryPressureLevel::Critical => "Critical",
            MemoryPressureLevel::Exhausted => "Exhausted",
        }
    }
}

impl MitigationAction {
    /// The variant's name, as `{:?}` prints it.
    pub fn debug_name(&self) -> (s: &'static str)
        ensures
            s@ == action_name(*self),
    {
        match self {
            MitigationAction::Observe => "Observe",
            MitigationAction::WarnUser => "WarnUser",
            MitigationAction::DeprioritizeBackgroundWork => "DeprioritizeBackgroundWork",
            MitigationAction::CaptureRecoveryReport => "CaptureRecoveryReport",
        }
    }
}

// ---------------------------------------------------------------------------
// Attribution
// ---------------------------------------------------------------------------
/// The label of an attribution: source, confidence, evidence flag, detail.
pub open spec fn attribution_label(a: MemoryAttribution) -> Seq<char> {
    "source="@ + source_name(a.source) + "; confidence="@ + confidence_name(a.confidence)
        + "; live_mvp_evidence="@ + bool_text(a.live_mvp_evidence) + "; "@ + a.detail@
}

impl MemoryAttribution {
    pub fn copy_attribution(&self) -> (r: Self)
        ensures
            r == *self,
    {
        MemoryAttribution {
            source: self.source,
            confidence: self.confidence,
            live_mvp_evidence: self.live_mvp_evidence,
            detail: self.detail.clone(),
        }
    }

    /// Attribution for an injected sample: test-only, not live evidence.
    pub fn synthetic() -> (r: Self)
        ensures
            r.source == TelemetrySource::SyntheticSample,
            r.confidence == AttributionConfidence::TestOnly,
            !r.live_mvp_evidence,
            r.detail@ == "injected memory sample for tests or simulated development"@,
    {
        MemoryAttribution {
            source: TelemetrySource::SyntheticSample,
            confidence: AttributionConfidence::TestOnly,
            live_mvp_evidence: false,
            detail: String::from_str("injected memory sample for tests or simulated development"),
        }
    }

    /// Attribution for an aggregate of observed process RSS.
    pub fn aggregate_process(process_count: usize) -> (r: Self)
        ensures
            r.source == TelemetrySource::AggregateProcessRss,
            r.confidence == AttributionConfidence::Aggregate,
            r.live_mvp_evidence,
            r.detail@ == "observed aggregate Linux RSS across "@ + decimal(process_count as nat)
                + " browser-related process(es)"@,
    {
        let detail = String::from_str("observed aggregate Linux RSS across ").concat(
            decimal_text(process_count as u64).as_str(),
        ).concat(" browser-related process(es)");
        MemoryAttribution {
            source: TelemetrySource::AggregateProcessRss,
            confidence: AttributionConfidence::Aggregate,
            live_mvp_evidence: true,
            detail,
        }
    }

    /// "source=..; confidence=..; live_mvp_evidence=..; detail".
    pub fn label(&self) -> (s: String)
        ensures
            s@ == attribution_label(*self),
    {
        String::from_str("source=").concat(self.source.debug_name()).concat(
            "; confidence=",
        ).concat(self.confidence.debug_name()).concat("; live_mvp_evidence=").concat(
            bool_word(self.live_mvp_evidence),
        ).concat("; ").concat(self.detail.as_str())
    }
}

// ---------------------------------------------------------------------------
// Controller
// ---------------------------------------------------------------------------
/// The thresholds derived from a target headroom.
pub open spec fn thresholds_for(target: u64) -> (int, int, int) {
    (target * 3 / 4, target * 9 / 10, target as int)
}

/// Classification of a total against the thresholds: the first threshold
/// reached, from the hard limit down.
pub open spec fn pressure_level(total: int, th: MemoryThresholds) -> MemoryPressureLevel {
    if total >= th.hard_limit_bytes {
        MemoryPressureLevel::Exhausted
    } else if total >= th.critical_bytes {
        MemoryPressureLevel::Critical
    } else if total >= th.warning_bytes {
        MemoryPressureLevel::Warning
    } else {
        MemoryPressureLevel::Normal
    }
}

/// The mitigation actions taken at each level.
pub open spec fn mitigation_actions(level: MemoryPressureLevel) -> Seq<MitigationAction> {
    match level {
        MemoryPressureLevel::Normal => seq![MitigationAction::Observe],
        MemoryPressureLevel::Warning => seq![MitigationAction::WarnUser],
        MemoryPressureLevel::Critical => seq![
            MitigationAction::WarnUser,
            MitigationAction::DeprioritizeBackgroundWork,
        ],
        MemoryPressureLevel::Exhausted => seq![
            MitigationAction::WarnUser,
            MitigationAction::DeprioritizeBackgroundWork,
            MitigationAction::CaptureRecoveryReport,
        ],
    }
}

/// Severity order of the pressure levels.
pub open spec fn level_rank(l: MemoryPressureLevel) -> int {
    match l {
        MemoryPressureLevel::Normal => 0,
        MemoryPressureLevel::Warning => 1,
        MemoryPressureLevel::Critical => 2,
        MemoryPressureLevel::Exhausted => 3,
    }
}

/// Total bytes of a telemetry sample.
pub open spec fn telemetry_total(t: TabTelemetry) -> int {
    t.renderer_bytes + t.browser_bytes + t.gpu_bytes
}

pub open spec fn pressure_summary(tab_id: Seq<char>, level: MemoryPressureLevel) -> Seq<char> {
    "Tab '"@ + tab_id + "' is at "@ + level_name(level) + " memory pressure"@
}

pub open spec fn system_summary(meets: bool) -> Seq<char> {
    if meets {
        "System can support the configured high-memory tab target"@
    } else {
        "System memory is below the configured high-memory tab target"@
    }
}

/// `d` is the decision a controller with thresholds `th` takes on `t`.
pub open spec fn decision_for(d: PolicyDecision, th: MemoryThresholds, t: TabTelemetry) -> bool {
    &&& d.event.tab_id == t.tab_id
    &&& d.event.total_bytes == telemetry_total(t)
    &&& d.event.level == pressure_level(telemetry_total(t), th)
    &&& d.event.summary@ == pressure_summary(t.tab_id@, d.event.level)
    &&& d.actions@ == mitigation_actions(d.event.level)
}

/// Largest headroom whose thresholds can be computed without overflow.
pub open spec fn headroom_fits(target: u64) -> bool {
    target * 9 <= u64::MAX
}

pub struct MemoryController {
    thresholds: MemoryThresholds,
    target_headroom_bytes: u64,
}

impl MemoryController {
    pub closed spec fn target(&self) -> u64 {
        self.target_headroom_bytes
    }

    pub closed spec fn spec_thresholds(&self) -> MemoryThresholds {
        self.thresholds
    }

    /// The controller's thresholds are those derived from its target.
    pub closed spec fn wf(&self) -> bool {
        &&& headroom_fits(self.target_headroom_bytes)
        &&& self.thresholds.warning_bytes == self.target_headroom_bytes * 3 / 4
        &&& self.thresholds.critical_bytes == self.target_headroom_bytes * 9 / 10
        &&& self.thresholds.hard_limit_bytes == self.target_headroom_bytes
    }

    /// Warning at 3/4 of the headroom, critical at 9/10, hard limit at the
    /// headroom itself.
    pub fn new(target_headroom_bytes: u64) -> (r: Self)
        requires
            headroom_fits(target_headroom_bytes),
        ensures
            r.wf(),
            r.target() == target_headroom_bytes,
            r.spec_thresholds().warning_bytes == target_headroom_bytes * 3 / 4,
            r.spec_thresholds().critical_bytes == target_headroom_bytes * 9 / 10,
            r.spec_thresholds().hard_limit_bytes == target_headroom_bytes,
    {
        MemoryController {
            thresholds: MemoryThresholds {
                warning_bytes: target_headroom_bytes * 3 / 4,
                critical_bytes: target_headroom_bytes * 9 / 10,
                hard_limit_bytes: target_headroom_bytes,
            },
            target_headroom_bytes,
        }
    }

    pub fn thresholds(&self) -> (r: &MemoryThresholds)
        ensures
            *r == self.spec_thresholds(),
    {
        &self.thresholds
    }

    /// Whether a system with `available_bytes` meets the headroom target.
    pub fn system_report(&self, available_bytes: u64) -> (r: SupportedSystemReport)
        ensures
            r.target_bytes == self.target(),
            r.available_bytes == available_bytes,
            r.meets_target == (available_bytes >= self.target()),
            r.summary@ == system_summary(available_bytes >= self.target()),
    {
        let meets = available_bytes >= self.target_headroom_bytes;
        SupportedSystemReport {
            target_bytes: self.target_headroom_bytes,
            available_bytes,
            meets_target: meets,
            summary: if meets {
                String::from_str("System can support the configured high-memory tab target")
            } else {
                String::from_str("System memory is below the configured high-memory tab target")
            },
        }
    }

    /// Classifies a sample and picks the mitigation actions for its level.
    pub fn evaluate(&self, telemetry: &TabTelemetry) -> (r: PolicyDecision)
        requires
            telemetry_total(*telemetry) <= u64::MAX,
        ensures
            r.event.tab_id == telemetry.tab_id,
            r.event.total_bytes == telemetry_total(*telemetry),
            r.event.level == pressure_level(telemetry_total(*telemetry), self.spec_thresholds()),
            r.event.summary@ == pressure_summary(telemetry.tab_id@, r.event.level),
            r.actions@ == mitigation_actions(r.event.level),
            decision_for(r, self.spec_thresholds(), *telemetry),
    {
        let total_bytes: u64 = telemetry.renderer_bytes + telemetry.browser_bytes + telemetry.gpu_bytes;
        let level = if total_bytes >= self.thresholds.hard_limit_bytes {
            MemoryPressureLevel::Exhausted
        } else if total_bytes >= self.thresholds.critical_bytes {
            MemoryPressureLevel::Critical
        } else if total_bytes >= self.thresholds.warning_bytes {
            MemoryPressureLevel::Warning
        } else {
            MemoryPressureLevel::Normal
        };
        let actions = match level {
            MemoryPressureLevel::Normal => vec![MitigationAction::Observe],
            MemoryPressureLevel::Warning => vec![MitigationAction::WarnUser],
            MemoryPressureLevel::Critical => vec![
                MitigationAction::WarnUser,
                MitigationAction::DeprioritizeBackgroundWork,
            ],
            MemoryPressureLevel::Exhausted => vec![
                MitigationAction::WarnUser,
                MitigationAction::DeprioritizeBackgroundWork,
                MitigationAction::CaptureRecoveryReport,
            ],
        };
        proof {
            assert(actions@ =~= mitigation_actions(level));
        }
        let summary = String::from_str("Tab '").concat(telemetry.tab_id.as_str()).concat(
            "' is at ",
        ).concat(level.debug_name()).concat(" memory pressure");
        PolicyDecision {
            event: MemoryEvent {
                tab_id: telemetry.tab_id.clone(),
                level,
                total_bytes,
                summary,
            },
            actions,
        }
    }

    /// The report kept when a tab is ended for suspected memory exhaustion.
    pub fn capture_recovery_report(
        &self,
        telemetry: &TabTelemetry,
        attribution: MemoryAttribution,
    ) -> (r: RecoveryReport)
        requires
            telemetry_total(*telemetry) <= u64::MAX,
        ensures
            r.tab_id == telemetry.tab_id,
            r.suspected_cause@ == "suspected-memory-exhaustion"@,
            r.captured_bytes == telemetry_total(*telemetry),
            r.process_count == 0,
            r.attribution == attribution,
    {
        RecoveryReport {
            tab_id: telemetry.tab_id.clone(),
            suspected_cause: String::from_str("suspected-memory-exhaustion"),
            captured_bytes: telemetry.renderer_bytes + telemetry.browser_bytes
                + telemetry.gpu_bytes,
            process_count: 0,
            attribution,
        }
    }
}

/// The thresholds of any controller are ordered: warning, then critical,
/// then the hard limit, which is the target itself.
pub proof fn lemma_thresholds_ordered(c: MemoryController)
    requires
        c.wf(),
    ensures
        c.spec_thresholds().warning_bytes <= c.spec_thresholds().critical_bytes,
        c.spec_thresholds().critical_bytes <= c.spec_thresholds().hard_limit_bytes,
        c.spec_thresholds().hard_limit_bytes == c.target(),
{
    let t = c.target() as int;
    assert(t * 3 / 4 <= t * 9 / 10) by (nonlinear_arith)
        requires
            t >= 0,
    ;
    assert(t * 9 / 10 <= t) by (nonlinear_arith)
        requires
            t >= 0,
    ;
}

/// More memory never means less pressure: the level is monotone in the total.
pub proof fn lemma_pressure_monotone(c: MemoryController, small: int, large: int)
    requires
        c.wf(),
        small <= large,
    ensures
        level_rank(pressure_level(small, c.spec_thresholds())) <= level_rank(
            pressure_level(large, c.spec_thresholds()),
        ),
{
    lemma_thresholds_ordered(c);
}

/// Escalation only adds actions: above Normal, the actions of a level are a
/// prefix of the actions of any more severe level.
pub proof fn lemma_actions_escalate(lower: MemoryPressureLevel, higher: MemoryPressureLevel)
    requires
        lower != MemoryPressureLevel::Normal,
        level_rank(lower) <= level_rank(higher),
    ensures
        mitigation_actions(lower).is_prefix_of(mitigation_actions(higher)),
{
    assert(mitigation_actions(lower).len() <= mitigation_actions(higher).len());
    assert(mitigation_actions(lower) =~= mitigation_actions(higher).subrange(
        0,
        mitigation_actions(lower).len() as int,
    ));
}

/// The pressure bands of a controller, by its target: from the target up
/// a sample is Exhausted, from 9/10 of it Critical, from 3/4 of it Warning,
/// and Normal below; each band includes its lower bound.
pub proof fn lemma_pressure_bands(c: MemoryController, total: int)
    requires
        c.wf(),
    ensures
        total >= c.target() ==> pressure_level(total, c.spec_thresholds())
            == MemoryPressureLevel::Exhausted,
        c.target() * 9 / 10 <= total < c.target() ==> pressure_level(total, c.spec_thresholds())
            == MemoryPressureLevel::Critical,
        c.target() * 3 / 4 <= total < c.target() * 9 / 10 ==> pressure_level(
            total,
            c.spec_thresholds(),
        ) == MemoryPressureLevel::Warning,
        total < c.target() * 3 / 4 ==> pressure_level(total, c.spec_thresholds())
            == MemoryPressureLevel::Normal,
{
    lemma_thresholds_ordered(c);
}

/// The actions of each level: Normal only observes; Warning warns the
/// user; Critical also deprioritizes background work; Exhausted also
/// captures a recovery report. So background work is deprioritized exactly
/// from Critical up, and each level above Normal takes strictly more
/// actions than the one below it.
pub proof fn lemma_level_actions(d: PolicyDecision, th: MemoryThresholds, t: TabTelemetry)
    requires
        decision_for(d, th, t),
    ensures
        d.event.level == MemoryPressureLevel::Normal ==> d.actions@ == seq![MitigationAction::Observe],
        d.event.level == MemoryPressureLevel::Warning ==> d.actions@ == seq![MitigationAction::WarnUser],
        d.event.level == MemoryPressureLevel::Critical ==> d.actions@ == seq![
            MitigationAction::WarnUser,
            MitigationAction::DeprioritizeBackgroundWork,
        ],
        d.event.level == MemoryPressureLevel::Exhausted ==> d.actions@ == seq![
            MitigationAction::WarnUser,
            MitigationAction::DeprioritizeBackgroundWork,
            MitigationAction::CaptureRecoveryReport,
        ],
        d.actions@.contains(MitigationAction::DeprioritizeBackgroundWork) <==> level_rank(
            d.event.level,
        ) >= 2,
        d.actions@.contains(MitigationAction::CaptureRecoveryReport) <==> d.event.level
            == MemoryPressureLevel::Exhausted,
        d.actions@.contains(MitigationAction::WarnUser) <==> d.event.level
            != MemoryPressureLevel::Normal,
        d.actions@.len() == if level_rank(d.event.level) == 0 {
            1
        } else {
            level_rank(d.event.level)
        },
{
    let a = d.actions@;
    match d.event.level {
        MemoryPressureLevel::Normal => {
            assert(a[0] == MitigationAction::Observe);
        },
        MemoryPressureLevel::Warning => {
            assert(a[0] == MitigationAction::WarnUser);
        },
        MemoryPressureLevel::Critical => {
            assert(a[0] == MitigationAction::WarnUser);
            assert(a[1] == MitigationAction::DeprioritizeBackgroundWork);
        },
        MemoryPressureLevel::Exhausted => {
            assert(a[0] == MitigationAction::WarnUser);
            assert(a[1] == MitigationAction::DeprioritizeBackgroundWork);
            assert(a[2] == MitigationAction::CaptureRecoveryReport);
        },
    }
}

/// A recovery report captures exactly the total that the policy evaluated.
pub proof fn lemma_recovery_report_matches_evaluation(
    decision: PolicyDecision,
    report: RecoveryReport,
    telemetry: TabTelemetry,
)
    requires
        decision.event.total_bytes == telemetry_total(telemetry),
        report.captured_bytes == telemetry_total(telemetry),
    ensures
        report.captured_bytes == decision.event.total_bytes,
{
}

// ---------------------------------------------------------------------------
// Observed process memory
// ---------------------------------------------------------------------------
/// Milliseconds for which a collected aggregate is reused.
pub const MEMORY_CACHE_TTL_MS: u64 = 2000;

/// One scan of the browser-related processes, with the current process as a
/// fallback observation when the scan finds none.
pub struct ProcessScan {
    pub browser_processes: Vec<ProcessMemoryObservation>,
    pub current_process: ProcessMemoryObservation,
}

/// Sum of the resident sizes of a list of observations.
pub open spec fn rss_sum(ps: Seq<ProcessMemoryObservation>) -> int
    decreases ps.len(),
{
    if ps.len() == 0 {
        0
    } else {
        rss_sum(ps.drop_last()) + ps.last().rss_bytes
    }
}

/// The processes a scan contributes: the browser processes, or the current
/// process alone when there are none.
pub open spec fn scan_processes(scan: ProcessScan) -> Seq<ProcessMemoryObservation> {
    if scan.browser_processes@.len() == 0 {
        seq![scan.current_process]
    } else {
        scan.browser_processes@
    }
}

/// The telemetry built from a scan for a tab.
pub open spec fn scan_result_matches(
    r: ObservedMemoryTelemetry,
    tab_id: Seq<char>,
    scan: ProcessScan,
) -> bool {
    &&& r.processes@ == scan_processes(scan)
    &&& r.telemetry.tab_id@ == tab_id
    &&& r.telemetry.renderer_bytes == rss_sum(scan_processes(scan))
    &&& r.telemetry.browser_bytes == 0
    &&& r.telemetry.gpu_bytes == 0
    &&& r.attribution.source == TelemetrySource::AggregateProcessRss
    &&& r.attribution.confidence == AttributionConfidence::Aggregate
    &&& r.attribution.live_mvp_evidence
    &&& r.attribution.detail@ == "observed aggregate Linux RSS across "@ + decimal(
        scan_processes(scan).len(),
    ) + " browser-related process(es)"@
}

/// `r` is `cached` with only the tab id replaced.
pub open spec fn retagged(r: ObservedMemoryTelemetry, cached: ObservedMemoryTelemetry, tab_id: Seq<char>) -> bool {
    &&& r.telemetry.tab_id@ == tab_id
    &&& r.telemetry.renderer_bytes == cached.telemetry.renderer_bytes
    &&& r.telemetry.browser_bytes == cached.telemetry.browser_bytes
    &&& r.telemetry.gpu_bytes == cached.telemetry.gpu_bytes
    &&& r.attribution == cached.attribution
    &&& r.processes@ == cached.processes@
}

/// Pids never decrease along the list.
pub open spec fn pids_ordered(ps: Seq<ProcessMemoryObservation>) -> bool {
    forall|i: int, j: int| 0 <= i < j < ps.len() ==> ps[i].pid <= ps[j].pid
}

/// A scan as `process_scan` makes it: its browser processes ordered by pid.
pub open spec fn scan_ordered(scan: ProcessScan) -> bool {
    pids_ordered(scan.browser_processes@)
}

/// What a scan can be collected from: ordered by pid, with resident sizes
/// that add up within `u64`.
pub open spec fn scan_collectable(scan: ProcessScan) -> bool {
    &&& scan_ordered(scan)
    &&& rss_sum(scan_processes(scan)) <= u64::MAX
}

/// An aggregate of observed processes: at least one process, ordered by
/// pid, whose resident sizes make the renderer bytes, with no browser or GPU
/// bytes and the aggregate attribution for that many processes.
pub open spec fn is_aggregate(v: ObservedMemoryTelemetry) -> bool {
    &&& v.processes@.len() >= 1
    &&& pids_ordered(v.processes@)
    &&& v.telemetry.renderer_bytes == rss_sum(v.processes@)
    &&& v.telemetry.browser_bytes == 0
    &&& v.telemetry.gpu_bytes == 0
    &&& v.attribution.source == TelemetrySource::AggregateProcessRss
    &&& v.attribution.confidence == AttributionConfidence::Aggregate
    &&& v.attribution.live_mvp_evidence
    &&& v.attribution.detail@ == "observed aggregate Linux RSS across "@ + decimal(
        v.processes@.len(),
    ) + " browser-related process(es)"@
}

pub struct LinuxProcessMemoryCollector {
    cached: Option<ObservedMemoryTelemetry>,
    last_collected_ms: Option<u64>,
}

fn copy_processes(ps: &Vec<ProcessMemoryObservation>) -> (r: Vec<ProcessMemoryObservation>)
    ensures
        r@ == ps@,
{
    let mut out: Vec<ProcessMemoryObservation> = Vec::new();
    let mut k: usize = 0;
    while k < ps.len()
        invariant
            k <= ps.len(),
            out@ == ps@.take(k as int),
        decreases ps.len() - k,
    {
        let p = ProcessMemoryObservation {
            pid: ps[k].pid,
            command: ps[k].command.clone(),
            rss_bytes: ps[k].rss_bytes,
        };
        out.push(p);
        proof {
            assert(out@ =~= ps@.take(k + 1));
        }
        k = k + 1;
    }
    proof {
        assert(out@ =~= ps@);
    }
    out
}

impl LinuxProcessMemoryCollector {
    pub closed spec fn cached_value(&self) -> Option<ObservedMemoryTelemetry> {
        self.cached
    }

    pub closed spec fn last_collected(&self) -> Option<u64> {
        self.last_collected_ms
    }

    /// The cache holds a value collected less than the TTL before `now_ms`.
    pub open spec fn fresh_at(&self, now_ms: u64) -> bool {
        &&& self.cached_value() is Some
        &&& self.last_collected() is Some
        &&& (now_ms - self.last_collected()->0 < MEMORY_CACHE_TTL_MS as int || now_ms
            < self.last_collected()->0)
    }

    /// Whatever the collector caches is an aggregate of observed processes.
    pub open spec fn wf(&self) -> bool {
        self.cached_value() matches Some(c) ==> is_aggregate(c)
    }

    pub fn new() -> (r: Self)
        ensures
            r.wf(),
            r.cached_value() is None,
            r.last_collected() is None,
    {
        LinuxProcessMemoryCollector { cached: None, last_collected_ms: None }
    }

    /// Whether the cached aggregate can still be served at `now_ms`.
    pub fn cache_fresh(&self, now_ms: u64) -> (r: bool)
        ensures
            r == self.fresh_at(now_ms),
    {
        match (&self.cached, self.last_collected_ms) {
            (Some(_), Some(last)) => now_ms < last || now_ms - last < MEMORY_CACHE_TTL_MS,
            _ => false,
        }
    }

    /// Telemetry for `tab_id` at time `now_ms` (milliseconds on a monotonic
    /// clock). A fresh cached aggregate is served with the caller's tab id;
    /// otherwise the aggregate is rebuilt from `scan`, cached, and returned.
    /// `None` comes back only when the cache is stale and no scan was given.
    pub fn collect_for_tab(&mut self, tab_id: &str, now_ms: u64, scan: Option<ProcessScan>) -> (r:
        Option<ObservedMemoryTelemetry>)
        requires
            old(self).wf(),
            scan matches Some(s) ==> scan_collectable(s),
        ensures
            final(self).wf(),
            r matches Some(v) ==> is_aggregate(v),
            old(self).fresh_at(now_ms) ==> *final(self) == *old(self),
            old(self).fresh_at(now_ms) ==> (r matches Some(v) && retagged(
                v,
                old(self).cached_value()->0,
                tab_id@,
            )),
            !old(self).fresh_at(now_ms) && scan is None ==> r is None && *final(self) == *old(self),
            !old(self).fresh_at(now_ms) && scan is Some ==> (r matches Some(v) && scan_result_matches(
                v,
                tab_id@,
                scan->0,
            ) && (final(self).cached_value() matches Some(c) && retagged(c, v, tab_id@))),
            !old(self).fresh_at(now_ms) && scan is Some ==> final(self).last_collected() == Some(
                now_ms,
            ),
    {
        if self.cache_fresh(now_ms) {
            let cached = self.cached.as_ref().unwrap();
            let fresh = ObservedMemoryTelemetry {
                telemetry: TabTelemetry {
                    tab_id: String::from_str(tab_id),
                    renderer_bytes: cached.telemetry.renderer_bytes,
                    browser_bytes: cached.telemetry.browser_bytes,
                    gpu_bytes: cached.telemetry.gpu_bytes,
                },
                attribution: cached.attribution.copy_attribution(),
                processes: copy_processes(&cached.processes),
            };
            return Some(fresh);
        }
        match scan {
            None => None,
            Some(scan) => {
                let ghost expected = scan_processes(scan);
                proof {
                    if scan.browser_processes@.len() == 0 {
                        assert(pids_ordered(expected));
                    }
                }
                let ProcessScan { browser_processes, current_process } = scan;
                let mut processes = browser_processes;
                if processes.len() == 0 {
                    processes.push(current_process);
                }
                proof {
                    assert(processes@ =~= expected);
                }
                let mut total: u64 = 0;
                let mut k: usize = 0;
                while k < processes.len()
                    invariant
                        k <= processes.len(),
                        processes@ == expected,
                        rss_sum(expected) <= u64::MAX,
                        total == rss_sum(processes@.take(k as int)),
                    decreases processes.len() - k,
                {
                    proof {
                        assert(processes@.take(k + 1).drop_last() =~= processes@.take(k as int));
                        lemma_rss_sum_prefix_bounded(processes@, k + 1);
                    }
                    total = total + processes[k].rss_bytes;
                    k = k + 1;
                }
                proof {
                    assert(processes@.take(processes@.len() as int) =~= processes@);
                }
                let count = processes.len();
                let result = ObservedMemoryTelemetry {
                    telemetry: TabTelemetry {
                        tab_id: String::from_str(tab_id),
                        renderer_bytes: total,
                        browser_bytes: 0,
                        gpu_bytes: 0,
                    },
                    attribution: MemoryAttribution::aggregate_process(count),
                    processes,
                };
                let copy = ObservedMemoryTelemetry {
                    telemetry: TabTelemetry {
                        tab_id: result.telemetry.tab_id.clone(),
                        renderer_bytes: result.telemetry.renderer_bytes,
                        browser_bytes: 0,
                        gpu_bytes: 0,
                    },
                    attribution: result.attribution.copy_attribution(),
                    processes: copy_processes(&result.processes),
                };
                self.cached = Some(copy);
                self.last_collected_ms = Some(now_ms);
                Some(result)
            },
        }
    }
}

/// A collector that collected at `collected_ms` serves its cache, retagged,
/// to every call less than the TTL later.
pub proof fn lemma_cache_served_within_ttl(
    c: LinuxProcessMemoryCollector,
    collected_ms: u64,
    now_ms: u64,
)
    requires
        c.cached_value() is Some,
        c.last_collected() == Some(collected_ms),
        collected_ms <= now_ms < collected_ms + MEMORY_CACHE_TTL_MS,
    ensures
        c.fresh_at(now_ms),
{
}

/// Once the TTL has passed since the last collection, the cache is never
/// served: a call rebuilds the aggregate from the scan it is given.
pub proof fn lemma_cache_stale_after_ttl(c: LinuxProcessMemoryCollector, now_ms: u64)
    requires
        c.last_collected() matches Some(t) && t + MEMORY_CACHE_TTL_MS <= now_ms,
    ensures
        !c.fresh_at(now_ms),
{
}

/// Partial sums never exceed the full sum.
proof fn lemma_rss_sum_prefix_bounded(ps: Seq<ProcessMemoryObservation>, k: int)
    requires
        0 <= k <= ps.len(),
    ensures
        rss_sum(ps.take(k)) <= rss_sum(ps),
    decreases ps.len() - k,
{
    if k < ps.len() {
        lemma_rss_sum_prefix_bounded(ps, k + 1);
        assert(ps.take(k + 1).drop_last() =~= ps.take(k));
    } else {
        assert(ps.take(k) =~= ps);
    }
}

/// Whether a scan can be collected from: its browser processes ordered by
/// pid, their resident sizes adding up within `u64`.
pub fn scan_fits(scan: &ProcessScan) -> (r: bool)
    ensures
        r == scan_collectable(*scan),
{
    let mut j: usize = 1;
    while j < scan.browser_processes.len()
        invariant
            1 <= j,
            forall|a: int, b: int|
                0 <= a < b < j && b < scan.browser_processes@.len() ==> scan.browser_processes@[a].pid
                    <= scan.browser_processes@[b].pid,
        decreases scan.browser_processes.len() - j,
    {
        if scan.browser_processes[j - 1].pid > scan.browser_processes[j].pid {
            return false;
        }
        proof {
            assert forall|a: int, b: int|
                0 <= a < b < j + 1 && b < scan.browser_processes@.len() implies scan.browser_processes@[a].pid
                    <= scan.browser_processes@[b].pid by {
                if b == j && a < j - 1 {
                    assert(scan.browser_processes@[a].pid <= scan.browser_processes@[j - 1].pid);
                }
            }
        }
        j = j + 1;
    }
    proof {
        assert(scan_ordered(*scan));
    }
    if scan.browser_processes.len() == 0 {
        proof {
            let one = scan_processes(*scan);
            assert(one.drop_last() =~= Seq::<ProcessMemoryObservation>::empty());
            assert(rss_sum(one.drop_last()) == 0);
            assert(rss_sum(one) == one.last().rss_bytes);
        }
        return true;
    }
    let ghost ps = scan.browser_processes@;
    let mut total: u64 = 0;
    let mut k: usize = 0;
    while k < scan.browser_processes.len()
        invariant
            k <= ps.len(),
            ps == scan.browser_processes@,
            ps.len() > 0,
            scan_processes(*scan) == ps,
            total == rss_sum(ps.take(k as int)),
        decreases scan.browser_processes.len() - k,
    {
        proof {
            assert(ps.take(k + 1).drop_last() =~= ps.take(k as int));
        }
        match total.checked_add(scan.browser_processes[k].rss_bytes) {
            Some(t) => {
                total = t;
            },
            None => {
                proof {
                    lemma_rss_sum_prefix_bounded(ps, k + 1);
                }
                return false;
            },
        }
        k = k + 1;
    }
    proof {
        assert(ps.take(ps.len() as int) =~= ps);
    }
    true
}

// ---------------------------------------------------------------------------
// Reading a scan of /proc
// ---------------------------------------------------------------------------
/// What the host read for one `/proc` entry: its pid, its command line
/// (NUL-separated arguments) and its `status` file, each when readable.
pub struct ProcEntry {
    pub pid: u32,
    pub cmdline: Option<String>,
    pub status: Option<String>,
}

/// An observation as plain values: pid, command and resident bytes.
pub open spec fn obs_view(o: ProcessMemoryObservation) -> (u32, Seq<char>, u64) {
    (o.pid, o.command@, o.rss_bytes)
}

/// The KiB count of the first "VmRSS:" line whose first word is a `u64`.
pub open spec fn rss_kib_of_lines(ls: Seq<Seq<char>>) -> Option<u64>
    decreases ls.len(),
{
    if ls.len() == 0 {
        None
    } else {
        let l = ls[0];
        let found = if "VmRSS:"@.is_prefix_of(l) {
            match first_word(l.subrange(6, l.len() as int)) {
                Some(w) => parsed_u64(w),
                None => None,
            }
        } else {
            None
        };
        if found is Some {
            found
        } else {
            rss_kib_of_lines(ls.drop_first())
        }
    }
}

/// The resident bytes a status file reports; a count too large for `u64`
/// bytes counts as unreadable.
pub open spec fn status_rss(status: Seq<char>) -> Option<u64> {
    match rss_kib_of_lines(text_lines_of(status)) {
        Some(k) => if k * 1024 <= u64::MAX {
            Some((k * 1024) as u64)
        } else {
            None
        },
        None => None,
    }
}

/// The resident bytes of an entry, 0 when its status gives none.
pub open spec fn entry_rss(status: Option<String>) -> u64 {
    match status {
        Some(st) => match status_rss(st@) {
            Some(b) => b,
            None => 0,
        },
        None => 0,
    }
}

/// The command line with its NUL separators turned into spaces (empty when
/// unreadable).
pub open spec fn entry_command(e: ProcEntry) -> Seq<char> {
    match e.cmdline {
        Some(c) => c@.map_values(|ch: char| if ch == '\0' { ' ' } else { ch }),
        None => Seq::empty(),
    }
}

/// A command that names webox or CEF, in any ASCII case.
pub open spec fn browser_command(c: Seq<char>) -> bool {
    let lower = c.map_values(|ch: char| ascii_lower(ch));
    contains_text(lower, "webox"@) || contains_text(lower, "cef"@)
}

/// The observation a browser entry gives: its pid, its command trimmed, and
/// its resident bytes.
pub open spec fn entry_observation(e: ProcEntry) -> (u32, Seq<char>, u64) {
    (e.pid, trim_end_ws(trim_start_ws(entry_command(e))), entry_rss(e.status))
}

/// The observations of the browser entries, in scan order.
pub open spec fn browser_observations(es: Seq<ProcEntry>) -> Seq<(u32, Seq<char>, u64)>
    decreases es.len(),
{
    if es.len() == 0 {
        Seq::empty()
    } else if browser_command(entry_command(es.last())) {
        browser_observations(es.drop_last()).push(entry_observation(es.last()))
    } else {
        browser_observations(es.drop_last())
    }
}

/// `x` inserted into `s` after every element whose pid is not larger.
pub open spec fn insert_by_pid(s: Seq<(u32, Seq<char>, u64)>, x: (u32, Seq<char>, u64)) -> Seq<
    (u32, Seq<char>, u64),
>
    decreases s.len(),
{
    if s.len() == 0 || s.last().0 <= x.0 {
        s.push(x)
    } else {
        insert_by_pid(s.drop_last(), x).push(s.last())
    }
}

/// The observations ordered by pid, keeping the scan order of equal pids
/// (what a stable sort by pid gives).
pub open spec fn sort_by_pid(s: Seq<(u32, Seq<char>, u64)>) -> Seq<(u32, Seq<char>, u64)>
    decreases s.len(),
{
    if s.len() == 0 {
        Seq::empty()
    } else {
        insert_by_pid(sort_by_pid(s.drop_last()), s.last())
    }
}

/// Inserting into a list ordered by pid keeps it ordered, adds one element,
/// and keeps the others.
pub proof fn lemma_insert_by_pid(s: Seq<(u32, Seq<char>, u64)>, x: (u32, Seq<char>, u64))
    requires
        forall|i: int, j: int| 0 <= i < j < s.len() ==> s[i].0 <= s[j].0,
    ensures
        insert_by_pid(s, x).len() == s.len() + 1,
        forall|i: int, j: int|
            0 <= i < j < s.len() + 1 ==> insert_by_pid(s, x)[i].0 <= insert_by_pid(s, x)[j].0,
        insert_by_pid(s, x).to_multiset() == s.to_multiset().insert(x),
    decreases s.len(),
{
    if s.len() == 0 || s.last().0 <= x.0 {
        assert(s.push(x).to_multiset() == s.to_multiset().insert(x)) by {
            s.to_multiset_ensures();
        }
    } else {
        let t = s.drop_last();
        lemma_insert_by_pid(t, x);
        let u = insert_by_pid(t, x);
        assert(insert_by_pid(s, x) == u.push(s.last()));
        assert forall|i: int, j: int| 0 <= i < j < s.len() + 1 implies insert_by_pid(s, x)[i].0
            <= insert_by_pid(s, x)[j].0 by {
            if j == s.len() {
                // every element of u is x or an element of t, all at most s.last()
                assert(u.to_multiset().count(u[i]) > 0) by {
                    u.to_multiset_ensures();
                    assert(u.contains(u[i]));
                }
                if u[i] != x {
                    assert(t.to_multiset().count(u[i]) > 0);
                    t.to_multiset_ensures();
                    let k = choose|k: int| 0 <= k < t.len() && t[k] == u[i];
                    assert(s[k] == t[k]);
                    assert(s[k].0 <= s[s.len() - 1].0);
                }
            }
        }
        assert(insert_by_pid(s, x).to_multiset() == s.to_multiset().insert(x)) by {
            u.to_multiset_ensures();
            s.to_multiset_ensures();
            t.to_multiset_ensures();
            assert(s == t.push(s.last()));
        }
    }
}

/// The observations of a scan come out ordered by pid, each once.
pub proof fn lemma_sort_by_pid(s: Seq<(u32, Seq<char>, u64)>)
    ensures
        sort_by_pid(s).len() == s.len(),
        forall|i: int, j: int| 0 <= i < j < s.len() ==> sort_by_pid(s)[i].0 <= sort_by_pid(s)[j].0,
        sort_by_pid(s).to_multiset() == s.to_multiset(),
    decreases s.len(),
{
    if s.len() > 0 {
        lemma_sort_by_pid(s.drop_last());
        lemma_insert_by_pid(sort_by_pid(s.drop_last()), s.last());
        assert(s.to_multiset() == s.drop_last().to_multiset().insert(s.last())) by {
            s.to_multiset_ensures();
            s.drop_last().to_multiset_ensures();
            assert(s == s.drop_last().push(s.last()));
        }
    } else {
        assert(sort_by_pid(s) =~= s);
    }
}

/// The pid a `/proc` entry's name gives, when it names a process: what
/// `str::parse::<u32>` accepts.
pub open spec fn pid_of_name(name: Seq<char>) -> Option<u32> {
    match parsed_u64(name) {
        Some(n) => if n <= u32::MAX {
            Some(n as u32)
        } else {
            None
        },
        None => None,
    }
}

/// The pid of a `/proc` entry named `name`, if it is a process's entry.
pub fn proc_pid(name: &str) -> (r: Option<u32>)
    ensures
        r == pid_of_name(name@),
{
    match text_parse_u64(name) {
        Some(n) => if n <= u32::MAX as u64 {
            Some(n as u32)
        } else {
            None
        },
        None => None,
    }
}

/// The resident bytes a `status` file reports: the first "VmRSS:" line
/// whose first word is a count of KiB.
pub fn status_rss_bytes(status: &str) -> (r: Option<u64>)
    ensures
        r == status_rss(status@),
{
    let lines = text_lines(status);
    let ghost ls = lines.deep_view();
    let mut k: usize = 0;
    let mut kib: Option<u64> = None;
    proof {
        assert(ls.skip(0) =~= ls);
    }
    while k < lines.len() && kib.is_none()
        invariant
            k <= lines@.len(),
            ls == lines.deep_view(),
            ls.len() == lines@.len(),
            ls == text_lines_of(status@),
            kib is None ==> rss_kib_of_lines(ls) == rss_kib_of_lines(ls.skip(k as int)),
            kib is Some ==> kib == rss_kib_of_lines(ls),
        decreases lines.len() - k,
    {
        let ghost rest = ls.skip(k as int);
        proof {
            assert(rest[0] == lines@[k as int]@);
            assert(rest.drop_first() =~= ls.skip(k + 1));
            reveal_strlit("VmRSS:");
        }
        let found = match text_strip_prefix(lines[k].as_str(), "VmRSS:") {
            Some(tail) => match text_first_word(tail.as_str()) {
                Some(w) => text_parse_u64(w.as_str()),
                None => None,
            },
            None => None,
        };
        kib = found;
        k = k + 1;
    }
    proof {
        if kib is None {
            assert(ls.skip(k as int) =~= Seq::<Seq<char>>::empty());
        }
    }
    match kib {
        Some(n) => n.checked_mul(1024),
        None => None,
    }
}

/// Inserts `o` after every observation whose pid is not larger.
fn insert_observation(out: &mut Vec<ProcessMemoryObservation>, o: ProcessMemoryObservation)
    ensures
        final(out)@.map_values(|p: ProcessMemoryObservation| obs_view(p)) == insert_by_pid(
            old(out)@.map_values(|p: ProcessMemoryObservation| obs_view(p)),
            obs_view(o),
        ),
{
    let ghost s = out@.map_values(|p: ProcessMemoryObservation| obs_view(p));
    let mut j: usize = out.len();
    proof {
        assert(s.take(j as int) =~= s);
        assert(s.skip(j as int) =~= Seq::<(u32, Seq<char>, u64)>::empty());
        assert(insert_by_pid(s, obs_view(o)) =~= insert_by_pid(s.take(j as int), obs_view(o)) + s.skip(j as int));
    }
    while j > 0 && out[j - 1].pid > o.pid
        invariant
            j <= out@.len(),
            out@ == old(out)@,
            s == out@.map_values(|p: ProcessMemoryObservation| obs_view(p)),
            insert_by_pid(s, obs_view(o)) == insert_by_pid(s.take(j as int), obs_view(o)) + s.skip(
                j as int,
            ),
        decreases j,
    {
        proof {
            let t = s.take(j as int);
            assert(t.drop_last() =~= s.take(j - 1));
            assert(t.last() == s[j - 1]);
            assert(seq![s[j - 1]] + s.skip(j as int) =~= s.skip(j - 1));
            assert(insert_by_pid(t, obs_view(o)) == insert_by_pid(s.take(j - 1), obs_view(o)).push(
                s[j - 1],
            ));
            assert(insert_by_pid(s.take(j - 1), obs_view(o)).push(s[j - 1]) + s.skip(j as int)
                =~= insert_by_pid(s.take(j - 1), obs_view(o)) + s.skip(j - 1));
        }
        j = j - 1;
    }
    proof {
        assert(insert_by_pid(s.take(j as int), obs_view(o)) == s.take(j as int).push(obs_view(o)));
    }
    out.insert(j, o);
    proof {
        assert(out@.map_values(|p: ProcessMemoryObservation| obs_view(p)) =~= s.take(j as int).push(
            obs_view(o),
        ) + s.skip(j as int));
    }
}

/// A scan from what the host read under `/proc`: the entries whose command
/// names webox or CEF, ordered by pid, and the current process.
pub fn process_scan(entries: Vec<ProcEntry>, current_pid: u32, current_status: Option<String>) -> (r:
    ProcessScan)
    ensures
        r.browser_processes@.map_values(|p: ProcessMemoryObservation| obs_view(p)) == sort_by_pid(
            browser_observations(entries@),
        ),
        r.current_process.pid == current_pid,
        r.current_process.command@ == "current webox process"@,
        r.current_process.rss_bytes == entry_rss(current_status),
        scan_ordered(r),
{
    let mut out: Vec<ProcessMemoryObservation> = Vec::new();
    let mut k: usize = 0;
    while k < entries.len()
        invariant
            k <= entries@.len(),
            out@.map_values(|p: ProcessMemoryObservation| obs_view(p)) == sort_by_pid(
                browser_observations(entries@.take(k as int)),
            ),
        decreases entries.len() - k,
    {
        let e = &entries[k];
        proof {
            assert(entries@.take(k + 1).drop_last() =~= entries@.take(k as int));
            assert(entries@.take(k + 1).last() == entries@[k as int]);
        }
        let command = match &e.cmdline {
            Some(c) => text_nul_to_space(c.as_str()),
            None => String::new(),
        };
        proof {
            assert(command@ == entry_command(*e));
        }
        let lower = text_ascii_lowercase(command.as_str());
        if text_contains(lower.as_str(), "webox") || text_contains(lower.as_str(), "cef") {
            let rss_bytes = match &e.status {
                Some(st) => match status_rss_bytes(st.as_str()) {
                    Some(b) => b,
                    None => 0,
                },
                None => 0,
            };
            let o = ProcessMemoryObservation {
                pid: e.pid,
                command: text_trim(command.as_str()),
                rss_bytes,
            };
            proof {
                assert(obs_view(o) == entry_observation(*e));
                let bo = browser_observations(entries@.take(k as int));
                assert(browser_observations(entries@.take(k + 1)) == bo.push(entry_observation(*e)));
                assert(bo.push(entry_observation(*e)).drop_last() =~= bo);
            }
            insert_observation(&mut out, o);
        } else {
            proof {
                assert(browser_observations(entries@.take(k + 1)) == browser_observations(
                    entries@.take(k as int),
                ));
            }
        }
        k = k + 1;
    }
    proof {
        assert(entries@.take(entries@.len() as int) =~= entries@);
        let bo = browser_observations(entries@);
        lemma_sort_by_pid(bo);
        let m = out@.map_values(|p: ProcessMemoryObservation| obs_view(p));
        assert forall|a: int, b: int| 0 <= a < b < out@.len() implies out@[a].pid <= out@[b].pid by {
            assert(m[a].0 == out@[a].pid);
            assert(m[b].0 == out@[b].pid);
        }
    }
    let current_rss = match &current_status {
        Some(st) => match status_rss_bytes(st.as_str()) {
            Some(b) => b,
            None => 0,
        },
        None => 0,
    };
    ProcessScan {
        browser_processes: out,
        current_process: ProcessMemoryObservation {
            pid: current_pid,
            command: String::from_str("current webox process"),
            rss_bytes: current_rss,
        },
    }
}

} // verus!
