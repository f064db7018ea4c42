//! The workload harness: the representative workloads, how an observed run
//! of one is classified, and the Markdown report of a harness run.
//!
//! Observing a workload means waiting on a live browser for its events; the
//! host does the waiting and hands the observed snapshot and events to the
//! functions here.
use crate::config::{
    default_tab_target, development_shape, path_is_absolute, is_absolute_path, runtime_mode_name,
    AppConfig, BrowserRuntimeMode, PlatformTarget,
};
use crate::engine::{
    frame_fits, has_instance, lemma_instance_index_valid, HostMouseButton, HostSurfaceInputEvent, WeboxEngine,
    backend_name, event_kind_name, push_text, readiness_name, settings_from, start_outcome, BrowserInstanceEvent,
    BrowserInstanceEventKind, ReadinessProbe, RuntimeReadiness,
};
use crate::memory::{action_name, level_name, system_summary, MitigationAction};
use crate::runtime_api::{
    text_err, EmbeddedRuntime, EmbeddedRuntimeConfig, RuntimeBrowserSnapshot,
};
use crate::text::{
    bool_text, bool_word, contains_text, decimal, decimal_text, decimal_text_wide, joined,
    joined_path, join_texts, path_join, text_contains, text_starts_with,
};
use crate::ui::opt_view;
use vstd::prelude::*;

verus! {

pub const MIB: u64 = 1048576;

pub const GIB: u64 = 1073741824;

#[derive(Clone, Copy)]
pub struct WorkloadCase {
    pub id: &'static str,
    pub category: &'static str,
    pub title: &'static str,
    pub fixture_path: &'static str,
    pub renderer_bytes: u64,
    pub browser_bytes: u64,
    pub gpu_bytes: u64,
    pub compatibility: &'static str,
    pub proof: WorkloadProof,
}

#[derive(Clone, Copy, Debug, PartialEq, Eq, Structural)]
pub enum WorkloadProof {
    RenderOnly,
    InputInteraction,
    TabState,
    MemoryPressure,
    NavigationFailure,
}

#[derive(Clone, Copy, Debug, PartialEq, Eq, Structural)]
pub enum RuntimeOutcome {
    Success,
    CompatibilityFailure,
    EngineStartupFailure,
    HostSurfaceFailure,
    BrowserCrash,
    Timeout,
    ConstrainedMemory,
}

pub struct HarnessConfig {
    pub available_memory_bytes: u64,
    pub output_path: &'static str,
    pub runtime_mode: BrowserRuntimeMode,
}

pub struct WorkloadObservation {
    pub workload: WorkloadCase,
    pub outcome: RuntimeOutcome,
    pub failure_class: &'static str,
    pub final_url: String,
    pub title_signal: String,
    pub render_proof: String,
    pub input_proof: Option<String>,
    pub elapsed_ms: u128,
    pub events: Vec<BrowserInstanceEvent>,
    pub snapshot: RuntimeBrowserSnapshot,
}

pub open spec fn outcome_name(o: RuntimeOutcome) -> Seq<char> {
    match o {
        RuntimeOutcome::Success => "Success"@,
        RuntimeOutcome::CompatibilityFailure => "CompatibilityFailure"@,
        RuntimeOutcome::EngineStartupFailure => "EngineStartupFailure"@,
        RuntimeOutcome::HostSurfaceFailure => "HostSurfaceFailure"@,
        RuntimeOutcome::BrowserCrash => "BrowserCrash"@,
        RuntimeOutcome::Timeout => "Timeout"@,
        RuntimeOutcome::ConstrainedMemory => "ConstrainedMemory"@,
    }
}

/// The failure class a report gives an outcome.
pub open spec fn failure_class_of(o: RuntimeOutcome) -> Seq<char> {
    match o {
        RuntimeOutcome::Success => "success"@,
        RuntimeOutcome::CompatibilityFailure => "compatibility-failure"@,
        RuntimeOutcome::EngineStartupFailure => "engine-startup-failure"@,
        RuntimeOutcome::HostSurfaceFailure => "host-surface-failure"@,
        RuntimeOutcome::BrowserCrash => "browser-crash"@,
        RuntimeOutcome::Timeout => "timeout"@,
        RuntimeOutcome::ConstrainedMemory => "constrained-memory"@,
    }
}

impl RuntimeOutcome {
    pub fn debug_name(&self) -> (s: &'static str)
        ensures
            s@ == outcome_name(*self),
    {
        match self {
            RuntimeOutcome::Success => "Success",
            RuntimeOutcome::CompatibilityFailure => "CompatibilityFailure",
            RuntimeOutcome::EngineStartupFailure => "EngineStartupFailure",
            RuntimeOutcome::HostSurfaceFailure => "HostSurfaceFailure",
            RuntimeOutcome::BrowserCrash => "BrowserCrash",
            RuntimeOutcome::Timeout => "Timeout",
            RuntimeOutcome::ConstrainedMemory => "ConstrainedMemory",
        }
    }
}

/// Total bytes a workload is expected to use.
pub open spec fn workload_total(w: WorkloadCase) -> int {
    w.renderer_bytes + w.browser_bytes + w.gpu_bytes
}

/// Some event has kind `k`.
pub open spec fn has_event_kind(events: Seq<BrowserInstanceEvent>, k: BrowserInstanceEventKind) -> bool {
    exists|i: int| 0 <= i < events.len() && (#[trigger] events[i]).kind == k
}

/// The outcome of an observed run, by the first rule that applies: a
/// timeout, a crash, a failed or missing render, a navigation failure, a
/// workload larger than a constrained system can hold, else success.
pub open spec fn classify(
    w: WorkloadCase,
    snapshot: RuntimeBrowserSnapshot,
    events: Seq<BrowserInstanceEvent>,
    system_meets_target: bool,
    timed_out: bool,
) -> RuntimeOutcome {
    if timed_out {
        RuntimeOutcome::Timeout
    } else if has_event_kind(events, BrowserInstanceEventKind::Crashed) {
        RuntimeOutcome::BrowserCrash
    } else if snapshot.browser.surface.host_surface_failure is Some
        || snapshot.browser.surface.render_evidence is None {
        RuntimeOutcome::HostSurfaceFailure
    } else if has_event_kind(events, BrowserInstanceEventKind::NavigationFailed) {
        RuntimeOutcome::CompatibilityFailure
    } else if !system_meets_target && workload_total(w) > 6 * GIB {
        RuntimeOutcome::ConstrainedMemory
    } else {
        RuntimeOutcome::Success
    }
}

fn any_event_kind(events: &[BrowserInstanceEvent], k: BrowserInstanceEventKind) -> (r: bool)
    ensures
        r == has_event_kind(events@, k),
{
    let mut i: usize = 0;
    while i < events.len()
        invariant
            i <= events@.len(),
            forall|j: int| 0 <= j < i ==> (#[trigger] events@[j]).kind != k,
        decreases events.len() - i,
    {
        if events[i].kind == k {
            return true;
        }
        i = i + 1;
    }
    false
}

/// Classifies an observed run of `workload`.
pub fn classify_observed_outcome(
    workload: WorkloadCase,
    snapshot: &RuntimeBrowserSnapshot,
    events: &[BrowserInstanceEvent],
    system_meets_target: bool,
    timed_out: bool,
) -> (r: RuntimeOutcome)
    requires
        workload_total(workload) <= u64::MAX,
    ensures
        r == classify(workload, *snapshot, events@, system_meets_target, timed_out),
{
    if timed_out {
        return RuntimeOutcome::Timeout;
    }
    if any_event_kind(events, BrowserInstanceEventKind::Crashed) {
        return RuntimeOutcome::BrowserCrash;
    }
    if snapshot.browser.surface.host_surface_failure.is_some()
        || snapshot.browser.surface.render_evidence.is_none() {
        return RuntimeOutcome::HostSurfaceFailure;
    }
    if any_event_kind(events, BrowserInstanceEventKind::NavigationFailed) {
        return RuntimeOutcome::CompatibilityFailure;
    }
    if !system_meets_target && workload.renderer_bytes + workload.browser_bytes + workload.gpu_bytes
        > 6 * GIB {
        return RuntimeOutcome::ConstrainedMemory;
    }
    RuntimeOutcome::Success
}

/// The failure class a report gives an outcome.
pub fn failure_class(outcome: RuntimeOutcome) -> (s: &'static str)
    ensures
        s@ == failure_class_of(outcome),
{
    match outcome {
        RuntimeOutcome::Success => "success",
        RuntimeOutcome::CompatibilityFailure => "compatibility-failure",
        RuntimeOutcome::EngineStartupFailure => "engine-startup-failure",
        RuntimeOutcome::HostSurfaceFailure => "host-surface-failure",
        RuntimeOutcome::BrowserCrash => "browser-crash",
        RuntimeOutcome::Timeout => "timeout",
        RuntimeOutcome::ConstrainedMemory => "constrained-memory",
    }
}

/// The summaries of the events, in order.
pub open spec fn summaries(events: Seq<BrowserInstanceEvent>) -> Seq<Seq<char>> {
    events.map_values(|e: BrowserInstanceEvent| e.summary@)
}

/// The event summaries, one per line, mention every kind of routed input.
pub open spec fn input_proof_holds(events: Seq<BrowserInstanceEvent>) -> bool {
    let all = joined(summaries(events), "\n"@);
    &&& contains_text(all, "focus input"@)
    &&& contains_text(all, "resize input"@)
    &&& contains_text(all, "pointer move"@)
    &&& contains_text(all, "pointer button"@)
    &&& contains_text(all, "text input"@)
    &&& contains_text(all, "wheel input"@)
}

/// Whether the events show that every kind of input was routed.
pub fn input_proof_observed(events: &[BrowserInstanceEvent]) -> (r: bool)
    ensures
        r == input_proof_holds(events@),
{
    let mut lines: Vec<String> = Vec::new();
    let mut i: usize = 0;
    while i < events.len()
        invariant
            i <= events@.len(),
            lines.deep_view() == summaries(events@).take(i as int),
        decreases events.len() - i,
    {
        push_text(&mut lines, events[i].summary.clone());
        proof {
            assert(lines.deep_view() =~= summaries(events@).take(i + 1));
        }
        i = i + 1;
    }
    proof {
        assert(summaries(events@).take(i as int) =~= summaries(events@));
    }
    let all = join_texts(&lines, "\n");
    text_contains(all.as_str(), "focus input") && text_contains(all.as_str(), "resize input")
        && text_contains(all.as_str(), "pointer move") && text_contains(
        all.as_str(),
        "pointer button",
    ) && text_contains(all.as_str(), "text input") && text_contains(all.as_str(), "wheel input")
}

/// The URL a fixture is loaded from: web URLs as they are, other paths as
/// `file://` URLs, relative ones taken from `current_dir` (or "." when the
/// current directory is unknown).
pub open spec fn fixture_url(path: Seq<char>, current_dir: Option<Seq<char>>) -> Seq<char> {
    if "http://"@.is_prefix_of(path) || "https://"@.is_prefix_of(path) {
        path
    } else {
        "file://"@ + if is_absolute_path(path) {
            path
        } else {
            joined_path(
                match current_dir {
                    Some(d) => d,
                    None => "."@,
                },
                path,
            )
        }
    }
}

/// The URL a fixture is loaded from; see `fixture_url`.
pub fn resolve_fixture_url(fixture_path: &str, current_dir: Option<String>) -> (r: String)
    ensures
        r@ == fixture_url(fixture_path@, opt_view(current_dir)),
{
    if text_starts_with(fixture_path, "http://") || text_starts_with(fixture_path, "https://") {
        return String::from_str(fixture_path);
    }
    let absolute = if path_is_absolute(fixture_path) {
        String::from_str(fixture_path)
    } else {
        match current_dir {
            Some(d) => path_join(d.as_str(), fixture_path),
            None => path_join(".", fixture_path),
        }
    };
    String::from_str("file://").concat(absolute.as_str())
}

/// The representative workloads, in the order a run observes them.
pub fn workloads() -> (r: Vec<WorkloadCase>)
    ensures
        r@.len() == 7,
        forall|i: int| 0 <= i < r@.len() ==> workload_total(#[trigger] r@[i]) <= u64::MAX,
        r@[0].id@ == "standards-rendering"@ && r@[0].proof == WorkloadProof::RenderOnly
            && r@[0].renderer_bytes == 512 * MIB && r@[0].browser_bytes == 128 * MIB
            && r@[0].gpu_bytes == 64 * MIB,
        r@[1].id@ == "large-dom"@ && r@[1].proof == WorkloadProof::RenderOnly
            && r@[1].renderer_bytes == 2 * GIB && r@[1].browser_bytes == 512 * MIB
            && r@[1].gpu_bytes == 128 * MIB,
        r@[2].id@ == "interaction"@ && r@[2].proof == WorkloadProof::InputInteraction
            && r@[2].renderer_bytes == 768 * MIB && r@[2].browser_bytes == 128 * MIB
            && r@[2].gpu_bytes == 64 * MIB,
        r@[3].id@ == "tab-state"@ && r@[3].proof == WorkloadProof::TabState
            && r@[3].renderer_bytes == 512 * MIB && r@[3].browser_bytes == 128 * MIB
            && r@[3].gpu_bytes == 64 * MIB,
        r@[4].id@ == "webgl-canvas"@ && r@[4].proof == WorkloadProof::RenderOnly
            && r@[4].renderer_bytes == 3 * GIB && r@[4].browser_bytes == 768 * MIB
            && r@[4].gpu_bytes == GIB,
        r@[5].id@ == "worker-memory"@ && r@[5].proof == WorkloadProof::MemoryPressure
            && r@[5].renderer_bytes == 6 * GIB && r@[5].browser_bytes == GIB
            && r@[5].gpu_bytes == 256 * MIB,
        r@[6].id@ == "navigation-failure"@ && r@[6].proof == WorkloadProof::NavigationFailure
            && r@[6].renderer_bytes == 256 * MIB && r@[6].browser_bytes == 128 * MIB
            && r@[6].gpu_bytes == 32 * MIB && r@[6].fixture_path@
            == "http://127.0.0.1:9/webox-intentional-failure"@,
{
    let mut v: Vec<WorkloadCase> = Vec::new();
    v.push(
        WorkloadCase {
            id: "standards-rendering",
            category: "standards-rendering",
            title: "Standards Rendering Fixture",
            fixture_path: "validation/workloads/standards-rendering.html",
            renderer_bytes: 512 * MIB,
            browser_bytes: 128 * MIB,
            gpu_bytes: 64 * MIB,
            compatibility: "loads deterministic HTML, CSS, DOM, media query, and paint proof",
            proof: WorkloadProof::RenderOnly,
        },
    );
    v.push(
        WorkloadCase {
            id: "large-dom",
            category: "large-data-visualization",
            title: "Large DOM Fixture",
            fixture_path: "validation/workloads/large-dom.html",
            renderer_bytes: 2 * GIB,
            browser_bytes: 512 * MIB,
            gpu_bytes: 128 * MIB,
            compatibility: "loads representative large DOM and CSS grid content",
            proof: WorkloadProof::RenderOnly,
        },
    );
    v.push(
        WorkloadCase {
            id: "interaction",
            category: "input-interaction",
            title: "Interaction Fixture",
            fixture_path: "validation/workloads/interaction-fixture.html",
            renderer_bytes: 768 * MIB,
            browser_bytes: 128 * MIB,
            gpu_bytes: 64 * MIB,
            compatibility: "proves routed click, text, scroll, focus, and resize evidence",
            proof: WorkloadProof::InputInteraction,
        },
    );
    v.push(
        WorkloadCase {
            id: "tab-state",
            category: "tab-state-preservation",
            title: "Tab State Fixture",
            fixture_path: "validation/workloads/tab-state-preservation.html",
            renderer_bytes: 512 * MIB,
            browser_bytes: 128 * MIB,
            gpu_bytes: 64 * MIB,
            compatibility: "proves local tab state and browser storage surfaces are active",
            proof: WorkloadProof::TabState,
        },
    );
    v.push(
        WorkloadCase {
            id: "webgl-canvas",
            category: "unity-webgl",
            title: "Canvas Fixture",
            fixture_path: "validation/workloads/webgl-canvas.html",
            renderer_bytes: 3 * GIB,
            browser_bytes: 768 * MIB,
            gpu_bytes: GIB,
            compatibility: "renders canvas and GPU-oriented content representative of Unity WebGL scenes",
            proof: WorkloadProof::RenderOnly,
        },
    );
    v.push(
        WorkloadCase {
            id: "worker-memory",
            category: "wasm-heavy-tool",
            title: "Worker Memory Fixture",
            fixture_path: "validation/workloads/worker-memory.html",
            renderer_bytes: 6 * GIB,
            browser_bytes: GIB,
            gpu_bytes: 256 * MIB,
            compatibility: "exercises worker and memory allocation patterns found in WASM-heavy tools",
            proof: WorkloadProof::MemoryPressure,
        },
    );
    v.push(
        WorkloadCase {
            id: "navigation-failure",
            category: "navigation-failure",
            title: "Intentional Navigation Failure",
            fixture_path: "http://127.0.0.1:9/webox-intentional-failure",
            renderer_bytes: 256 * MIB,
            browser_bytes: 128 * MIB,
            gpu_bytes: 32 * MIB,
            compatibility: "proves observed navigation failure classification",
            proof: WorkloadProof::NavigationFailure,
        },
    );
    v
}

/// The text of an optional value, "none" when there is none.
pub open spec fn or_none(o: Option<String>) -> Seq<char> {
    match o {
        Some(s) => s@,
        None => "none"@,
    }
}

/// The names of the actions, comma separated.
pub open spec fn actions_text(actions: Seq<MitigationAction>) -> Seq<char> {
    joined(actions.map_values(|a: MitigationAction| action_name(a)), ", "@)
}

/// The kinds of the events, comma separated.
pub open spec fn event_kinds_text(events: Seq<BrowserInstanceEvent>) -> Seq<char> {
    joined(events.map_values(|e: BrowserInstanceEvent| event_kind_name(e.kind)), ", "@)
}

pub open spec fn target_outcome_text(meets: bool) -> Seq<char> {
    if meets {
        "system satisfies configured headroom target"@
    } else {
        "system is below configured headroom target"@
    }
}

/// The report section of one observed workload.
pub open spec fn workload_lines(o: WorkloadObservation, meets: bool) -> Seq<Seq<char>> {
    let w = o.workload;
    let b = o.snapshot.browser;
    let d = o.snapshot.policy_decision;
    seq![
        "### "@ + w.title@,
        "- Workload id: "@ + w.id@,
        "- Category: "@ + w.category@,
        "- Source: "@ + w.fixture_path@,
        "- Browser instance: "@ + b.id@,
        "- Runtime backend: "@ + backend_name(b.backend),
        "- Compatibility note: "@ + w.compatibility@,
        "- Outcome: "@ + outcome_name(o.outcome),
        "- Failure class: "@ + o.failure_class@,
        "- Final URL: "@ + o.final_url@,
        "- Title/readiness signal: "@ + o.title_signal@,
        "- Render proof: "@ + o.render_proof@,
    ] + match o.input_proof {
        Some(p) => seq!["- Input proof: "@ + p@],
        None => Seq::empty(),
    } + seq![
        "- Elapsed ms: "@ + decimal(o.elapsed_ms as nat),
        "- Memory total bytes: "@ + decimal(d.event.total_bytes as nat),
        "- Pressure level: "@ + level_name(d.event.level),
        "- Actions: "@ + actions_text(d.actions@),
        "- UI indicator: "@ + or_none(b.memory_indicator),
        "- Failure state: "@ + or_none(b.failure_state),
        "- Memory attribution: "@ + or_none(b.memory_attribution),
        "- Surface frame: "@ + decimal(b.surface.frame_token as nat) + " ("@
            + b.surface.last_frame_label@ + ")"@,
        "- Observed events: "@ + event_kinds_text(o.events@),
        "- Target outcome: "@ + target_outcome_text(meets),
        Seq::empty(),
    ]
}

fn or_none_text(o: &Option<String>) -> (r: String)
    ensures
        r@ == or_none(*o),
{
    match o {
        Some(s) => s.clone(),
        None => String::from_str("none"),
    }
}

fn actions_joined(actions: &Vec<MitigationAction>) -> (r: String)
    ensures
        r@ == actions_text(actions@),
{
    let mut names: Vec<String> = Vec::new();
    let mut i: usize = 0;
    let ghost all = actions@.map_values(|a: MitigationAction| action_name(a));
    while i < actions.len()
        invariant
            i <= actions@.len(),
            all == actions@.map_values(|a: MitigationAction| action_name(a)),
            names.deep_view() == all.take(i as int),
        decreases actions.len() - i,
    {
        push_text(&mut names, String::from_str(actions[i].debug_name()));
        proof {
            assert(names.deep_view() =~= all.take(i + 1));
        }
        i = i + 1;
    }
    proof {
        assert(all.take(i as int) =~= all);
    }
    join_texts(&names, ", ")
}

fn event_kinds_joined(events: &Vec<BrowserInstanceEvent>) -> (r: String)
    ensures
        r@ == event_kinds_text(events@),
{
    let mut names: Vec<String> = Vec::new();
    let mut i: usize = 0;
    let ghost all = events@.map_values(|e: BrowserInstanceEvent| event_kind_name(e.kind));
    while i < events.len()
        invariant
            i <= events@.len(),
            all == events@.map_values(|e: BrowserInstanceEvent| event_kind_name(e.kind)),
            names.deep_view() == all.take(i as int),
        decreases events.len() - i,
    {
        push_text(&mut names, String::from_str(events[i].kind.debug_name()));
        proof {
            assert(names.deep_view() =~= all.take(i + 1));
        }
        i = i + 1;
    }
    proof {
        assert(all.take(i as int) =~= all);
    }
    join_texts(&names, ", ")
}

/// Appends the report section of an observed workload.
pub fn append_workload_result(
    lines: &mut Vec<String>,
    observation: &WorkloadObservation,
    system_meets_target: bool,
)
    ensures
        final(lines).deep_view() == old(lines).deep_view() + workload_lines(
            *observation,
            system_meets_target,
        ),
{
    let ghost start = lines.deep_view();
    let w = observation.workload;
    let b = &observation.snapshot.browser;
    let d = &observation.snapshot.policy_decision;
    push_text(lines, String::from_str("### ").concat(w.title));
    push_text(lines, String::from_str("- Workload id: ").concat(w.id));
    push_text(lines, String::from_str("- Category: ").concat(w.category));
    push_text(lines, String::from_str("- Source: ").concat(w.fixture_path));
    push_text(lines, String::from_str("- Browser instance: ").concat(b.id.as_str()));
    push_text(lines, String::from_str("- Runtime backend: ").concat(b.backend.debug_name()));
    push_text(lines, String::from_str("- Compatibility note: ").concat(w.compatibility));
    push_text(lines, String::from_str("- Outcome: ").concat(observation.outcome.debug_name()));
    push_text(lines, String::from_str("- Failure class: ").concat(observation.failure_class));
    push_text(lines, String::from_str("- Final URL: ").concat(observation.final_url.as_str()));
    push_text(
        lines,
        String::from_str("- Title/readiness signal: ").concat(observation.title_signal.as_str()),
    );
    push_text(lines, String::from_str("- Render proof: ").concat(observation.render_proof.as_str()));
    let ghost mid = lines.deep_view();
    match &observation.input_proof {
        Some(p) => {
            push_text(lines, String::from_str("- Input proof: ").concat(p.as_str()));
        },
        None => {},
    }
    let ghost after_proof = lines.deep_view();
    push_text(
        lines,
        String::from_str("- Elapsed ms: ").concat(decimal_text_wide(observation.elapsed_ms).as_str()),
    );
    push_text(
        lines,
        String::from_str("- Memory total bytes: ").concat(
            decimal_text(d.event.total_bytes).as_str(),
        ),
    );
    push_text(lines, String::from_str("- Pressure level: ").concat(d.event.level.debug_name()));
    push_text(lines, String::from_str("- Actions: ").concat(actions_joined(&d.actions).as_str()));
    push_text(
        lines,
        String::from_str("- UI indicator: ").concat(or_none_text(&b.memory_indicator).as_str()),
    );
    push_text(
        lines,
        String::from_str("- Failure state: ").concat(or_none_text(&b.failure_state).as_str()),
    );
    push_text(
        lines,
        String::from_str("- Memory attribution: ").concat(
            or_none_text(&b.memory_attribution).as_str(),
        ),
    );
    push_text(
        lines,
        String::from_str("- Surface frame: ").concat(decimal_text(b.surface.frame_token).as_str()).concat(
            " (",
        ).concat(b.surface.last_frame_label.as_str()).concat(")"),
    );
    push_text(
        lines,
        String::from_str("- Observed events: ").concat(
            event_kinds_joined(&observation.events).as_str(),
        ),
    );
    push_text(
        lines,
        String::from_str("- Target outcome: ").concat(
            if system_meets_target {
                "system satisfies configured headroom target"
            } else {
                "system is below configured headroom target"
            },
        ),
    );
    push_text(lines, String::new());
    proof {
        let o = *observation;
        let spec_lines = workload_lines(o, system_meets_target);
        assert(lines.deep_view() =~= start + spec_lines);
    }
}

/// The observation of a workload run from what the host observed: the
/// memory snapshot, the events, whether the system meets the target, and
/// whether and after how long the wait ended.
pub fn workload_observation(
    workload: WorkloadCase,
    snapshot: RuntimeBrowserSnapshot,
    events: Vec<BrowserInstanceEvent>,
    system_meets_target: bool,
    timed_out: bool,
    elapsed_ms: u128,
) -> (r: WorkloadObservation)
    requires
        workload_total(workload) <= u64::MAX,
    ensures
        r.workload == workload,
        r.outcome == classify(workload, snapshot, events@, system_meets_target, timed_out),
        r.failure_class@ == failure_class_of(r.outcome),
        r.final_url == snapshot.browser.url,
        r.title_signal == snapshot.browser.title,
        r.render_proof@ == match snapshot.browser.surface.render_evidence {
            Some(e) => e@,
            None => "missing render evidence"@,
        },
        workload.proof != WorkloadProof::InputInteraction ==> r.input_proof is None,
        workload.proof == WorkloadProof::InputInteraction ==> (r.input_proof matches Some(p) && p@
            == if input_proof_holds(events@) {
            "pointer, click, wheel, focus, resize, and text input were routed and observed"@
        } else {
            "input proof missing explicit routed input observations"@
        }),
        r.elapsed_ms == elapsed_ms,
        r.events@ == events@,
        r.snapshot == snapshot,
{
    let outcome = classify_observed_outcome(
        workload,
        &snapshot,
        events.as_slice(),
        system_meets_target,
        timed_out,
    );
    let final_url = snapshot.browser.url.clone();
    let title_signal = snapshot.browser.title.clone();
    let render_proof = match &snapshot.browser.surface.render_evidence {
        Some(e) => e.clone(),
        None => String::from_str("missing render evidence"),
    };
    let input_proof = match workload.proof {
        WorkloadProof::InputInteraction => {
            if input_proof_observed(events.as_slice()) {
                Some(
                    String::from_str(
                        "pointer, click, wheel, focus, resize, and text input were routed and observed",
                    ),
                )
            } else {
                Some(String::from_str("input proof missing explicit routed input observations"))
            }
        },
        _ => None,
    };
    WorkloadObservation {
        workload,
        outcome,
        failure_class: failure_class(outcome),
        final_url,
        title_signal,
        render_proof,
        input_proof,
        elapsed_ms,
        events,
        snapshot,
    }
}

/// The input a run routes at step `k` to prove input handling.
pub open spec fn is_interaction_input(k: int, e: HostSurfaceInputEvent) -> bool {
    if k == 0 {
        e == HostSurfaceInputEvent::Focus { focused: true }
    } else if k == 1 {
        e == HostSurfaceInputEvent::Resize { width: 1440, height: 900 }
    } else if k == 2 {
        e == HostSurfaceInputEvent::PointerMove { x: 96, y: 96 }
    } else if k == 3 {
        e == HostSurfaceInputEvent::PointerButton {
            x: 96,
            y: 96,
            button: HostMouseButton::Left,
            pressed: true,
            click_count: 1,
        }
    } else if k == 4 {
        e == HostSurfaceInputEvent::PointerButton {
            x: 96,
            y: 96,
            button: HostMouseButton::Left,
            pressed: false,
            click_count: 1,
        }
    } else if k == 5 {
        e matches HostSurfaceInputEvent::Text { text } && text@ == "webox-input-proof"@
    } else {
        e == HostSurfaceInputEvent::Wheel { x: 128, y: 128, delta_x: 0, delta_y: -240i32 }
    }
}

/// An event that ends the wait for a workload: the page loaded, failed,
/// crashed, or its surface changed.
pub open spec fn is_terminal_kind(k: BrowserInstanceEventKind) -> bool {
    ||| k == BrowserInstanceEventKind::LoadFinished
    ||| k == BrowserInstanceEventKind::NavigationFailed
    ||| k == BrowserInstanceEventKind::Crashed
    ||| k == BrowserInstanceEventKind::SurfaceUpdated
}

/// Whether a batch of events ends the wait for a workload.
pub fn reached_terminal_observation(batch: &[BrowserInstanceEvent]) -> (r: bool)
    ensures
        r == exists|i: int| 0 <= i < batch@.len() && is_terminal_kind(#[trigger] batch@[i].kind),
{
    let mut k: usize = 0;
    while k < batch.len()
        invariant
            k <= batch@.len(),
            forall|i: int| 0 <= i < k ==> !is_terminal_kind(#[trigger] batch@[i].kind),
        decreases batch.len() - k,
    {
        let terminal = match batch[k].kind {
            BrowserInstanceEventKind::LoadFinished => true,
            BrowserInstanceEventKind::NavigationFailed => true,
            BrowserInstanceEventKind::Crashed => true,
            BrowserInstanceEventKind::SurfaceUpdated => true,
            _ => false,
        };
        if terminal {
            return true;
        }
        k = k + 1;
    }
    false
}

/// The inputs a run routes to prove input handling, in order, for the host
/// that forwards them to a live browser as well.
pub fn interaction_inputs() -> (r: Vec<HostSurfaceInputEvent>)
    ensures
        r@.len() == 7,
        forall|k: int| 0 <= k < 7 ==> is_interaction_input(k, #[trigger] r@[k]),
{
    let mut r: Vec<HostSurfaceInputEvent> = Vec::new();
    r.push(HostSurfaceInputEvent::Focus { focused: true });
    r.push(HostSurfaceInputEvent::Resize { width: 1440, height: 900 });
    r.push(HostSurfaceInputEvent::PointerMove { x: 96, y: 96 });
    r.push(
        HostSurfaceInputEvent::PointerButton {
            x: 96,
            y: 96,
            button: HostMouseButton::Left,
            pressed: true,
            click_count: 1,
        },
    );
    r.push(
        HostSurfaceInputEvent::PointerButton {
            x: 96,
            y: 96,
            button: HostMouseButton::Left,
            pressed: false,
            click_count: 1,
        },
    );
    let text = String::from_str("webox-input-proof");
    r.push(HostSurfaceInputEvent::Text { text });
    r.push(HostSurfaceInputEvent::Wheel { x: 128, y: 128, delta_x: 0, delta_y: -240 });
    proof {
        assert(is_interaction_input(0, r@[0]));
        assert(is_interaction_input(6, r@[6]));
    }
    r
}

/// `e1` is `e0` after the first `n` proof inputs were routed to `id`.
pub open spec fn inputs_routed(e0: WeboxEngine, e1: WeboxEngine, id: Seq<char>, n: nat) -> bool
    decreases n,
{
    if n == 0 {
        e1 == e0
    } else {
        exists|mid: WeboxEngine, e: HostSurfaceInputEvent, err: Option<Seq<char>>|
            inputs_routed(e0, mid, id, (n - 1) as nat) && is_interaction_input(n - 1, e)
                && #[trigger] mid.dispatched(&e1, id, e, err)
    }
}

/// Routes focus, resize, pointer, click, text and wheel input to the
/// instance, as a run of the interaction workload does; failures are
/// ignored.
pub fn dispatch_interaction_proof(runtime: &mut EmbeddedRuntime, browser_id: &str)
    requires
        old(runtime).wf(),
        frame_fits(old(runtime).engine().instances(), browser_id@),
    ensures
        final(runtime).wf(),
        final(runtime).same_but_engine(old(runtime)),
        inputs_routed(old(runtime).engine(), final(runtime).engine(), browser_id@, 7),
{
    let ghost e0 = runtime.engine();
    let ghost r0 = *runtime;
    let ghost id = browser_id@;
    proof {
        lemma_instance_index_valid(e0.instances(), id);
    }
    let ev = HostSurfaceInputEvent::Focus { focused: true };
    let ghost g = ev;
    let r = runtime.dispatch_surface_input(browser_id, ev);
    let ghost e1 = runtime.engine();
    proof {
        assert(inputs_routed(e0, e0, id, 0));
        assert(is_interaction_input(0, g));
        assert(e0.dispatched(&e1, id, g, text_err(r)));
        assert(inputs_routed(e0, e1, id, 1));
        lemma_instance_index_valid(e1.instances(), id);
        if has_instance(e0.instances(), id) {
            assert(e1.instance(id).surface.frame_token == e0.instance(id).surface.frame_token);
            assert(e1.instance(id).surface.damage_events == e0.instance(id).surface.damage_events);
        } else {
            assert(e1 == e0);
        }
    }
    let ev = HostSurfaceInputEvent::Resize { width: 1440, height: 900 };
    let ghost g = ev;
    let ghost rp = *runtime;
    let r = runtime.dispatch_surface_input(browser_id, ev);
    let ghost e2 = runtime.engine();
    proof {
        EmbeddedRuntime::lemma_keeps_setup_trans(&r0, &rp, &*runtime);
        assert(is_interaction_input(1, g));
        assert(e1.dispatched(&e2, id, g, text_err(r)));
        assert(inputs_routed(e0, e2, id, 2));
        lemma_instance_index_valid(e2.instances(), id);
        if has_instance(e1.instances(), id) {
            assert(e2.instance(id).surface.frame_token == e1.instance(id).surface.frame_token + 1);
            assert(e2.instance(id).surface.damage_events == e1.instance(id).surface.damage_events);
        } else {
            assert(e2 == e1);
        }
    }
    let ev = HostSurfaceInputEvent::PointerMove { x: 96, y: 96 };
    let ghost g = ev;
    let ghost rp = *runtime;
    let r = runtime.dispatch_surface_input(browser_id, ev);
    let ghost e3 = runtime.engine();
    proof {
        EmbeddedRuntime::lemma_keeps_setup_trans(&r0, &rp, &*runtime);
        assert(is_interaction_input(2, g));
        assert(e2.dispatched(&e3, id, g, text_err(r)));
        assert(inputs_routed(e0, e3, id, 3));
        lemma_instance_index_valid(e3.instances(), id);
    }
    let ev = HostSurfaceInputEvent::PointerButton {
        x: 96,
        y: 96,
        button: HostMouseButton::Left,
        pressed: true,
        click_count: 1,
    };
    let ghost g = ev;
    let ghost rp = *runtime;
    let r = runtime.dispatch_surface_input(browser_id, ev);
    let ghost e4 = runtime.engine();
    proof {
        EmbeddedRuntime::lemma_keeps_setup_trans(&r0, &rp, &*runtime);
        assert(is_interaction_input(3, g));
        assert(e3.dispatched(&e4, id, g, text_err(r)));
        assert(inputs_routed(e0, e4, id, 4));
        lemma_instance_index_valid(e4.instances(), id);
    }
    let ev = HostSurfaceInputEvent::PointerButton {
        x: 96,
        y: 96,
        button: HostMouseButton::Left,
        pressed: false,
        click_count: 1,
    };
    let ghost g = ev;
    let ghost rp = *runtime;
    let r = runtime.dispatch_surface_input(browser_id, ev);
    let ghost e5 = runtime.engine();
    proof {
        EmbeddedRuntime::lemma_keeps_setup_trans(&r0, &rp, &*runtime);
        assert(is_interaction_input(4, g));
        assert(e4.dispatched(&e5, id, g, text_err(r)));
        assert(inputs_routed(e0, e5, id, 5));
        lemma_instance_index_valid(e5.instances(), id);
    }
    let text = String::from_str("webox-input-proof");
    proof {
        reveal_strlit("webox-input-proof");
    }
    let ev = HostSurfaceInputEvent::Text { text };
    let ghost g = ev;
    let ghost rp = *runtime;
    let r = runtime.dispatch_surface_input(browser_id, ev);
    let ghost e6 = runtime.engine();
    proof {
        EmbeddedRuntime::lemma_keeps_setup_trans(&r0, &rp, &*runtime);
        assert(is_interaction_input(5, g));
        assert(e5.dispatched(&e6, id, g, text_err(r)));
        assert(inputs_routed(e0, e6, id, 6));
        lemma_instance_index_valid(e6.instances(), id);
    }
    let ev = HostSurfaceInputEvent::Wheel { x: 128, y: 128, delta_x: 0, delta_y: -240 };
    let ghost g = ev;
    let ghost rp = *runtime;
    let r = runtime.dispatch_surface_input(browser_id, ev);
    let ghost e7 = runtime.engine();
    proof {
        EmbeddedRuntime::lemma_keeps_setup_trans(&r0, &rp, &*runtime);
        assert(is_interaction_input(6, g));
        assert(e6.dispatched(&e7, id, g, text_err(r)));
        assert(inputs_routed(e0, e7, id, 7));
    }
}

/// A harness run after the runtime started: either the report is already
/// complete, or the host observes each workload on the live runtime and
/// appends its section to `lines`.
pub enum HarnessStart {
    Finished(String),
    RunWorkloads(HarnessRun),
}

pub struct HarnessRun {
    pub runtime: EmbeddedRuntime,
    pub lines: Vec<String>,
    pub system_meets_target: bool,
}

/// A list of texts, or "none" when it is empty.
pub open spec fn list_or_none(items: Seq<Seq<char>>) -> Seq<char> {
    if items.len() == 0 {
        "none"@
    } else {
        joined(items, ", "@)
    }
}

/// The head of a report, for the configured target and the readiness of
/// the started runtime.
pub open spec fn harness_header(config: HarnessConfig, target: u64, r: RuntimeReadiness) -> Seq<Seq<char>> {
    let meets = config.available_memory_bytes >= target;
    seq![
        "# webox workload harness report"@,
        Seq::empty(),
        "- Available memory bytes: "@ + decimal(config.available_memory_bytes as nat),
        "- Configured tab target bytes: "@ + decimal(target as nat),
        "- Meets target: "@ + bool_text(meets),
        "- Summary: "@ + system_summary(meets),
        "- Runtime mode: "@ + runtime_mode_name(config.runtime_mode),
        "- Live MVP ready: "@ + bool_text(r.live_mvp_ready),
        "- Runtime readiness: "@ + readiness_name(r.state),
        "- Runtime readiness summary: "@ + r.summary@,
        "- Missing runtime assets: "@ + list_or_none(r.missing_paths.deep_view()),
        "- Runtime directory errors: "@ + list_or_none(r.readiness_errors.deep_view()),
        Seq::empty(),
        "## Workloads"@,
        Seq::empty(),
    ]
}

/// The lines a report ends with when the runtime is not live-MVP-ready.
pub open spec fn startup_failure_lines(mode: BrowserRuntimeMode) -> Seq<Seq<char>> {
    seq![
        "Live MVP validation did not run workloads because the runtime is not live-MVP-ready."@,
        "This is a validation failure for live MVP mode, not a synthetic success."@,
        "- Outcome: "@ + outcome_name(RuntimeOutcome::EngineStartupFailure),
        "- Failure class: "@ + failure_class_of(RuntimeOutcome::EngineStartupFailure),
    ] + if mode == BrowserRuntimeMode::Simulated {
        seq!["- Simulation failure: simulated runtime cannot satisfy live MVP validation."@]
    } else {
        Seq::empty()
    }
}

/// `rt` is the runtime a harness run starts: the development configuration
/// of `platform` and `exe` in the configured runtime mode, started with
/// the probe and the CEF initialization outcome.
pub open spec fn harness_runtime(
    rt: EmbeddedRuntime,
    config: HarnessConfig,
    platform: PlatformTarget,
    exe: Seq<char>,
    probe: ReadinessProbe,
    cef_initialized: bool,
) -> bool {
    &&& rt.wf()
    &&& rt.spec_initialized()
    &&& rt.collector().cached_value() is None
    &&& exists|c: AppConfig|
        #[trigger] development_shape(c, platform, exe) && c.startup.environment@
            == "development"@ && c.startup.runtime_mode == config.runtime_mode && settings_from(
            rt.engine().settings(),
            c,
        ) && rt.controller().target() == c.startup.max_memory_per_tab_bytes
    &&& rt.engine().spec_state() == crate::engine::EngineState::Started
    &&& rt.engine().next_id() == 1
    &&& rt.engine().instances().len() == 0
    &&& rt.engine().live_ids().len() == 0
    &&& rt.engine().events().len() == 0
    &&& rt.startup_diags().len() == 1
    &&& rt.engine().diags() == rt.startup_diags()
    &&& start_outcome(
        rt.engine().settings(),
        probe,
        cef_initialized,
        rt.engine().backend(),
        rt.engine().readiness(),
        rt.startup_diags()[0],
    )
}

fn list_or_none_text(items: &Vec<String>) -> (r: String)
    ensures
        r@ == list_or_none(items.deep_view()),
{
    if items.len() == 0 {
        String::from_str("none")
    } else {
        join_texts(items, ", ")
    }
}

/// Starts a harness run on the development configuration of
/// `platform_target` (with `current_exe` as the CEF subprocess) in the
/// configured runtime mode. When the runtime is not live-MVP-ready the
/// report is complete and records an engine startup failure; otherwise
/// the host observes the workloads.
pub fn run_harness(
    config: &HarnessConfig,
    platform_target: PlatformTarget,
    current_exe: &str,
    probe: &ReadinessProbe,
    cef_initialized: bool,
) -> (r: HarnessStart)
    ensures
        exists|rt: EmbeddedRuntime|
            #[trigger] harness_runtime(
                rt,
                *config,
                platform_target,
                current_exe@,
                *probe,
                cef_initialized,
            ) && {
                let rd = rt.engine().readiness();
                let hdr = harness_header(*config, default_tab_target(), rd);
                match r {
                    HarnessStart::Finished(report) => {
                        &&& !rd.live_mvp_ready ==> report@ == joined(
                            hdr + startup_failure_lines(config.runtime_mode),
                            "\n"@,
                        )
                        &&& rd.live_mvp_ready ==> config.runtime_mode
                            == BrowserRuntimeMode::Simulated && report@ == joined(
                            hdr.push("Live MVP validation failed: runtime mode is simulated."@),
                            "\n"@,
                        )
                    },
                    HarnessStart::RunWorkloads(run) => {
                        &&& rd.live_mvp_ready
                        &&& config.runtime_mode == BrowserRuntimeMode::RealCef
                        &&& run.runtime == rt
                        &&& run.lines.deep_view() == hdr
                        &&& run.system_meets_target == (config.available_memory_bytes
                            >= default_tab_target())
                    },
                }
            },
{
    let mut app_config = AppConfig::development(platform_target, current_exe);
    app_config.startup.runtime_mode = config.runtime_mode;
    let ghost c = app_config;
    let target: u64 = app_config.startup.max_memory_per_tab_bytes;
    let runtime = EmbeddedRuntime::new(
        EmbeddedRuntimeConfig { app_config, available_memory_bytes: config.available_memory_bytes },
        probe,
        cef_initialized,
    );
    proof {
        assert(development_shape(c, platform_target, current_exe@));
        assert(harness_runtime(runtime, *config, platform_target, current_exe@, *probe, cef_initialized));
    }
    let system_report = runtime.system_report(config.available_memory_bytes);
    let live = runtime.live_mvp_ready();
    let mut lines: Vec<String> = Vec::new();
    {
        let readiness = runtime.runtime_readiness();
        push_text(&mut lines, String::from_str("# webox workload harness report"));
        push_text(&mut lines, String::new());
        push_text(
            &mut lines,
            String::from_str("- Available memory bytes: ").concat(
                decimal_text(config.available_memory_bytes).as_str(),
            ),
        );
        push_text(
            &mut lines,
            String::from_str("- Configured tab target bytes: ").concat(
                decimal_text(target).as_str(),
            ),
        );
        push_text(
            &mut lines,
            String::from_str("- Meets target: ").concat(bool_word(system_report.meets_target)),
        );
        push_text(
            &mut lines,
            String::from_str("- Summary: ").concat(system_report.summary.as_str()),
        );
        push_text(
            &mut lines,
            String::from_str("- Runtime mode: ").concat(config.runtime_mode.debug_name()),
        );
        push_text(&mut lines, String::from_str("- Live MVP ready: ").concat(bool_word(live)));
        push_text(
            &mut lines,
            String::from_str("- Runtime readiness: ").concat(readiness.state.debug_name()),
        );
        push_text(
            &mut lines,
            String::from_str("- Runtime readiness summary: ").concat(readiness.summary.as_str()),
        );
        push_text(
            &mut lines,
            String::from_str("- Missing runtime assets: ").concat(
                list_or_none_text(&readiness.missing_paths).as_str(),
            ),
        );
        push_text(
            &mut lines,
            String::from_str("- Runtime directory errors: ").concat(
                list_or_none_text(&readiness.readiness_errors).as_str(),
            ),
        );
        push_text(&mut lines, String::new());
        push_text(&mut lines, String::from_str("## Workloads"));
        push_text(&mut lines, String::new());
    }
    let ghost hdr = lines.deep_view();
    proof {
        assert(hdr =~= harness_header(*config, default_tab_target(), runtime.engine().readiness()));
    }
    if !live {
        push_text(
            &mut lines,
            String::from_str(
                "Live MVP validation did not run workloads because the runtime is not live-MVP-ready.",
            ),
        );
        push_text(
            &mut lines,
            String::from_str(
                "This is a validation failure for live MVP mode, not a synthetic success.",
            ),
        );
        push_text(
            &mut lines,
            String::from_str("- Outcome: ").concat(
                RuntimeOutcome::EngineStartupFailure.debug_name(),
            ),
        );
        push_text(
            &mut lines,
            String::from_str("- Failure class: ").concat(
                failure_class(RuntimeOutcome::EngineStartupFailure),
            ),
        );
        match config.runtime_mode {
            BrowserRuntimeMode::Simulated => {
                push_text(
                    &mut lines,
                    String::from_str(
                        "- Simulation failure: simulated runtime cannot satisfy live MVP validation.",
                    ),
                );
            },
            BrowserRuntimeMode::RealCef => {},
        }
        proof {
            assert(lines.deep_view() =~= hdr + startup_failure_lines(config.runtime_mode));
        }
        return HarnessStart::Finished(join_texts(&lines, "\n"));
    }
    match config.runtime_mode {
        BrowserRuntimeMode::Simulated => {
            push_text(
                &mut lines,
                String::from_str("Live MVP validation failed: runtime mode is simulated."),
            );
            proof {
                assert(lines.deep_view() =~= hdr.push(
                    "Live MVP validation failed: runtime mode is simulated."@,
                ));
            }
            return HarnessStart::Finished(join_texts(&lines, "\n"));
        },
        BrowserRuntimeMode::RealCef => {},
    }
    HarnessStart::RunWorkloads(
        HarnessRun { runtime, lines, system_meets_target: system_report.meets_target },
    )
}

/// A run that timed out is classified as a timeout, whatever else was
/// observed.
pub proof fn lemma_timeout_dominates(
    w: WorkloadCase,
    snapshot: RuntimeBrowserSnapshot,
    events: Seq<BrowserInstanceEvent>,
    system_meets_target: bool,
)
    ensures
        classify(w, snapshot, events, system_meets_target, true) == RuntimeOutcome::Timeout,
{
}

/// A crash that was observed is reported as a crash unless the run timed
/// out.
pub proof fn lemma_crash_reported(
    w: WorkloadCase,
    snapshot: RuntimeBrowserSnapshot,
    events: Seq<BrowserInstanceEvent>,
    system_meets_target: bool,
    i: int,
)
    requires
        0 <= i < events.len(),
        events[i].kind == BrowserInstanceEventKind::Crashed,
    ensures
        classify(w, snapshot, events, system_meets_target, false) == RuntimeOutcome::BrowserCrash,
{
}

/// A system that meets the headroom target never reports a constrained
/// memory outcome.
pub proof fn lemma_met_target_never_constrained(
    w: WorkloadCase,
    snapshot: RuntimeBrowserSnapshot,
    events: Seq<BrowserInstanceEvent>,
    timed_out: bool,
)
    ensures
        classify(w, snapshot, events, true, timed_out) != RuntimeOutcome::ConstrainedMemory,
{
}

/// On a system below the target, a clean run of a workload larger than
/// 6 GiB reports the unmet target rather than success.
pub proof fn lemma_constrained_system_reports_unmet_target(
    w: WorkloadCase,
    snapshot: RuntimeBrowserSnapshot,
    events: Seq<BrowserInstanceEvent>,
)
    requires
        !has_event_kind(events, BrowserInstanceEventKind::Crashed),
        !has_event_kind(events, BrowserInstanceEventKind::NavigationFailed),
        snapshot.browser.surface.host_surface_failure is None,
        snapshot.browser.surface.render_evidence is Some,
        workload_total(w) > 6 * GIB,
    ensures
        classify(w, snapshot, events, false, false) == RuntimeOutcome::ConstrainedMemory,
        classify(w, snapshot, events, false, false) != RuntimeOutcome::Success,
{
}

/// A clean run (no timeout, crash, surface failure or navigation failure,
/// and a rendered frame) is a success on a system that meets the target,
/// and on any system when the workload needs at most 6 GiB.
pub proof fn lemma_clean_run_succeeds(
    w: WorkloadCase,
    snapshot: RuntimeBrowserSnapshot,
    events: Seq<BrowserInstanceEvent>,
    system_meets_target: bool,
)
    requires
        !has_event_kind(events, BrowserInstanceEventKind::Crashed),
        !has_event_kind(events, BrowserInstanceEventKind::NavigationFailed),
        snapshot.browser.surface.host_surface_failure is None,
        snapshot.browser.surface.render_evidence is Some,
        system_meets_target || w.renderer_bytes + w.browser_bytes + w.gpu_bytes <= 6 * 1024 * 1024 * 1024,
    ensures
        classify(w, snapshot, events, system_meets_target, false) == RuntimeOutcome::Success,
{
}

} // verus!
