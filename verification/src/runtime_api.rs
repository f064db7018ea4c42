//! The embeddable runtime: an engine, a memory controller and a process
//! memory collector behind one interface for host applications.
//!
//! Memory samples are classified by the controller, handed to a registered
//! observer, and recorded on the browser instance they name. The events the
//! engine reports wait in the engine until the host drains them.
use crate::config::AppConfig;
use crate::engine::{
    appended, copy_instance, counters_fit, creation_block, frame_fits, has_instance, instance_id_text, result_ok, not_found,
    same_instance, settings_from, start_outcome,
    BrowserInstanceDescriptor, BrowserInstanceEvent, BrowserInstanceEventKind,
    BrowserInstanceState, EngineError, EngineState, HostSurfaceInputEvent,
    LiveBrowserCallbackEvent, ReadinessProbe, RuntimeReadiness, StartupDiagnostics, WeboxEngine,
};
use crate::memory::{
    attribution_label, headroom_fits, mitigation_actions, pressure_level, pressure_summary,
    rss_sum, scan_collectable, scan_processes, scan_result_matches, system_summary, telemetry_total,
    MemoryThresholds, LinuxProcessMemoryCollector, MemoryAttribution, MemoryController,
    MemoryEvent, MemoryPressureLevel, PolicyDecision, ProcessScan, SupportedSystemReport,
    TabTelemetry,
};
use crate::text::decimal;
use crate::ui::opt_view;
use std::sync::Arc;
use vstd::prelude::*;

verus! {

/// Receives every memory event the runtime classifies.
pub trait MemoryEventObserver: Send + Sync {
    fn on_memory_event(&self, event: &MemoryEvent);
}

pub struct EmbeddedRuntimeConfig {
    pub app_config: AppConfig,
    pub available_memory_bytes: u64,
}

pub struct EmbeddedRuntime {
    engine: WeboxEngine,
    memory_controller: MemoryController,
    memory_collector: LinuxProcessMemoryCollector,
    initialized: bool,
    observer: Option<Arc<dyn MemoryEventObserver>>,
    startup_diagnostics: Vec<StartupDiagnostics>,
    /// The events handed to the observer, in order.
    notified: Ghost<Seq<MemoryEvent>>,
}

pub struct RuntimeBrowserSnapshot {
    pub browser: BrowserInstanceState,
    pub policy_decision: PolicyDecision,
}

/// The message of a failed result, if it failed.
pub open spec fn text_err<T>(r: Result<T, String>) -> Option<Seq<char>> {
    match r {
        Ok(_) => None,
        Err(m) => Some(m@),
    }
}

/// An operation on the instance `id`: it fails exactly when there is no
/// such instance, with the lookup message and nothing changed; otherwise
/// `done` holds.
pub open spec fn lookup_outcome(
    before: WeboxEngine,
    after: WeboxEngine,
    id: Seq<char>,
    err: Option<Seq<char>>,
    done: bool,
) -> bool {
    &&& err is Some <==> !has_instance(before.instances(), id)
    &&& err matches Some(m) ==> m == not_found(id) && after == before
    &&& err is None ==> done
}

/// The indicator recorded for a pressure level.
pub open spec fn level_indicator(level: MemoryPressureLevel) -> Option<Seq<char>> {
    match level {
        MemoryPressureLevel::Normal => None,
        MemoryPressureLevel::Warning => Some("memory warning"@),
        MemoryPressureLevel::Critical => Some("critical memory pressure"@),
        MemoryPressureLevel::Exhausted => Some("memory exhaustion risk"@),
    }
}

/// The failure recorded for a pressure level.
pub open spec fn level_failure(level: MemoryPressureLevel) -> Option<Seq<char>> {
    match level {
        MemoryPressureLevel::Exhausted => Some("Tab ended due to suspected memory exhaustion"@),
        _ => None,
    }
}

/// The texts of an optional indicator, "normal" when there is none.
pub open spec fn indicator_text(indicator: Option<Seq<char>>) -> Seq<char> {
    match indicator {
        Some(i) => i,
        None => "normal"@,
    }
}

/// `new` is `old` with a memory sample of `bytes` recorded, with the
/// given indicator, failure and attribution texts.
pub open spec fn memory_recorded(
    old: BrowserInstanceState,
    new: BrowserInstanceState,
    bytes: u64,
    indicator: Option<Seq<char>>,
    failure: Option<Seq<char>>,
    attribution: Seq<char>,
) -> bool {
    &&& new == BrowserInstanceState {
        memory_usage_bytes: bytes,
        memory_indicator: new.memory_indicator,
        failure_state: new.failure_state,
        memory_attribution: new.memory_attribution,
        status_text: new.status_text,
        ..old
    }
    &&& opt_view(new.memory_indicator) == indicator
    &&& opt_view(new.failure_state) == failure
    &&& opt_view(new.memory_attribution) == Some(attribution)
    &&& new.status_text@ == "Observed memory state: "@ + decimal(bytes as nat) + " bytes ("@
        + indicator_text(indicator) + ")"@
}

/// The spelling of the attribution of injected samples.
pub open spec fn synthetic_label() -> Seq<char> {
    "source=SyntheticSample; confidence=TestOnly; live_mvp_evidence=false; injected memory sample for tests or simulated development"@
}

/// `d` is the decision on a sample of `total` bytes for the tab `id`.
pub open spec fn decision_on(d: PolicyDecision, th: MemoryThresholds, id: Seq<char>, total: int) -> bool {
    let level = pressure_level(total, th);
    &&& d.event.tab_id@ == id
    &&& d.event.total_bytes == total
    &&& d.event.level == level
    &&& d.event.summary@ == pressure_summary(id, level)
    &&& d.actions@ == mitigation_actions(level)
}

/// The engine recorded a sample of `total` bytes for `id`, attributed as
/// `label` and classified with thresholds `th`.
pub open spec fn sample_applied(
    e0: WeboxEngine,
    e1: WeboxEngine,
    id: Seq<char>,
    th: MemoryThresholds,
    total: int,
    label: Seq<char>,
) -> bool {
    let level = pressure_level(total, th);
    &&& e0.changes_only(&e1, id)
    &&& memory_recorded(
        e0.instance(id),
        e1.instance(id),
        total as u64,
        level_indicator(level),
        level_failure(level),
        label,
    )
    &&& e0.diagnosed(
        &e1,
        "engine.memory"@,
        "Updated memory state for '"@ + id + "' to "@ + decimal(total as nat) + " bytes ("@
            + indicator_text(level_indicator(level)) + ")"@,
    )
    &&& appended(e0.events(), e1.events(), 1)
    &&& e0.event_at(
        &e1,
        0,
        id,
        BrowserInstanceEventKind::MemoryUpdated,
        "Memory updated for '"@ + id + "'"@,
    )
}

/// The sample was recorded, and `r` hands back the decision and the
/// instance.
pub open spec fn sample_done(
    e0: WeboxEngine,
    e1: WeboxEngine,
    id: Seq<char>,
    th: MemoryThresholds,
    total: int,
    label: Seq<char>,
    r: Result<RuntimeBrowserSnapshot, String>,
) -> bool {
    &&& sample_applied(e0, e1, id, th, total, label)
    &&& r matches Ok(snap) && decision_on(snap.policy_decision, th, id, total) && same_instance(
        snap.browser,
        e1.instance(id),
    )
}

/// A sample for `id` was applied: it fails exactly when there is no such
/// instance, and otherwise `sample_done` holds.
pub open spec fn sample_recorded(
    e0: WeboxEngine,
    e1: WeboxEngine,
    id: Seq<char>,
    th: MemoryThresholds,
    total: int,
    label: Seq<char>,
    r: Result<RuntimeBrowserSnapshot, String>,
) -> bool {
    lookup_outcome(e0, e1, id, text_err(r), sample_done(e0, e1, id, th, total, label, r))
}

fn engine_result<T>(r: Result<T, EngineError>) -> (s: Result<T, String>)
    ensures
        r matches Ok(v) ==> s == Ok::<T, String>(v),
        r matches Err(e) ==> (s matches Err(m) && m@ == e.message@),
{
    match r {
        Ok(v) => Ok(v),
        Err(e) => Err(e.message),
    }
}

pub(crate) fn indicator_for(level: MemoryPressureLevel) -> (r: Option<String>)
    ensures
        opt_view(r) == level_indicator(level),
{
    match level {
        MemoryPressureLevel::Normal => None,
        MemoryPressureLevel::Warning => Some(String::from_str("memory warning")),
        MemoryPressureLevel::Critical => Some(String::from_str("critical memory pressure")),
        MemoryPressureLevel::Exhausted => Some(String::from_str("memory exhaustion risk")),
    }
}

pub(crate) fn failure_for(level: MemoryPressureLevel) -> (r: Option<String>)
    ensures
        opt_view(r) == level_failure(level),
{
    match level {
        MemoryPressureLevel::Exhausted => Some(
            String::from_str("Tab ended due to suspected memory exhaustion"),
        ),
        _ => None,
    }
}

impl EmbeddedRuntime {
    pub closed spec fn engine(&self) -> WeboxEngine {
        self.engine
    }

    pub closed spec fn controller(&self) -> MemoryController {
        self.memory_controller
    }

    pub closed spec fn collector(&self) -> LinuxProcessMemoryCollector {
        self.memory_collector
    }

    pub closed spec fn startup_diags(&self) -> Seq<StartupDiagnostics> {
        self.startup_diagnostics@
    }

    pub closed spec fn spec_initialized(&self) -> bool {
        self.initialized
    }

    /// The observer that receives the classified memory events.
    pub closed spec fn spec_observer(&self) -> Option<Arc<dyn MemoryEventObserver>> {
        self.observer
    }

    /// Every memory event handed to an observer, in the order it was handed.
    pub closed spec fn notified(&self) -> Seq<MemoryEvent> {
        self.notified@
    }

    /// The controller, the observer and the startup diagnostics are as in
    /// `other`.
    pub closed spec fn keeps_config(&self, other: &Self) -> bool {
        &&& self.memory_controller == other.memory_controller
        &&& self.initialized == other.initialized
        &&& self.observer == other.observer
        &&& self.startup_diagnostics == other.startup_diagnostics
    }

    /// The configuration is kept and no event was handed to the observer.
    pub closed spec fn keeps_setup(&self, other: &Self) -> bool {
        &&& self.keeps_config(other)
        &&& self.notified == other.notified
    }

    /// `after` is `self` once a sample of `total` bytes for `tab` was
    /// classified: the registered observer, if any, was handed that one
    /// event, and nothing else was notified.
    pub open spec fn sample_notified(&self, after: &Self, tab: Seq<char>, total: int) -> bool {
        let th = self.controller().spec_thresholds();
        if self.spec_observer() is Some {
            &&& after.notified().len() == self.notified().len() + 1
            &&& after.notified().drop_last() == self.notified()
            &&& after.notified().last().tab_id@ == tab
            &&& after.notified().last().total_bytes == total
            &&& after.notified().last().level == pressure_level(total, th)
            &&& after.notified().last().summary@ == pressure_summary(
                tab,
                after.notified().last().level,
            )
        } else {
            after.notified() == self.notified()
        }
    }

    /// Everything but the engine is as in `other`.
    pub open spec fn same_but_engine(&self, other: &Self) -> bool {
        self.keeps_setup(other) && self.collector() == other.collector()
    }

    /// Keeping the setup is transitive.
    pub proof fn lemma_keeps_setup_trans(a: &Self, b: &Self, c: &Self)
        requires
            b.keeps_setup(a),
            c.keeps_setup(b),
        ensures
            c.keeps_setup(a),
    {
    }

    /// The engine and the controller are well formed, and a cached
    /// aggregate is an aggregate of observed processes.
    pub open spec fn wf(&self) -> bool {
        &&& self.engine().wf()
        &&& self.controller().wf()
        &&& self.collector().wf()
    }

    /// A runtime for `config`, with its engine started. `probe` and
    /// `cef_initialized` are what the host found when it checked the CEF
    /// distribution and initialized CEF; a simulated configuration uses
    /// neither.
    pub fn new(config: EmbeddedRuntimeConfig, probe: &ReadinessProbe, cef_initialized: bool) -> (r:
        Self)
        requires
            headroom_fits(config.app_config.startup.max_memory_per_tab_bytes),
        ensures
            r.wf(),
            r.spec_initialized(),
            r.controller().target() == config.app_config.startup.max_memory_per_tab_bytes,
            r.collector().cached_value() is None,
            settings_from(r.engine().settings(), config.app_config),
            r.engine().spec_state() == EngineState::Started,
            r.engine().next_id() == 1,
            r.engine().instances().len() == 0,
            r.engine().live_ids().len() == 0,
            r.engine().events().len() == 0,
            r.spec_observer() is None,
            r.notified().len() == 0,
            r.startup_diags().len() == 1,
            r.engine().diags() == r.startup_diags(),
            start_outcome(
                r.engine().settings(),
                *probe,
                cef_initialized,
                r.engine().backend(),
                r.engine().readiness(),
                r.startup_diags()[0],
            ),
    {
        let mut engine = WeboxEngine::new(&config.app_config);
        let startup = engine.start(probe, cef_initialized);
        let mut startup_diagnostics: Vec<StartupDiagnostics> = Vec::new();
        startup_diagnostics.push(startup);
        proof {
            assert(startup_diagnostics@ =~= engine.diags());
        }
        EmbeddedRuntime {
            engine,
            memory_controller: MemoryController::new(
                config.app_config.startup.max_memory_per_tab_bytes,
            ),
            memory_collector: LinuxProcessMemoryCollector::new(),
            initialized: true,
            observer: None,
            startup_diagnostics,
            notified: Ghost(Seq::empty()),
        }
    }

    /// Registers the observer that receives every classified memory event
    /// (`None` removes it).
    pub fn register_memory_observer(&mut self, observer: Option<Arc<dyn MemoryEventObserver>>)
        ensures
            final(self).engine() == old(self).engine(),
            final(self).controller() == old(self).controller(),
            final(self).collector() == old(self).collector(),
            final(self).startup_diags() == old(self).startup_diags(),
            final(self).spec_initialized() == old(self).spec_initialized(),
            final(self).notified() == old(self).notified(),
            final(self).spec_observer() == observer,
    {
        self.observer = observer;
    }

    /// Creates a browser instance; see `WeboxEngine::create_browser_instance`.
    pub fn create_browser_instance(&mut self, initial_url: &str, live_host_created: bool) -> (r:
        Result<BrowserInstanceDescriptor, String>)
        requires
            old(self).wf(),
            creation_block(&old(self).engine()) is None ==> old(self).engine().next_id() < usize::MAX,
        ensures
            final(self).wf(),
            final(self).same_but_engine(old(self)),
            old(self).engine().created(
                &final(self).engine(),
                initial_url@,
                live_host_created,
                result_ok(r),
                text_err(r),
            ),
    {
        let r = self.engine.create_browser_instance(initial_url, live_host_created);
        engine_result(r)
    }

    /// Navigates an instance; see `WeboxEngine::navigate_browser_instance`.
    pub fn navigate_browser_instance(&mut self, browser_id: &str, url: &str) -> (r: Result<
        (),
        String,
    >)
        requires
            old(self).wf(),
            frame_fits(old(self).engine().instances(), browser_id@),
        ensures
            final(self).wf(),
            final(self).same_but_engine(old(self)),
            lookup_outcome(
                old(self).engine(),
                final(self).engine(),
                browser_id@,
                text_err(r),
                old(self).engine().navigated(&final(self).engine(), browser_id@, url@),
            ),
    {
        engine_result(self.engine.navigate_browser_instance(browser_id, url))
    }

    /// Reloads an instance; see `WeboxEngine::reload_browser_instance`.
    pub fn reload_browser_instance(&mut self, browser_id: &str) -> (r: Result<(), String>)
        requires
            old(self).wf(),
            frame_fits(old(self).engine().instances(), browser_id@),
        ensures
            final(self).wf(),
            final(self).same_but_engine(old(self)),
            ({
                let e0 = old(self).engine();
                let e1 = final(self).engine();
                let id = browser_id@;
                &&& text_err(r) is Some <==> (!e0.is_live(id) && !has_instance(e0.instances(), id))
                &&& text_err(r) matches Some(m) ==> m == not_found(id) && e1 == e0
                &&& e0.is_live(id) ==> e0.live_requested(
                    &e1,
                    id,
                    "CEF reload requested"@,
                    true,
                    "Reload requested for live browser instance '"@ + id + "'"@,
                )
                &&& !e0.is_live(id) && has_instance(e0.instances(), id) ==> e0.navigated(
                    &e1,
                    id,
                    e0.instance(id).url@,
                )
            }),
    {
        engine_result(self.engine.reload_browser_instance(browser_id))
    }

    /// Finishes a simulated load; see `WeboxEngine::finish_navigation`.
    pub fn finish_navigation(&mut self, browser_id: &str, title: &str) -> (r: Result<(), String>)
        requires
            old(self).wf(),
            counters_fit(old(self).engine().instances(), browser_id@),
        ensures
            final(self).wf(),
            final(self).same_but_engine(old(self)),
            ({
                let e0 = old(self).engine();
                let e1 = final(self).engine();
                let id = browser_id@;
                &&& text_err(r) is Some <==> (e0.is_live(id) || !has_instance(e0.instances(), id))
                &&& e0.is_live(id) ==> text_err(r) == Some(
                    "Live browser instance '"@ + id + "' must finish navigation from CEF callbacks"@,
                )
                &&& !e0.is_live(id) && !has_instance(e0.instances(), id) ==> text_err(r) == Some(
                    not_found(id),
                )
                &&& text_err(r) is Some ==> e1 == e0
                &&& text_err(r) is None ==> e0.finished(&e1, id, title@)
            }),
    {
        engine_result(self.engine.finish_navigation(browser_id, title))
    }

    /// Fails a simulated navigation; see `WeboxEngine::fail_navigation`.
    pub fn fail_navigation(&mut self, browser_id: &str, message: &str) -> (r: Result<(), String>)
        requires
            old(self).wf(),
            frame_fits(old(self).engine().instances(), browser_id@),
        ensures
            final(self).wf(),
            final(self).same_but_engine(old(self)),
            ({
                let e0 = old(self).engine();
                let e1 = final(self).engine();
                let id = browser_id@;
                &&& text_err(r) is Some <==> (e0.is_live(id) || !has_instance(e0.instances(), id))
                &&& e0.is_live(id) ==> text_err(r) == Some(
                    "Live browser instance '"@ + id
                        + "' must report navigation failure from CEF callbacks or engine diagnostics"@,
                )
                &&& !e0.is_live(id) && !has_instance(e0.instances(), id) ==> text_err(r) == Some(
                    not_found(id),
                )
                &&& text_err(r) is Some ==> e1 == e0
                &&& text_err(r) is None ==> e0.nav_failed(&e1, id, message@)
            }),
    {
        engine_result(self.engine.fail_navigation(browser_id, message))
    }

    /// Closes an instance; see `WeboxEngine::close_browser_instance`.
    pub fn close_browser_instance(&mut self, browser_id: &str) -> (r: Result<(), String>)
        requires
            old(self).wf(),
        ensures
            final(self).wf(),
            final(self).same_but_engine(old(self)),
            lookup_outcome(
                old(self).engine(),
                final(self).engine(),
                browser_id@,
                text_err(r),
                old(self).engine().closed(&final(self).engine(), browser_id@),
            ),
    {
        engine_result(self.engine.close_browser_instance(browser_id))
    }

    /// Resizes an instance's surface; see `WeboxEngine::resize_browser_surface`.
    pub fn resize_browser_surface(&mut self, browser_id: &str, width: u32, height: u32) -> (r:
        Result<(), String>)
        requires
            old(self).wf(),
            frame_fits(old(self).engine().instances(), browser_id@),
        ensures
            final(self).wf(),
            final(self).same_but_engine(old(self)),
            lookup_outcome(
                old(self).engine(),
                final(self).engine(),
                browser_id@,
                text_err(r),
                old(self).engine().resized(&final(self).engine(), browser_id@, width, height),
            ),
    {
        engine_result(self.engine.resize_browser_surface(browser_id, width, height))
    }

    /// Routes text input to an instance.
    pub fn dispatch_text_input(&mut self, browser_id: &str, text: &str) -> (r: Result<(), String>)
        requires
            old(self).wf(),
                    ensures
            final(self).wf(),
            final(self).same_but_engine(old(self)),
            exists|t: String|
                t@ == text@ && old(self).engine().dispatched(
                    &final(self).engine(),
                    browser_id@,
                    HostSurfaceInputEvent::Text { text: t },
                    text_err(r),
                ),
    {
        let t = String::from_str(text);
        let ghost tg = t;
        let event = HostSurfaceInputEvent::Text { text: t };
        let r = self.dispatch_surface_input(browser_id, event);
        proof {
            assert(tg@ == text@);
        }
        r
    }

    /// Routes a host input event; see `WeboxEngine::dispatch_surface_input`.
    pub fn dispatch_surface_input(&mut self, browser_id: &str, event: HostSurfaceInputEvent) -> (r:
        Result<(), String>)
        requires
            old(self).wf(),
            event is Resize ==> frame_fits(old(self).engine().instances(), browser_id@),
        ensures
            final(self).wf(),
            final(self).same_but_engine(old(self)),
            old(self).engine().dispatched(&final(self).engine(), browser_id@, event, text_err(r)),
    {
        engine_result(self.engine.dispatch_surface_input(browser_id, event))
    }

    fn notify(&mut self, event: &MemoryEvent)
        ensures
            final(self).keeps_config(old(self)),
            final(self).engine() == old(self).engine(),
            final(self).collector() == old(self).collector(),
            final(self).notified() == if old(self).spec_observer() is Some {
                old(self).notified().push(*event)
            } else {
                old(self).notified()
            },
    {
        if self.observer.is_some() {
            self.notified = Ghost(self.notified@.push(*event));
        }
        match &self.observer {
            Some(o) => o.on_memory_event(event),
            None => {},
        }
    }

    /// Classifies an injected sample (attributed as synthetic) and records
    /// it on the tab it names.
    pub fn apply_memory_sample(&mut self, telemetry: &TabTelemetry) -> (r: Result<
        RuntimeBrowserSnapshot,
        String,
    >)
        requires
            old(self).wf(),
            telemetry_total(*telemetry) <= u64::MAX,
        ensures
            final(self).wf(),
            final(self).keeps_config(old(self)),
            final(self).collector() == old(self).collector(),
            old(self).sample_notified(final(self), telemetry.tab_id@, telemetry_total(*telemetry)),
            sample_recorded(
                old(self).engine(),
                final(self).engine(),
                telemetry.tab_id@,
                old(self).controller().spec_thresholds(),
                telemetry_total(*telemetry),
                synthetic_label(),
                r,
            ),
    {
        let attribution = MemoryAttribution::synthetic();
        proof {
            reveal_strlit("source=SyntheticSample; confidence=TestOnly; live_mvp_evidence=false; injected memory sample for tests or simulated development");
            reveal_strlit("source=");
            reveal_strlit("SyntheticSample");
            reveal_strlit("; confidence=");
            reveal_strlit("TestOnly");
            reveal_strlit("; live_mvp_evidence=");
            reveal_strlit("false");
            reveal_strlit("; ");
            reveal_strlit("injected memory sample for tests or simulated development");
            assert(attribution_label(attribution) =~= synthetic_label());
        }
        self.apply_memory_sample_with_attribution(telemetry, attribution)
    }

    /// Classifies a sample of the observed browser processes and records it
    /// on `browser_id`. The collector serves its cached aggregate while it
    /// is fresh at `now_ms`; otherwise the host passes the `scan` it made.
    pub fn apply_observed_memory_sample(
        &mut self,
        browser_id: &str,
        now_ms: u64,
        scan: Option<ProcessScan>,
    ) -> (r: Result<RuntimeBrowserSnapshot, String>)
        requires
            old(self).wf(),
            scan is None ==> old(self).collector().fresh_at(now_ms),
            scan matches Some(s) ==> scan_collectable(s),
        ensures
            final(self).wf(),
            final(self).keeps_config(old(self)),
            old(self).collector().fresh_at(now_ms) ==> old(self).sample_notified(
                final(self),
                browser_id@,
                telemetry_total(old(self).collector().cached_value()->0.telemetry),
            ),
            !old(self).collector().fresh_at(now_ms) ==> old(self).sample_notified(
                final(self),
                browser_id@,
                rss_sum(scan_processes(scan->0)),
            ),
            old(self).collector().fresh_at(now_ms) ==> {
                let c = old(self).collector().cached_value()->0;
                &&& final(self).collector() == old(self).collector()
                &&& sample_recorded(
                    old(self).engine(),
                    final(self).engine(),
                    browser_id@,
                    old(self).controller().spec_thresholds(),
                    telemetry_total(c.telemetry),
                    attribution_label(c.attribution),
                    r,
                )
            },
            !old(self).collector().fresh_at(now_ms) ==> {
                let s = scan->0;
                &&& final(self).collector().last_collected() == Some(now_ms)
                &&& final(self).collector().cached_value() matches Some(c) && scan_result_matches(
                    c,
                    browser_id@,
                    s,
                )
                &&& sample_recorded(
                    old(self).engine(),
                    final(self).engine(),
                    browser_id@,
                    old(self).controller().spec_thresholds(),
                    rss_sum(scan_processes(s)),
                    attribution_label(final(self).collector().cached_value()->0.attribution),
                    r,
                )
            },
    {
        let observed = self.memory_collector.collect_for_tab(browser_id, now_ms, scan).unwrap();
        self.apply_memory_sample_with_attribution(&observed.telemetry, observed.attribution)
    }

    /// Classifies a sample, hands the memory event to the observer, and
    /// records the sample, its level and `attribution` on the tab it names.
    pub fn apply_memory_sample_with_attribution(
        &mut self,
        telemetry: &TabTelemetry,
        attribution: MemoryAttribution,
    ) -> (r: Result<RuntimeBrowserSnapshot, String>)
        requires
            old(self).wf(),
            telemetry_total(*telemetry) <= u64::MAX,
        ensures
            final(self).wf(),
            final(self).keeps_config(old(self)),
            final(self).collector() == old(self).collector(),
            old(self).sample_notified(final(self), telemetry.tab_id@, telemetry_total(*telemetry)),
            sample_recorded(
                old(self).engine(),
                final(self).engine(),
                telemetry.tab_id@,
                old(self).controller().spec_thresholds(),
                telemetry_total(*telemetry),
                attribution_label(attribution),
                r,
            ),
    {
        let decision = self.memory_controller.evaluate(telemetry);
        self.notify(&decision.event);
        proof {
            if old(self).spec_observer() is Some {
                assert(self.notified().drop_last() =~= old(self).notified());
            }
            assert(old(self).sample_notified(self, telemetry.tab_id@, telemetry_total(*telemetry)));
        }
        let indicator = indicator_for(decision.event.level);
        let failure = failure_for(decision.event.level);
        let label = attribution.label();
        match self.engine.update_browser_memory(
            telemetry.tab_id.as_str(),
            decision.event.total_bytes,
            indicator,
            failure,
            Some(label),
        ) {
            Ok(()) => {},
            Err(e) => {
                return Err(e.message);
            },
        }
        match self.engine.browser_instance(telemetry.tab_id.as_str()) {
            Some(b) => Ok(
                RuntimeBrowserSnapshot { browser: copy_instance(b), policy_decision: decision },
            ),
            None => Err(
                String::from_str("Browser instance '").concat(telemetry.tab_id.as_str()).concat(
                    "' was not found",
                ),
            ),
        }
    }

    pub fn browser_instance(&self, browser_id: &str) -> (r: Option<&BrowserInstanceState>)
        ensures
            has_instance(self.engine().instances(), browser_id@) ==> r == Some(
                &self.engine().instance(browser_id@),
            ),
            !has_instance(self.engine().instances(), browser_id@) ==> r is None,
    {
        self.engine.browser_instance(browser_id)
    }

    /// Every instance, ordered by id.
    pub fn browser_instances(&self) -> (r: Vec<BrowserInstanceState>)
        ensures
            r@.len() == self.engine().instances().len(),
            forall|k: int|
                0 <= k < r@.len() ==> same_instance(#[trigger] r@[k], self.engine().instances()[k]),
    {
        self.engine.browser_instances()
    }

    /// Applies the callbacks the live hosts delivered since the last turn;
    /// see `WeboxEngine::tick`.
    pub fn tick(&mut self, callbacks: Vec<LiveBrowserCallbackEvent>)
        requires
            old(self).wf(),
        ensures
            final(self).wf(),
            final(self).same_but_engine(old(self)),
            old(self).engine().callbacks_applied(&final(self).engine(), callbacks@),
    {
        self.engine.tick(callbacks);
    }

    /// Whether the frame counter of `browser_id` can still advance, as
    /// navigation, reloads, resizing and resize input need.
    pub fn frame_counter_fits(&self, browser_id: &str) -> (r: bool)
        ensures
            r == frame_fits(self.engine().instances(), browser_id@),
    {
        self.engine.frame_counter_fits(browser_id)
    }

    /// The id the next browser instance gets, for the host that creates
    /// its CEF browser first.
    pub fn next_browser_instance_id(&self) -> (r: String)
        ensures
            r@ == instance_id_text(self.engine().next_id() as nat),
    {
        self.engine.next_browser_instance_id()
    }

    /// Hands out the engine events recorded since the last drain.
    pub fn drain_events(&mut self) -> (r: Vec<BrowserInstanceEvent>)
        ensures
            r@ == old(self).engine().events(),
            final(self).engine().events().len() == 0,
            final(self).engine().keeps_core(&old(self).engine()),
            final(self).engine().instances() == old(self).engine().instances(),
            final(self).engine().diags() == old(self).engine().diags(),
            final(self).same_but_engine(old(self)),
            final(self).wf() == old(self).wf(),
    {
        self.engine.drain_events()
    }

    pub fn system_report(&self, available_memory_bytes: u64) -> (r: SupportedSystemReport)
        ensures
            r.target_bytes == self.controller().target(),
            r.available_bytes == available_memory_bytes,
            r.meets_target == (available_memory_bytes >= self.controller().target()),
            r.summary@ == system_summary(available_memory_bytes >= self.controller().target()),
    {
        self.memory_controller.system_report(available_memory_bytes)
    }

    /// The diagnostics of the runtime's start.
    pub fn diagnostics(&self) -> (r: &[StartupDiagnostics])
        ensures
            r@ == self.startup_diags(),
    {
        self.startup_diagnostics.as_slice()
    }

    pub fn runtime_readiness(&self) -> (r: &RuntimeReadiness)
        ensures
            *r == self.engine().readiness(),
    {
        self.engine.runtime_readiness()
    }

    pub fn live_mvp_ready(&self) -> (r: bool)
        ensures
            r == self.engine().readiness().live_mvp_ready,
    {
        self.engine.live_mvp_ready()
    }

    pub fn is_initialized(&self) -> (r: bool)
        ensures
            r == self.spec_initialized(),
    {
        self.initialized
    }

    /// Whether the collector would serve its cached aggregate at `now_ms`,
    /// so that no process scan is needed.
    pub fn memory_cache_fresh(&self, now_ms: u64) -> (r: bool)
        ensures
            r == self.collector().fresh_at(now_ms),
    {
        self.memory_collector.cache_fresh(now_ms)
    }
}

/// A sample at the exhaustion level marks the tab as ended for suspected
/// memory exhaustion; a sample below it leaves the tab without a failure,
/// and one at the normal level clears both marks.
pub proof fn lemma_sample_level_marks(
    e0: WeboxEngine,
    e1: WeboxEngine,
    id: Seq<char>,
    th: MemoryThresholds,
    total: int,
    label: Seq<char>,
)
    requires
        sample_applied(e0, e1, id, th, total, label),
    ensures
        pressure_level(total, th) == MemoryPressureLevel::Exhausted ==> {
            &&& opt_view(e1.instance(id).failure_state) == Some(
                "Tab ended due to suspected memory exhaustion"@,
            )
            &&& opt_view(e1.instance(id).memory_indicator) == Some("memory exhaustion risk"@)
        },
        pressure_level(total, th) == MemoryPressureLevel::Normal ==> {
            &&& e1.instance(id).failure_state is None
            &&& e1.instance(id).memory_indicator is None
        },
        pressure_level(total, th) != MemoryPressureLevel::Exhausted ==> e1.instance(
            id,
        ).failure_state is None,
        opt_view(e1.instance(id).memory_attribution) == Some(label),
        e1.instance(id).memory_usage_bytes == total as u64,
{
}

/// A sample applied to an open tab succeeds, and the tab is marked as
/// ended exactly when the sample reaches the exhaustion level: below it the
/// failure state stays clear, on the tab and in the returned snapshot, and
/// the indicator names the level that was reached.
pub proof fn lemma_sample_failure_only_when_exhausted(
    e0: WeboxEngine,
    e1: WeboxEngine,
    id: Seq<char>,
    th: MemoryThresholds,
    total: int,
    label: Seq<char>,
    r: Result<RuntimeBrowserSnapshot, String>,
)
    requires
        sample_recorded(e0, e1, id, th, total, label, r),
        has_instance(e0.instances(), id),
    ensures
        r is Ok,
        pressure_level(total, th) != MemoryPressureLevel::Exhausted ==> {
            &&& e1.instance(id).failure_state is None
            &&& r->Ok_0.browser.failure_state is None
        },
        pressure_level(total, th) == MemoryPressureLevel::Exhausted ==> {
            &&& opt_view(e1.instance(id).failure_state) == Some(
                "Tab ended due to suspected memory exhaustion"@,
            )
            &&& opt_view(r->Ok_0.browser.failure_state) == Some(
                "Tab ended due to suspected memory exhaustion"@,
            )
        },
        pressure_level(total, th) == MemoryPressureLevel::Critical ==> opt_view(
            e1.instance(id).memory_indicator,
        ) == Some("critical memory pressure"@),
        pressure_level(total, th) == MemoryPressureLevel::Warning ==> opt_view(
            e1.instance(id).memory_indicator,
        ) == Some("memory warning"@),
        pressure_level(total, th) == MemoryPressureLevel::Normal ==> e1.instance(
            id,
        ).memory_indicator is None,
{
}

} // verus!
