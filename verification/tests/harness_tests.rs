use webox::config::{BrowserRuntimeMode, PlatformTarget};
use webox::engine::{
    BrowserInstanceEvent, BrowserInstanceEventKind, BrowserInstanceState, BrowserSurfaceRenderMode,
    BrowserSurfaceState, ReadinessProbe, RuntimeBackend,
};
use webox::harness::{
    append_workload_result, classify_observed_outcome, failure_class, input_proof_observed,
    interaction_inputs, reached_terminal_observation, resolve_fixture_url, run_harness,
    workload_observation, workloads, HarnessConfig, HarnessStart, RuntimeOutcome, WorkloadCase,
    WorkloadProof,
};
use webox::engine::{HostMouseButton, HostSurfaceInputEvent};
use webox::memory::{MemoryAttribution, MemoryController, TabTelemetry};
use webox::runtime_api::RuntimeBrowserSnapshot;

fn test_snapshot(tab_id: &str, render_evidence: Option<String>) -> RuntimeBrowserSnapshot {
    let telemetry = TabTelemetry {
        tab_id: tab_id.to_string(),
        renderer_bytes: 1,
        browser_bytes: 1,
        gpu_bytes: 1,
    };
    RuntimeBrowserSnapshot {
        browser: BrowserInstanceState {
            id: tab_id.to_string(),
            url: "https://example.com".to_string(),
            title: "Example".to_string(),
            is_loading: false,
            backend: RuntimeBackend::Cef,
            memory_usage_bytes: 3,
            memory_indicator: None,
            failure_state: None,
            memory_attribution: Some(MemoryAttribution::aggregate_process(1).label()),
            surface: BrowserSurfaceState {
                surface_id: format!("surface-{tab_id}"),
                render_mode: BrowserSurfaceRenderMode::CefOffscreen,
                width: 1440,
                height: 900,
                focused: true,
                frame_token: 1,
                last_frame_label: "frame".to_string(),
                render_evidence,
                frame_buffer: None,
                damage_events: 1,
                host_surface_failure: None,
            },
            history: vec!["https://example.com".to_string()],
            history_index: 0,
            status_text: "loaded".to_string(),
            can_go_back: false,
            can_go_forward: false,
        },
        policy_decision: MemoryController::new(100).evaluate(&telemetry),
    }
}

fn event(kind: BrowserInstanceEventKind, summary: &str) -> BrowserInstanceEvent {
    BrowserInstanceEvent {
        browser_id: "tab-1".to_string(),
        kind,
        summary: summary.to_string(),
        snapshot: None,
    }
}

fn small_workload(proof: WorkloadProof) -> WorkloadCase {
    WorkloadCase {
        id: "render",
        category: "render",
        title: "Render",
        fixture_path: "https://example.com",
        renderer_bytes: 1,
        browser_bytes: 1,
        gpu_bytes: 1,
        compatibility: "render",
        proof,
    }
}

#[test]
fn constrained_systems_are_classified_explicitly() {
    let workload = WorkloadCase {
        id: "heavy",
        category: "heavy",
        title: "Heavy",
        fixture_path: "https://example.com",
        renderer_bytes: 7 * 1024 * 1024 * 1024,
        browser_bytes: 1024,
        gpu_bytes: 1024,
        compatibility: "heavy",
        proof: WorkloadProof::MemoryPressure,
    };
    let snapshot = test_snapshot("tab-1", Some("painted".to_string()));

    assert_eq!(
        classify_observed_outcome(workload, &snapshot, &[], false, false),
        RuntimeOutcome::ConstrainedMemory
    );
}

#[test]
fn missing_render_evidence_is_host_surface_failure() {
    let workload = small_workload(WorkloadProof::RenderOnly);
    let snapshot = test_snapshot("tab-1", None);

    assert_eq!(
        classify_observed_outcome(workload, &snapshot, &[], true, false),
        RuntimeOutcome::HostSurfaceFailure
    );
}

#[test]
fn navigation_failure_requires_observed_event() {
    let workload = WorkloadCase {
        id: "navigation-failure",
        category: "navigation-failure",
        title: "Navigation Failure",
        fixture_path: "http://127.0.0.1:9/failure",
        renderer_bytes: 1,
        browser_bytes: 1,
        gpu_bytes: 1,
        compatibility: "failure",
        proof: WorkloadProof::NavigationFailure,
    };
    let snapshot = test_snapshot("tab-1", Some("painted".to_string()));

    assert_eq!(
        classify_observed_outcome(workload, &snapshot, &[], true, false),
        RuntimeOutcome::Success
    );
}

#[test]
fn harness_report_classifies_missing_live_runtime_as_startup_failure() {
    let probe = ReadinessProbe {
        distribution_root_exists: false,
        locales_dir_exists: false,
        icudtl_exists: false,
        subprocess_exists: false,
        data_dir_error: None,
        cache_dir_error: None,
        log_dir_error: None,
    };
    let start = run_harness(
        &HarnessConfig {
            available_memory_bytes: 16 * 1024 * 1024 * 1024,
            output_path: ".webox/validation/test.md",
            runtime_mode: BrowserRuntimeMode::RealCef,
        },
        PlatformTarget::LinuxX64,
        "/opt/webox/webox",
        &probe,
        false,
    );
    let report = match start {
        HarnessStart::Finished(report) => report,
        HarnessStart::RunWorkloads(_) => panic!("an unready runtime must not run workloads"),
    };

    assert!(report.contains("Live MVP validation did not run workloads"));
    assert!(report.contains("EngineStartupFailure"));
    assert!(report.contains("engine-startup-failure"));
    assert!(report.contains("not a synthetic success"));
    assert!(report.contains("- Meets target: true"));
    assert!(report.contains("- Missing runtime assets: CEF distribution root (third_party/cef/linux-x64)"));
}

#[test]
fn simulated_harness_runs_record_the_simulation_failure() {
    let probe = ReadinessProbe {
        distribution_root_exists: true,
        locales_dir_exists: true,
        icudtl_exists: true,
        subprocess_exists: true,
        data_dir_error: None,
        cache_dir_error: None,
        log_dir_error: None,
    };
    let start = run_harness(
        &HarnessConfig {
            available_memory_bytes: 6 * 1024 * 1024 * 1024,
            output_path: ".webox/validation/test.md",
            runtime_mode: BrowserRuntimeMode::Simulated,
        },
        PlatformTarget::LinuxX64,
        "/opt/webox/webox",
        &probe,
        true,
    );
    match start {
        HarnessStart::Finished(report) => {
            assert!(report.contains("- Meets target: false"));
            assert!(report.contains("- Runtime mode: Simulated"));
            assert!(report.contains("- Simulation failure: simulated runtime cannot satisfy live MVP validation."));
        }
        HarnessStart::RunWorkloads(_) => panic!("a simulated runtime must not run workloads"),
    }
}

#[test]
fn ready_live_runtime_hands_the_workloads_to_the_host() {
    let probe = ReadinessProbe {
        distribution_root_exists: true,
        locales_dir_exists: true,
        icudtl_exists: true,
        subprocess_exists: true,
        data_dir_error: None,
        cache_dir_error: None,
        log_dir_error: None,
    };
    let start = run_harness(
        &HarnessConfig {
            available_memory_bytes: 16 * 1024 * 1024 * 1024,
            output_path: ".webox/validation/test.md",
            runtime_mode: BrowserRuntimeMode::RealCef,
        },
        PlatformTarget::LinuxX64,
        "/opt/webox/webox",
        &probe,
        true,
    );
    match start {
        HarnessStart::RunWorkloads(run) => {
            assert!(run.system_meets_target);
            assert!(run.runtime.live_mvp_ready());
            assert_eq!(run.lines[0], "# webox workload harness report");
            assert_eq!(run.lines.last().map(String::as_str), Some(""));
        }
        HarnessStart::Finished(_) => panic!("a ready runtime runs the workloads"),
    }
}

#[test]
fn classification_follows_its_priorities() {
    let workload = small_workload(WorkloadProof::RenderOnly);
    let snapshot = test_snapshot("tab-1", None);
    let crash = [event(BrowserInstanceEventKind::Crashed, "crashed")];
    assert_eq!(classify_observed_outcome(workload, &snapshot, &crash, true, true), RuntimeOutcome::Timeout);
    assert_eq!(classify_observed_outcome(workload, &snapshot, &crash, true, false), RuntimeOutcome::BrowserCrash);
    let painted = test_snapshot("tab-1", Some("painted".to_string()));
    let failed = [event(BrowserInstanceEventKind::NavigationFailed, "failed")];
    assert_eq!(
        classify_observed_outcome(workload, &painted, &failed, false, false),
        RuntimeOutcome::CompatibilityFailure
    );
    assert_eq!(failure_class(RuntimeOutcome::CompatibilityFailure), "compatibility-failure");
    assert_eq!(failure_class(RuntimeOutcome::ConstrainedMemory), "constrained-memory");
}

#[test]
fn input_proof_needs_every_input_kind() {
    let all = [
        event(BrowserInstanceEventKind::SurfaceUpdated, "Surface focus input routed for 'tab-1'"),
        event(BrowserInstanceEventKind::SurfaceUpdated, "Surface resize input routed for 'tab-1'"),
        event(BrowserInstanceEventKind::SurfaceUpdated, "pointer move input routed for 'tab-1'"),
        event(BrowserInstanceEventKind::SurfaceUpdated, "pointer button input routed for 'tab-1'"),
        event(BrowserInstanceEventKind::SurfaceUpdated, "text input routed for 'tab-1'"),
        event(BrowserInstanceEventKind::SurfaceUpdated, "wheel input routed for 'tab-1'"),
    ];
    assert!(input_proof_observed(&all));
    assert!(!input_proof_observed(&all[..5]));
}

#[test]
fn fixtures_resolve_to_urls() {
    assert_eq!(resolve_fixture_url("https://example.com/x", None), "https://example.com/x");
    assert_eq!(resolve_fixture_url("http://127.0.0.1:9/f", Some("/tmp".to_string())), "http://127.0.0.1:9/f");
    assert_eq!(
        resolve_fixture_url("validation/workloads/large-dom.html", Some("/work".to_string())),
        "file:///work/validation/workloads/large-dom.html"
    );
    assert_eq!(resolve_fixture_url("/abs/page.html", Some("/work".to_string())), "file:///abs/page.html");
    assert_eq!(resolve_fixture_url("page.html", None), "file://./page.html");
}

#[test]
fn workload_sections_list_the_observation() {
    let workloads = workloads();
    assert_eq!(workloads.len(), 7);
    assert_eq!(workloads[2].proof, WorkloadProof::InputInteraction);
    let observation = workload_observation(
        workloads[2],
        test_snapshot("tab-1", None),
        vec![event(BrowserInstanceEventKind::LoadFinished, "done")],
        true,
        false,
        42,
    );
    assert_eq!(observation.outcome, RuntimeOutcome::HostSurfaceFailure);
    assert_eq!(observation.render_proof, "missing render evidence");
    assert_eq!(
        observation.input_proof.as_deref(),
        Some("input proof missing explicit routed input observations")
    );
    let mut lines = vec!["head".to_string()];
    append_workload_result(&mut lines, &observation, true);
    assert_eq!(lines[1], "### Interaction Fixture");
    assert!(lines.contains(&"- Outcome: HostSurfaceFailure".to_string()));
    assert!(lines.contains(&"- Elapsed ms: 42".to_string()));
    assert!(lines.contains(&"- Actions: Observe".to_string()));
    assert!(lines.contains(&"- Observed events: LoadFinished".to_string()));
    assert!(lines.contains(&"- Runtime backend: Cef".to_string()));
    assert!(lines.contains(&"- Target outcome: system satisfies configured headroom target".to_string()));
    assert_eq!(lines.last().map(String::as_str), Some(""));
}

#[test]
fn waiting_ends_on_load_failure_crash_or_paint() {
    assert!(!reached_terminal_observation(&[]));
    assert!(!reached_terminal_observation(&[
        event(BrowserInstanceEventKind::LoadStarted, "started"),
        event(BrowserInstanceEventKind::TitleChanged, "title"),
    ]));
    assert!(reached_terminal_observation(&[
        event(BrowserInstanceEventKind::LoadStarted, "started"),
        event(BrowserInstanceEventKind::SurfaceUpdated, "painted"),
    ]));
    assert!(reached_terminal_observation(&[event(BrowserInstanceEventKind::Crashed, "crashed")]));
    assert!(reached_terminal_observation(&[event(
        BrowserInstanceEventKind::NavigationFailed,
        "failed"
    )]));
    assert!(reached_terminal_observation(&[event(BrowserInstanceEventKind::LoadFinished, "done")]));
}

#[test]
fn interaction_inputs_follow_the_proof_order() {
    let inputs = interaction_inputs();
    assert_eq!(inputs.len(), 7);
    assert_eq!(inputs[0], HostSurfaceInputEvent::Focus { focused: true });
    assert_eq!(inputs[1], HostSurfaceInputEvent::Resize { width: 1440, height: 900 });
    assert_eq!(
        inputs[4],
        HostSurfaceInputEvent::PointerButton {
            x: 96,
            y: 96,
            button: HostMouseButton::Left,
            pressed: false,
            click_count: 1,
        }
    );
    assert_eq!(inputs[5], HostSurfaceInputEvent::Text { text: "webox-input-proof".to_string() });
    assert_eq!(
        inputs[6],
        HostSurfaceInputEvent::Wheel { x: 128, y: 128, delta_x: 0, delta_y: -240 }
    );
}
