use webox::config::{AppConfig, PlatformTarget};
use webox::engine::{LiveBrowserCallbackEvent, LiveBrowserCallbackKind, ReadinessProbe};
use webox::memory::{MemoryEvent, ProcessMemoryObservation, ProcessScan, TabTelemetry};
use webox::runtime_api::{EmbeddedRuntime, EmbeddedRuntimeConfig, MemoryEventObserver};
use std::sync::{Arc, Mutex};

fn missing_assets() -> ReadinessProbe {
    ReadinessProbe {
        distribution_root_exists: false,
        locales_dir_exists: false,
        icudtl_exists: false,
        subprocess_exists: false,
        data_dir_error: None,
        cache_dir_error: None,
        log_dir_error: None,
    }
}

fn runtime_for(config: AppConfig) -> EmbeddedRuntime {
    EmbeddedRuntime::new(
        EmbeddedRuntimeConfig { app_config: config, available_memory_bytes: 16 * 1024 * 1024 * 1024 },
        &missing_assets(),
        false,
    )
}

fn scan() -> ProcessScan {
    ProcessScan {
        browser_processes: vec![ProcessMemoryObservation {
            pid: 77,
            command: "webox --type=renderer".to_string(),
            rss_bytes: 2048,
        }],
        current_process: ProcessMemoryObservation {
            pid: 1,
            command: "current webox process".to_string(),
            rss_bytes: 1024,
        },
    }
}

#[test]
fn embedded_runtime_initializes() {
    let runtime = runtime_for(AppConfig::development(PlatformTarget::LinuxX64, "/opt/webox/webox"));
    assert!(runtime.is_initialized());
    assert_eq!(runtime.diagnostics().len(), 1);
}

#[test]
fn embedded_runtime_tracks_browser_memory_and_navigation() {
    let mut runtime = runtime_for(AppConfig::simulated(PlatformTarget::LinuxX64, "/opt/webox/webox"));
    let instance = runtime.create_browser_instance("https://example.com", false).unwrap();

    runtime.navigate_browser_instance(&instance.id, "https://example.com/heavy").unwrap();
    runtime.finish_navigation(&instance.id, "Heavy App").unwrap();
    runtime.resize_browser_surface(&instance.id, 1600, 900).unwrap();
    let snapshot = runtime
        .apply_memory_sample(&TabTelemetry {
            tab_id: instance.id.clone(),
            renderer_bytes: 8,
            browser_bytes: 2,
            gpu_bytes: 1,
        })
        .unwrap();

    assert_eq!(snapshot.browser.title, "Heavy App");
    assert_eq!(snapshot.browser.url, "https://example.com/heavy");
    assert_eq!(snapshot.policy_decision.event.tab_id, instance.id);
    assert_eq!(snapshot.browser.surface.width, 1600);
    assert!(!runtime.drain_events().is_empty());
}

#[test]
fn embedded_runtime_exposes_observed_memory_attribution() {
    let mut runtime = runtime_for(AppConfig::simulated(PlatformTarget::LinuxX64, "/opt/webox/webox"));
    let instance = runtime.create_browser_instance("https://example.com", false).unwrap();

    let snapshot = runtime.apply_observed_memory_sample(&instance.id, 5_000, Some(scan())).unwrap();

    assert!(snapshot
        .browser
        .memory_attribution
        .as_deref()
        .is_some_and(|attribution| attribution.contains("live_mvp_evidence=true")));
}

struct Recorder {
    seen: Mutex<Vec<String>>,
}

impl MemoryEventObserver for Recorder {
    fn on_memory_event(&self, event: &MemoryEvent) {
        self.seen.lock().unwrap().push(event.summary.clone());
    }
}

#[test]
fn observer_receives_classified_events() {
    let mut runtime = runtime_for(AppConfig::simulated(PlatformTarget::LinuxX64, "/opt/webox/webox"));
    let recorder = Arc::new(Recorder { seen: Mutex::new(Vec::new()) });
    runtime.register_memory_observer(Some(recorder.clone()));
    let instance = runtime.create_browser_instance("https://example.com", false).unwrap();
    let snapshot = runtime
        .apply_memory_sample(&TabTelemetry {
            tab_id: instance.id.clone(),
            renderer_bytes: 9 * 1024 * 1024 * 1024,
            browser_bytes: 0,
            gpu_bytes: 0,
        })
        .unwrap();
    assert_eq!(
        recorder.seen.lock().unwrap().clone(),
        vec!["Tab 'browser-instance-1' is at Exhausted memory pressure".to_string()]
    );
    assert_eq!(snapshot.browser.memory_indicator.as_deref(), Some("memory exhaustion risk"));
    assert_eq!(
        snapshot.browser.failure_state.as_deref(),
        Some("Tab ended due to suspected memory exhaustion")
    );
}

#[test]
fn samples_for_unknown_tabs_are_refused() {
    let mut runtime = runtime_for(AppConfig::simulated(PlatformTarget::LinuxX64, "/opt/webox/webox"));
    let error = runtime
        .apply_memory_sample(&TabTelemetry {
            tab_id: "browser-instance-5".to_string(),
            renderer_bytes: 1,
            browser_bytes: 1,
            gpu_bytes: 1,
        })
        .err()
        .unwrap();
    assert_eq!(error, "Browser instance 'browser-instance-5' was not found");
    assert!(runtime.drain_events().is_empty());
}

#[test]
fn cached_observation_is_reused_within_ttl() {
    let mut runtime = runtime_for(AppConfig::simulated(PlatformTarget::LinuxX64, "/opt/webox/webox"));
    let instance = runtime.create_browser_instance("https://example.com", false).unwrap();
    assert!(!runtime.memory_cache_fresh(5_000));
    let first = runtime.apply_observed_memory_sample(&instance.id, 5_000, Some(scan())).unwrap();
    assert!(runtime.memory_cache_fresh(6_000));
    let second = runtime.apply_observed_memory_sample(&instance.id, 6_000, None).unwrap();
    assert_eq!(first.policy_decision.event.total_bytes, 2048);
    assert_eq!(second.policy_decision.event.total_bytes, 2048);
    assert_eq!(second.browser.memory_usage_bytes, 2048);
}

#[test]
fn text_input_is_routed_through_the_engine() {
    let mut runtime = runtime_for(AppConfig::simulated(PlatformTarget::LinuxX64, "/opt/webox/webox"));
    let instance = runtime.create_browser_instance("https://example.com", false).unwrap();
    runtime.dispatch_text_input(&instance.id, "abc").unwrap();
    let state = runtime.browser_instance(&instance.id).unwrap();
    assert_eq!(state.status_text, "Forwarded host surface input: Text { text: \"abc\" }");
    assert!(runtime.reload_browser_instance(&instance.id).is_ok());
    assert!(runtime.fail_navigation(&instance.id, "offline").is_ok());
    assert!(runtime.close_browser_instance(&instance.id).is_ok());
    assert!(runtime.browser_instances().is_empty());
    assert!(!runtime.live_mvp_ready());
    assert!(runtime.runtime_readiness().simulated);
    assert!(runtime.system_report(16 * 1024 * 1024 * 1024).meets_target);
}

#[test]
fn runtime_names_the_next_instance_and_applies_host_callbacks() {
    let mut runtime = runtime_for(AppConfig::simulated(PlatformTarget::LinuxX64, "/opt/webox/webox"));
    assert_eq!(runtime.next_browser_instance_id(), "browser-instance-1");
    let descriptor = runtime.create_browser_instance("https://example.com", false).unwrap();
    assert_eq!(descriptor.id, "browser-instance-1");
    assert_eq!(runtime.next_browser_instance_id(), "browser-instance-2");
    let _ = runtime.drain_events();
    runtime.tick(vec![LiveBrowserCallbackEvent {
        browser_id: descriptor.id.clone(),
        kind: LiveBrowserCallbackKind::TitleChanged { title: "Example Domain".to_string() },
    }]);
    assert_eq!(runtime.browser_instance(&descriptor.id).unwrap().title, "Example Domain");
    assert!(!runtime.drain_events().is_empty());
}
