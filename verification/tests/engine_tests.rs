use webox::config::{AppConfig, PlatformTarget};
use webox::engine::{
    checked_paths_for, dir_errors_for, missing_paths_for, BrowserInstanceEventKind, BrowserSurfaceRenderMode, EngineState, HostMouseButton,
    HostSurfaceInputEvent, LiveBrowserCallbackEvent, LiveBrowserCallbackKind, ReadinessProbe,
    RuntimeBackend, RuntimeReadinessState, WeboxEngine,
};

fn missing_assets() -> ReadinessProbe {
    ReadinessProbe {
        distribution_root_exists: false,
        locales_dir_exists: false,
        icudtl_exists: false,
        subprocess_exists: false,
        data_dir_error: None,
        cache_dir_error: None,
        log_dir_error: None,
    }
}

fn all_assets() -> ReadinessProbe {
    ReadinessProbe {
        distribution_root_exists: true,
        locales_dir_exists: true,
        icudtl_exists: true,
        subprocess_exists: true,
        data_dir_error: None,
        cache_dir_error: None,
        log_dir_error: None,
    }
}

fn simulated() -> AppConfig {
    AppConfig::simulated(PlatformTarget::LinuxX64, "/opt/webox/webox")
}

fn development() -> AppConfig {
    AppConfig::development(PlatformTarget::LinuxX64, "/opt/webox/webox")
}

fn started_simulated() -> WeboxEngine {
    let mut engine = WeboxEngine::new(&simulated());
    let _ = engine.start(&missing_assets(), false);
    engine
}

fn started_live() -> WeboxEngine {
    let mut engine = WeboxEngine::new(&development());
    let _ = engine.start(&all_assets(), true);
    engine
}

#[test]
fn engine_starts_and_creates_browser_instance() {
    let mut engine = started_simulated();
    let instance = engine.create_browser_instance("https://example.com", false).unwrap();
    assert_eq!(engine.state(), EngineState::Started);
    assert_eq!(instance.id, "browser-instance-1");
    assert_eq!(instance.title, "Loading...");
    assert_eq!(engine.runtime_backend(), RuntimeBackend::Simulated);
    assert_eq!(instance.surface.render_mode, BrowserSurfaceRenderMode::Placeholder);
}

#[test]
fn engine_tracks_live_browser_instance_state() {
    let mut engine = started_simulated();
    let instance = engine.create_browser_instance("https://example.com", false).unwrap();

    engine.navigate_browser_instance(&instance.id, "https://example.com/dashboard").unwrap();
    engine.finish_navigation(&instance.id, "Example Dashboard").unwrap();
    engine
        .update_browser_memory(
            &instance.id,
            123,
            Some("memory warning".to_string()),
            None,
            Some("precise: renderer metrics".to_string()),
        )
        .unwrap();
    engine.resize_browser_surface(&instance.id, 1440, 900).unwrap();
    engine.set_surface_focus(&instance.id, true).unwrap();

    let state = engine.browser_instance(&instance.id).unwrap();
    assert_eq!(state.url, "https://example.com/dashboard");
    assert_eq!(state.title, "Example Dashboard");
    assert_eq!(state.memory_indicator.as_deref(), Some("memory warning"));
    assert_eq!(state.surface.width, 1440);
    assert!(state.surface.focused);

    let events = engine.drain_events();
    assert!(events.iter().any(|event| event.kind == BrowserInstanceEventKind::Created));
    assert!(events.iter().any(|event| event.kind == BrowserInstanceEventKind::LoadFinished));
    assert!(events.iter().any(|event| event.kind == BrowserInstanceEventKind::SurfaceUpdated));

    engine.close_browser_instance(&instance.id).unwrap();
    assert!(engine.browser_instance(&instance.id).is_none());
}

#[test]
fn engine_event_mapping_covers_navigation_surface_and_memory() {
    let mut engine = started_simulated();
    let instance = engine.create_browser_instance("https://example.com", false).unwrap();

    engine.navigate_browser_instance(&instance.id, "https://example.com/ready").unwrap();
    engine.finish_navigation(&instance.id, "Ready").unwrap();
    engine.resize_browser_surface(&instance.id, 1024, 768).unwrap();
    engine
        .update_browser_memory(
            &instance.id,
            42,
            Some("memory warning".to_string()),
            None,
            Some("source=SyntheticSample; confidence=TestOnly; live_mvp_evidence=false".to_string()),
        )
        .unwrap();

    let events = engine.drain_events();
    assert!(events.iter().any(|event| event.kind == BrowserInstanceEventKind::LoadStarted));
    assert!(events.iter().any(|event| event.kind == BrowserInstanceEventKind::LoadFinished));
    assert!(events.iter().any(|event| event.kind == BrowserInstanceEventKind::SurfaceUpdated));
    assert!(events.iter().any(|event| event.kind == BrowserInstanceEventKind::MemoryUpdated));
}

#[test]
fn engine_history_navigation_uses_live_state() {
    let mut engine = started_simulated();
    let instance = engine.create_browser_instance("https://example.com", false).unwrap();
    engine.navigate_browser_instance(&instance.id, "https://example.com/one").unwrap();
    engine.navigate_browser_instance(&instance.id, "https://example.com/two").unwrap();

    engine.go_back_browser_instance(&instance.id).unwrap();
    assert_eq!(engine.browser_instance(&instance.id).unwrap().url, "https://example.com/one");

    engine.go_forward_browser_instance(&instance.id).unwrap();
    assert_eq!(engine.browser_instance(&instance.id).unwrap().url, "https://example.com/two");
}

#[test]
fn runtime_plan_selects_real_cef_linux_target() {
    let plan = WeboxEngine::runtime_plan(&development());
    assert_eq!(plan.primary_target, "linux-x86_64");
    assert_eq!(plan.integration_crate, "cef (tauri-apps/cef-rs)");
    assert_eq!(plan.ui_host, "eframe/egui");
}

#[test]
fn live_mode_reports_missing_cef_assets_without_simulated_readiness() {
    let mut engine = WeboxEngine::new(&development());
    let diagnostic = engine.start(&missing_assets(), false);

    assert_eq!(diagnostic.component, "engine.readiness");
    assert_eq!(engine.runtime_backend(), RuntimeBackend::Cef);
    assert_eq!(engine.runtime_readiness().state, RuntimeReadinessState::LiveUnavailable);
    assert!(!engine.live_mvp_ready());
    assert!(!engine.runtime_readiness().missing_paths.is_empty());
    assert!(engine.create_browser_instance("https://example.com", false).is_err());
}

#[test]
fn simulated_mode_is_explicitly_not_live_mvp_ready() {
    let mut engine = WeboxEngine::new(&simulated());
    let diagnostic = engine.start(&missing_assets(), false);

    assert_eq!(engine.runtime_backend(), RuntimeBackend::Simulated);
    assert_eq!(engine.runtime_readiness().state, RuntimeReadinessState::Simulated);
    assert!(engine.runtime_readiness().simulated);
    assert!(!engine.live_mvp_ready());
    assert!(diagnostic.detail.contains("not live-MVP-ready"));
    assert!(engine.create_browser_instance("https://example.com", false).is_ok());
}

#[test]
fn unknown_instances_are_reported_by_id() {
    let mut engine = started_simulated();
    let error = engine.navigate_browser_instance("browser-instance-9", "https://x.test").unwrap_err();
    assert_eq!(error.message, "Browser instance 'browser-instance-9' was not found");
    assert!(engine.close_browser_instance("browser-instance-9").is_err());
    assert!(engine.go_back_browser_instance("browser-instance-9").is_err());
    assert!(engine.drain_events().is_empty());
}

#[test]
fn creating_before_start_is_refused() {
    let mut engine = WeboxEngine::new(&simulated());
    let error = engine.create_browser_instance("https://example.com", false).unwrap_err();
    assert_eq!(error.message, "Engine must be started before creating browser instances");
    assert_eq!(engine.next_browser_instance_id(), "browser-instance-1");
}

#[test]
fn missing_assets_are_listed_in_order() {
    let mut engine = WeboxEngine::new(&development());
    let probe = ReadinessProbe {
        distribution_root_exists: true,
        locales_dir_exists: false,
        icudtl_exists: true,
        subprocess_exists: false,
        data_dir_error: Some("permission denied".to_string()),
        cache_dir_error: None,
        log_dir_error: None,
    };
    let readiness = engine.check_live_runtime_readiness(&probe);
    assert_eq!(
        readiness.missing_paths,
        vec![
            "CEF locales (third_party/cef/linux-x64/locales)".to_string(),
            "CEF subprocess (/opt/webox/webox)".to_string(),
            "runtime dir .webox/data: permission denied".to_string(),
        ]
    );
    assert_eq!(readiness.readiness_errors.len(), 1);
    assert_eq!(readiness.checked_paths.len(), 7);
    assert!(readiness.summary.starts_with("Live CEF prerequisites missing: CEF locales"));
    let diagnostic = engine.start(&probe, true);
    assert!(diagnostic.detail.starts_with("Live CEF runtime unavailable; missing required paths: "));
}

#[test]
fn live_start_reports_initialization_outcome() {
    let engine = started_live();
    assert_eq!(engine.runtime_readiness().state, RuntimeReadinessState::LiveReady);
    assert!(engine.live_mvp_ready());
    let mut failed = WeboxEngine::new(&development());
    let diagnostic = failed.start(&all_assets(), false);
    assert_eq!(diagnostic.detail, "CEF initialization failed; live browser mode unavailable");
    assert_eq!(failed.runtime_readiness().state, RuntimeReadinessState::InitializationFailed);
    assert!(!failed.live_mvp_ready());
}

#[test]
fn live_instances_follow_cef_callbacks() {
    let mut engine = started_live();
    assert!(engine.create_browser_instance("https://example.com", false).is_err());
    let id = engine.next_browser_instance_id();
    assert_eq!(id, "browser-instance-2");
    let instance = engine.create_browser_instance("https://example.com", true).unwrap();
    assert_eq!(instance.id, id);
    assert!(engine.is_live_browser_instance(&id));
    assert_eq!(engine.live_browser_instance_count(), 1);
    assert!(engine.finish_navigation(&id, "Title").is_err());

    engine.tick(vec![
        LiveBrowserCallbackEvent {
            browser_id: id.clone(),
            kind: LiveBrowserCallbackKind::AddressChanged { url: "https://example.com/a".to_string() },
        },
        LiveBrowserCallbackEvent {
            browser_id: id.clone(),
            kind: LiveBrowserCallbackKind::TitleChanged { title: "Page A".to_string() },
        },
        LiveBrowserCallbackEvent {
            browser_id: id.clone(),
            kind: LiveBrowserCallbackKind::LoadFinished { http_status_code: 200 },
        },
        LiveBrowserCallbackEvent {
            browser_id: id.clone(),
            kind: LiveBrowserCallbackKind::Painted {
                width: 640,
                height: -5,
                dirty_rects: 3,
                buffer: Some(vec![1, 2, 3, 4]),
            },
        },
    ]);
    let state = engine.browser_instance(&id).unwrap();
    assert_eq!(state.url, "https://example.com/a");
    assert_eq!(state.title, "Page A");
    assert_eq!(state.history, vec!["https://example.com".to_string(), "https://example.com/a".to_string()]);
    assert!(state.can_go_back);
    assert!(!state.is_loading);
    assert_eq!(state.surface.width, 640);
    assert_eq!(state.surface.height, 0);
    assert_eq!(state.surface.damage_events, 3);
    assert_eq!(state.surface.frame_buffer.as_ref().unwrap().bgra, vec![1, 2, 3, 4]);
    assert_eq!(
        state.surface.render_evidence.as_deref(),
        Some("CEF painted frame 640x-5 with 3 dirty rect(s)")
    );

    engine.go_back_browser_instance(&id).unwrap();
    let state = engine.browser_instance(&id).unwrap();
    assert!(state.is_loading);
    assert_eq!(state.status_text, "CEF back navigation requested");

    engine.apply_live_callback(LiveBrowserCallbackEvent {
        browser_id: id.clone(),
        kind: LiveBrowserCallbackKind::LoadError {
            code: "ERR_CONNECTION_REFUSED".to_string(),
            text: "refused".to_string(),
            url: "http://127.0.0.1:9/".to_string(),
        },
    });
    let state = engine.browser_instance(&id).unwrap();
    assert_eq!(
        state.failure_state.as_deref(),
        Some("CEF load error ERR_CONNECTION_REFUSED for http://127.0.0.1:9/: refused")
    );
    let events = engine.drain_events();
    assert!(events.iter().any(|event| event.kind == BrowserInstanceEventKind::NavigationFailed));

    engine.close_browser_instance(&id).unwrap();
    assert!(!engine.is_live_browser_instance(&id));
}

#[test]
fn surface_input_is_routed_and_reported() {
    let mut engine = started_simulated();
    let instance = engine.create_browser_instance("https://example.com", false).unwrap();
    let _ = engine.drain_events();
    engine
        .dispatch_surface_input(
            &instance.id,
            HostSurfaceInputEvent::PointerButton {
                x: 3,
                y: -4,
                button: HostMouseButton::Right,
                pressed: true,
                click_count: 2,
            },
        )
        .unwrap();
    let state = engine.browser_instance(&instance.id).unwrap();
    assert_eq!(
        state.status_text,
        "Forwarded host surface input: PointerButton { x: 3, y: -4, button: Right, pressed: true, click_count: 2 }"
    );
    engine
        .dispatch_surface_input(&instance.id, HostSurfaceInputEvent::Text { text: "hi \"there\"".to_string() })
        .unwrap();
    assert_eq!(
        engine.browser_instance(&instance.id).unwrap().status_text,
        "Forwarded host surface input: Text { text: \"hi \\\"there\\\"\" }"
    );
    engine
        .dispatch_surface_input(&instance.id, HostSurfaceInputEvent::Resize { width: 800, height: 600 })
        .unwrap();
    let events = engine.drain_events();
    let summaries: Vec<&str> = events.iter().map(|event| event.summary.as_str()).collect();
    assert_eq!(
        summaries,
        vec![
            "pointer button input routed for 'browser-instance-1'",
            "text input routed for 'browser-instance-1'",
            "Surface resized for 'browser-instance-1' to 800x600",
            "Surface resize input routed for 'browser-instance-1'",
        ]
    );
    assert!(engine.dispatch_surface_input("nope", HostSurfaceInputEvent::PointerMove { x: 0, y: 0 }).is_ok());
    assert!(engine.dispatch_surface_input("nope", HostSurfaceInputEvent::Focus { focused: true }).is_err());
}

#[test]
fn failures_crashes_and_reloads_update_the_instance() {
    let mut engine = started_simulated();
    let instance = engine.create_browser_instance("https://example.com", false).unwrap();
    engine.fail_navigation(&instance.id, "DNS failure").unwrap();
    let state = engine.browser_instance(&instance.id).unwrap();
    assert_eq!(state.failure_state.as_deref(), Some("DNS failure"));
    assert_eq!(state.status_text, "Navigation failed: DNS failure");
    engine.reload_browser_instance(&instance.id).unwrap();
    let state = engine.browser_instance(&instance.id).unwrap();
    assert_eq!(state.failure_state, None);
    assert_eq!(state.history.len(), 2);
    assert_eq!(state.url, "https://example.com");
    engine.crash_browser_instance(&instance.id, "renderer gone").unwrap();
    let state = engine.browser_instance(&instance.id).unwrap();
    assert_eq!(state.surface.last_frame_label, "Crash: renderer gone");
    let events = engine.drain_events();
    assert!(events.iter().any(|event| event.kind == BrowserInstanceEventKind::Crashed));
}

#[test]
fn shutdown_reports_every_instance_closed() {
    let mut engine = started_simulated();
    engine.create_browser_instance("https://a.test", false).unwrap();
    engine.create_browser_instance("https://b.test", false).unwrap();
    let _ = engine.drain_events();
    let diagnostic = engine.shutdown();
    assert_eq!(diagnostic.detail, "Engine shutdown requested and Simulated runtime cleanup completed");
    assert_eq!(engine.state(), EngineState::Stopped);
    assert!(engine.browser_instances().is_empty());
    let events = engine.drain_events();
    assert_eq!(events.len(), 2);
    assert!(events.iter().all(|event| event.kind == BrowserInstanceEventKind::Closed && event.snapshot.is_some()));
    assert_eq!(engine.diagnostics().len(), 4);
}

#[test]
fn instances_are_listed_by_id() {
    let mut engine = started_simulated();
    for _ in 0..11 {
        engine.create_browser_instance("https://a.test", false).unwrap();
    }
    let ids: Vec<String> = engine.browser_instances().into_iter().map(|instance| instance.id).collect();
    let mut sorted = ids.clone();
    sorted.sort();
    assert_eq!(ids, sorted);
    assert_eq!(ids[0], "browser-instance-1");
    assert_eq!(ids[1], "browser-instance-10");
}

#[test]
fn readiness_parts_describe_given_paths() {
    let engine = WeboxEngine::new(&AppConfig::development(PlatformTarget::LinuxX64, "/opt/webox/webox"));
    let st = engine.launch_settings();
    let checked = checked_paths_for(st, "/cef/icudtl.dat");
    assert_eq!(checked.len(), 7);
    assert_eq!(checked[2], "CEF resources (icudtl.dat): /cef/icudtl.dat");
    assert_eq!(checked[3], format!("CEF subprocess: {}", st.subprocess_path));
    let probe = ReadinessProbe {
        distribution_root_exists: true,
        locales_dir_exists: true,
        icudtl_exists: false,
        subprocess_exists: true,
        data_dir_error: Some("denied".to_string()),
        cache_dir_error: None,
        log_dir_error: None,
    };
    let errors = dir_errors_for(st, &probe);
    assert_eq!(errors, vec![format!("runtime dir {}: denied", st.data_dir)]);
    let missing = missing_paths_for(st, &probe, "/cef/icudtl.dat", &errors);
    assert_eq!(
        missing,
        vec![
            "CEF resources (/cef/icudtl.dat) \u{2014} icudtl.dat not found; resources_dir may be wrong"
                .to_string(),
            format!("runtime dir {}: denied", st.data_dir),
        ]
    );
}
