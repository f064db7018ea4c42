use webox::config::{AppConfig, PlatformTarget};
use webox::engine::{LiveBrowserCallbackEvent, LiveBrowserCallbackKind, ReadinessProbe};
use webox::memory::{MemoryAttribution, ProcessMemoryObservation, ProcessScan, TabTelemetry};
use webox::shell::{map_surface_input_event, HostShell};
use webox::engine::HostSurfaceInputEvent;
use webox::ui::{BrowserCommand, SurfaceInputEvent, SurfaceMouseButton};

fn probe(present: bool) -> ReadinessProbe {
    ReadinessProbe {
        distribution_root_exists: present,
        locales_dir_exists: present,
        icudtl_exists: present,
        subprocess_exists: present,
        data_dir_error: None,
        cache_dir_error: None,
        log_dir_error: None,
    }
}

fn simulated() -> AppConfig {
    AppConfig::simulated(PlatformTarget::LinuxX64, "/opt/webox/webox")
}

fn development() -> AppConfig {
    AppConfig::development(PlatformTarget::LinuxX64, "/opt/webox/webox")
}

fn started(config: AppConfig) -> HostShell {
    let mut shell = HostShell::new(config);
    shell.start(&probe(false), false);
    shell
}

fn scan() -> ProcessScan {
    ProcessScan {
        browser_processes: Vec::new(),
        current_process: ProcessMemoryObservation {
            pid: 1,
            command: "current webox process".to_string(),
            rss_bytes: 4096,
        },
    }
}

#[test]
fn host_shell_starts_and_opens_tabs() {
    let mut shell = started(simulated());
    let window = shell.create_window("window-1");
    let tab = shell.open_tab(&window, "https://webox.dev", false).unwrap();
    shell.finish_navigation(&window, &tab, "webox").unwrap();
    let decision = shell
        .record_tab_telemetry(
            &window,
            &TabTelemetry { tab_id: tab.clone(), renderer_bytes: 1, browser_bytes: 1, gpu_bytes: 1 },
        )
        .unwrap();
    assert_eq!(decision.event.tab_id, tab);
    assert_eq!(shell.startup_diagnostics().len(), 1);
}

#[test]
fn host_shell_dispatches_navigation_commands() {
    let mut shell = started(simulated());
    let window = shell.create_window("window-1");
    let tab = shell.open_tab(&window, "https://webox.dev", false).unwrap();
    shell
        .dispatch_command(
            &window,
            BrowserCommand::Navigate { tab_id: tab.clone(), url: "https://example.com".to_string() },
        )
        .unwrap();
    let current_url = &shell.window(&window).unwrap().tabs[0].url;
    assert_eq!(current_url, "https://example.com");
    assert!(shell.window(&window).unwrap().tabs[0].is_loading);
}

#[test]
fn host_shell_updates_live_engine_state_for_tabs() {
    let mut shell = started(simulated());
    let window = shell.create_window("window-1");
    let tab = shell.open_tab(&window, "https://webox.dev", false).unwrap();

    shell.finish_navigation(&window, &tab, "webox home").unwrap();
    let engine_tab = shell.engine().browser_instance(&tab).unwrap();
    assert_eq!(engine_tab.title, "webox home");
    assert_eq!(shell.runtime_mode_for_tab(&tab), Some("Simulated"));

    shell.close_tab(&window, &tab).unwrap();
    assert!(shell.engine().browser_instance(&tab).is_none());
}

#[test]
fn host_shell_history_commands_use_engine_navigation() {
    let mut shell = started(simulated());
    let window = shell.create_window("window-1");
    let tab = shell.open_tab(&window, "https://webox.dev", false).unwrap();

    shell.navigate_tab(&window, &tab, "https://example.com/one").unwrap();
    shell.navigate_tab(&window, &tab, "https://example.com/two").unwrap();

    shell.go_back(&window, &tab).unwrap();
    assert_eq!(shell.window(&window).unwrap().tabs[0].url, "https://example.com/one");

    shell.go_forward(&window, &tab).unwrap();
    assert_eq!(shell.window(&window).unwrap().tabs[0].url, "https://example.com/two");
}

#[test]
fn host_shell_surfaces_live_readiness_failures() {
    let mut shell = started(development());
    let window = shell.create_window("window-1");

    let result = shell.open_tab(&window, "https://webox.dev", false);

    assert!(result.is_err());
    assert!(!shell.live_mvp_ready());
    assert!(!shell.runtime_readiness().missing_paths.is_empty());
    assert_eq!(shell.startup_diagnostics()[0].component, "engine.readiness");
}

#[test]
fn host_shell_records_observed_memory_attribution() {
    let mut shell = started(simulated());
    let window = shell.create_window("window-1");
    let tab = shell.open_tab(&window, "https://webox.dev", false).unwrap();

    shell.collect_observed_tab_telemetry(&window, &tab, 1_000, Some(scan())).unwrap();

    let tab_state =
        shell.window(&window).unwrap().tabs.iter().find(|candidate| candidate.id == tab).unwrap();
    assert!(tab_state
        .memory_attribution
        .as_deref()
        .is_some_and(|attribution| attribution.contains("AggregateProcessRss")));
    assert!(tab_state
        .memory_attribution
        .as_deref()
        .is_some_and(|attribution| attribution.contains("live_mvp_evidence=true")));
}

#[test]
fn browser_smoke_flow_covers_startup_navigation_and_shutdown() {
    let mut shell = started(simulated());

    let window = shell.create_window("window-1");
    let tab = shell.open_tab(&window, "https://webox.dev", false).unwrap();
    shell
        .dispatch_command(
            &window,
            BrowserCommand::Navigate { tab_id: tab.clone(), url: "https://example.com".to_string() },
        )
        .unwrap();
    shell.finish_navigation(&window, &tab, "Example").unwrap();
    shell.shutdown();

    assert_eq!(shell.window(&window).unwrap().tabs[0].title, "Example");
    assert_eq!(shell.startup_diagnostics().len(), 2);
}

#[test]
fn live_smoke_flow_reports_missing_runtime_assets() {
    let mut shell = started(development());

    let window = shell.create_window("window-1");
    let result = shell.open_tab(&window, "https://webox.dev", false);

    assert!(result.is_err());
    assert!(!shell.live_mvp_ready());
    assert!(!shell.runtime_readiness().missing_paths.is_empty());
}

#[test]
fn browser_smoke_flow_surfaces_memory_pressure_in_visible_state() {
    let mut shell = started(simulated());

    let window = shell.create_window("window-1");
    let tab = shell.open_tab(&window, "https://webox.dev", false).unwrap();
    shell.finish_navigation(&window, &tab, "webox").unwrap();
    shell
        .record_tab_telemetry(
            &window,
            &TabTelemetry {
                tab_id: tab.clone(),
                renderer_bytes: 8 * 1024 * 1024 * 1024,
                browser_bytes: 256 * 1024 * 1024,
                gpu_bytes: 128 * 1024 * 1024,
            },
        )
        .unwrap();

    let tab_state =
        shell.window(&window).unwrap().tabs.iter().find(|candidate| candidate.id == tab).unwrap();
    assert_eq!(tab_state.memory_indicator.as_deref(), Some("memory exhaustion risk"));
    assert!(tab_state
        .failure_state
        .as_deref()
        .is_some_and(|failure| failure.contains("suspected memory exhaustion")));
    assert!(tab_state
        .memory_attribution
        .as_deref()
        .is_some_and(|attribution| attribution.contains("live_mvp_evidence=false")));
}

#[test]
fn browser_smoke_flow_accepts_observed_memory_telemetry() {
    let mut shell = started(simulated());

    let window = shell.create_window("window-1");
    let tab = shell.open_tab(&window, "https://webox.dev", false).unwrap();
    shell
        .record_tab_telemetry_with_attribution(
            &window,
            &TabTelemetry { tab_id: tab.clone(), renderer_bytes: 8, browser_bytes: 4, gpu_bytes: 2 },
            MemoryAttribution::aggregate_process(1),
        )
        .unwrap();

    let tab_state =
        shell.window(&window).unwrap().tabs.iter().find(|candidate| candidate.id == tab).unwrap();
    assert!(tab_state
        .memory_attribution
        .as_deref()
        .is_some_and(|attribution| attribution.contains("live_mvp_evidence=true")));
}

#[test]
fn exhaustion_keeps_a_recovery_report() {
    let mut shell = started(simulated());
    let window = shell.create_window("window-1");
    let tab = shell.open_tab(&window, "https://webox.dev", false).unwrap();
    shell
        .record_tab_telemetry(
            &window,
            &TabTelemetry { tab_id: tab.clone(), renderer_bytes: 9 * 1024 * 1024 * 1024, browser_bytes: 0, gpu_bytes: 0 },
        )
        .unwrap();
    assert_eq!(shell.recovery_reports().len(), 1);
    assert_eq!(shell.recovery_reports()[0].tab_id, tab);
    assert_eq!(shell.recovery_reports()[0].captured_bytes, 9 * 1024 * 1024 * 1024);
}

#[test]
fn unknown_windows_are_reported() {
    let mut shell = started(simulated());
    let result = shell.open_tab("missing", "https://webox.dev", false);
    assert_eq!(result.unwrap_err(), "Window 'missing' was not found");
    let window = shell.create_window("window-1");
    let tab = shell.open_tab(&window, "https://webox.dev", false).unwrap();
    assert_eq!(
        shell.dispatch_command("missing", BrowserCommand::ActivateTab { tab_id: tab.clone() }).unwrap_err(),
        "Window 'missing' was not found"
    );
    assert_eq!(
        shell.close_tab(&window, "browser-instance-9").unwrap_err(),
        "Browser instance 'browser-instance-9' was not found"
    );
}

#[test]
fn tabs_in_two_windows_mirror_the_engine() {
    let mut shell = started(simulated());
    let first = shell.create_window("window-1");
    let second = shell.create_window("window-2");
    let a = shell.open_tab(&first, "https://a.test", false).unwrap();
    let b = shell.open_tab(&second, "https://b.test", false).unwrap();
    shell.finish_navigation(&second, &b, "B").unwrap();
    assert_eq!(shell.window(&second).unwrap().tabs[0].title, "B");
    assert_eq!(shell.window(&first).unwrap().tabs[0].title, "Loading...");
    shell.dispatch_command(&first, BrowserCommand::ActivateTab { tab_id: a.clone() }).unwrap();
    assert!(shell.window(&first).unwrap().tabs[0].surface.focused);
    shell.dispatch_command(&first, BrowserCommand::CloseTab { tab_id: a.clone() }).unwrap();
    assert!(shell.window(&first).unwrap().tabs.is_empty());
    assert_eq!(shell.runtime_mode_for_tab(&a), None);
    assert_eq!(shell.windows().len(), 2);
}

#[test]
fn surface_input_maps_to_engine_input() {
    assert_eq!(
        map_surface_input_event(SurfaceInputEvent::PointerButton {
            x: 1,
            y: 2,
            button: SurfaceMouseButton::Middle,
            pressed: false,
            click_count: 1,
        }),
        HostSurfaceInputEvent::PointerButton {
            x: 1,
            y: 2,
            button: webox::engine::HostMouseButton::Middle,
            pressed: false,
            click_count: 1,
        }
    );
    let mut shell = started(simulated());
    let window = shell.create_window("window-1");
    let tab = shell.open_tab(&window, "https://webox.dev", false).unwrap();
    shell.dispatch_surface_input(&tab, SurfaceInputEvent::Resize { width: 900, height: 500 }).unwrap();
    assert_eq!(shell.window(&window).unwrap().tabs[0].surface.width, 900);
    shell.resize_tab_surface(&tab, 1000, 700).unwrap();
    shell.focus_tab_surface(&tab, false).unwrap();
    shell.reload_tab(&window, &tab).unwrap();
    shell.fail_tab_navigation(&tab, "offline").unwrap();
    let state = &shell.window(&window).unwrap().tabs[0];
    assert_eq!(state.surface.width, 1000);
    assert_eq!(state.failure_state.as_deref(), Some("offline"));
}

#[test]
fn live_callbacks_reach_the_windows() {
    let mut shell = HostShell::new(development());
    shell.start(&probe(true), true);
    assert!(shell.live_mvp_ready());
    let window = shell.create_window("window-1");
    let tab = shell.open_tab(&window, "https://webox.dev", true).unwrap();
    assert_eq!(shell.runtime_mode_for_tab(&tab), Some("Cef"));
    shell.tick(vec![LiveBrowserCallbackEvent {
        browser_id: tab.clone(),
        kind: LiveBrowserCallbackKind::TitleChanged { title: "Live".to_string() },
    }]);
    assert_eq!(shell.window(&window).unwrap().tabs[0].title, "Live");
}

#[test]
fn new_tabs_have_room_for_surface_counters() {
    let mut shell = started(simulated());
    let window = shell.create_window("window-1");
    let tab = shell.open_tab(&window, "https://webox.dev", false).unwrap();
    assert!(shell.surface_counters_fit(&tab));
    assert!(shell.surface_counters_fit("browser-instance-99"));
    assert!(shell.frame_counter_fits(&tab));
    assert!(shell.frame_counter_fits("browser-instance-99"));
}
