use webox::browser::{tab_label, BrowserSession};
use webox::config::{AppConfig, PlatformTarget};
use webox::engine::ReadinessProbe;

fn probe(present: bool) -> ReadinessProbe {
    ReadinessProbe {
        distribution_root_exists: present,
        locales_dir_exists: present,
        icudtl_exists: present,
        subprocess_exists: present,
        data_dir_error: None,
        cache_dir_error: None,
        log_dir_error: None,
    }
}

fn simulated() -> AppConfig {
    AppConfig::simulated(PlatformTarget::LinuxX64, "/opt/webox/webox")
}

fn development() -> AppConfig {
    AppConfig::development(PlatformTarget::LinuxX64, "/opt/webox/webox")
}

/// The browser as it comes up: the session for `config` with its home tab.
fn from_config(config: AppConfig) -> BrowserSession {
    let mut app = BrowserSession::from_config(config, &probe(false), false);
    app.open_home_tab(false, None, 0);
    app
}

#[test]
fn chrome_actions_drive_shell_state() {
    let mut app = from_config(simulated());
    let first_tab = app.active_tab_id().expect("initial tab should exist");

    app.address_input = "https://example.com".to_string();
    app.navigate_active_to_address();

    assert_eq!(app.active_tab().map(|tab| tab.url.as_str()), Some("https://example.com"));
    assert_eq!(app.active_tab().map(|tab| tab.title.as_str()), Some("Loading..."));

    app.open_new_tab(false);
    let second_tab = app.active_tab_id().expect("new active tab should exist");
    assert_ne!(first_tab, second_tab);

    app.activate_tab(&first_tab);
    assert_eq!(app.active_tab_id().as_deref(), Some(first_tab.as_str()));
    assert_eq!(app.address_input, "https://example.com");

    app.close_tab(&first_tab);
    assert_eq!(app.active_tab_id().as_deref(), Some(second_tab.as_str()));
    assert_eq!(app.shell.window(&app.window_id).unwrap().tabs.len(), 1);
}

#[test]
fn back_and_forward_actions_follow_tab_history() {
    let mut app = from_config(simulated());

    app.address_input = "https://example.com/one".to_string();
    app.navigate_active_to_address();
    app.address_input = "https://example.com/two".to_string();
    app.navigate_active_to_address();

    app.go_back_active();
    assert_eq!(app.active_tab().map(|tab| tab.url.as_str()), Some("https://example.com/one"));

    app.go_forward_active();
    assert_eq!(app.active_tab().map(|tab| tab.url.as_str()), Some("https://example.com/two"));
}

#[test]
fn browser_surface_reflects_engine_metrics() {
    let app = from_config(simulated());
    let tab = app.active_tab().expect("initial tab should exist");
    assert!(tab.surface.frame_token > 0);
    assert!(tab.surface.width >= 1280);
    assert!(tab.status_text.contains("Observed memory state"));
    assert!(tab.memory_attribution.is_some());
    assert!(tab
        .memory_attribution
        .as_deref()
        .is_some_and(|attribution| attribution.contains("live_mvp_evidence=false")));
}

#[test]
fn diagnostics_surface_runtime_paths_and_failures() {
    let app = from_config(development());

    assert!(app.show_diagnostics);
    assert!(app.diagnostics_lines().iter().any(|line| line.contains("CEF subprocess")));
    assert!(app.diagnostics_lines().iter().any(|line| line.contains("Remote debugging port")));
    assert!(app
        .failure_state_lines()
        .iter()
        .any(|line| line.contains("Live runtime unavailable")));
}

#[test]
fn session_starts_with_home_page_and_status() {
    let app = BrowserSession::from_config(simulated(), &probe(false), false);
    assert_eq!(app.window_id, "window-1");
    assert_eq!(app.address_input, "https://example.com");
    assert_eq!(app.window_title, "webox - ready");
    assert!(app.show_diagnostics);
    assert!(app.last_status.starts_with("Runtime: "));
    assert!(app.last_status.ends_with("; live MVP ready: false"));
    assert_eq!(app.next_tab_id(), "browser-instance-1");
    assert!(app.active_tab().is_none());
}

#[test]
fn missing_live_runtime_leaves_the_window_without_tabs() {
    let app = from_config(development());
    assert!(app.active_tab().is_none());
    assert!(app
        .failure_state_lines()
        .iter()
        .any(|line| line == "No live browser tabs are active; runtime startup may have failed."));
    assert!(app.failure_state_lines().iter().any(|line| line.starts_with("Missing assets: ")));
}

#[test]
fn diagnostics_lines_describe_the_active_tab() {
    let app = from_config(simulated());
    let lines = app.diagnostics_lines();
    assert_eq!(lines[0], "Runtime readiness: Simulated");
    assert_eq!(lines[1], "Live MVP ready: false");
    assert_eq!(lines[2], "Simulated mode: true");
    assert_eq!(lines[11], "Remote debugging port: 9222");
    assert!(lines.iter().any(|line| line.starts_with("Startup diagnostic [")));
    assert!(lines
        .iter()
        .any(|line| line == "Tab: browser-instance-1 | URL: https://example.com | Loading: true"));
    assert!(lines.iter().any(|line| line.starts_with("Surface: frame=")
        && line.ends_with(" size=1280x768 focused=true")));
}

#[test]
fn window_title_and_diagnostics_toggle_follow_state() {
    let mut app = from_config(simulated());
    app.update_window_title();
    assert_eq!(app.window_title, "webox - Loading...");
    let shown = app.show_diagnostics;
    app.toggle_diagnostics();
    assert_eq!(app.show_diagnostics, !shown);
    assert_eq!(
        app.last_status,
        if shown { "Runtime diagnostics closed" } else { "Runtime diagnostics opened" }
    );
    app.close_active_tab();
    assert_eq!(app.last_status, "Closed active live tab browser-instance-1");
    app.update_window_title();
    assert_eq!(app.window_title, "webox - no tabs");
}

#[test]
fn chrome_actions_without_a_tab_change_nothing() {
    let mut app = BrowserSession::from_config(simulated(), &probe(false), false);
    let status = app.last_status.clone();
    app.go_back_active();
    app.go_forward_active();
    app.reload_active();
    app.navigate_active_to_address();
    app.close_active_tab();
    assert_eq!(app.last_status, status);
    app.close_tab("browser-instance-9");
    assert_eq!(app.last_status, "Closed tab browser-instance-9");
}

#[test]
fn new_tab_reports_its_id_and_reload_reports_the_request() {
    let mut app = from_config(simulated());
    app.open_new_tab(false);
    assert_eq!(app.last_status, "Opened tab browser-instance-2; waiting for engine callbacks");
    assert_eq!(app.address_input, "https://example.com");
    app.reload_active();
    assert_eq!(app.last_status, "Reload requested through live engine instance");
    app.activate_tab("browser-instance-1");
    assert_eq!(app.last_status, "Activated Loading...");
}

#[test]
fn tab_labels_show_loading_and_memory_state() {
    let app = from_config(simulated());
    let tab = app.active_tab().expect("initial tab should exist").clone();
    assert!(tab_label(&tab).starts_with("*Loading..."));
    let mut idle = tab.clone();
    idle.is_loading = false;
    idle.title = "Example".to_string();
    idle.memory_indicator = None;
    assert_eq!(tab_label(&idle), "Example");
    idle.memory_indicator = Some("memory warning".to_string());
    assert_eq!(tab_label(&idle), "Example [memory warning]");
}
