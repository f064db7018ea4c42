use webox::ui::{BrowserWindowModel, SurfaceViewState, TabViewState};

fn updated_tab(id: &str) -> TabViewState {
    TabViewState {
        id: id.to_string(),
        title: "Updated".to_string(),
        url: "https://example.com/updated".to_string(),
        is_loading: false,
        memory_indicator: Some("memory warning".to_string()),
        failure_state: None,
        memory_attribution: Some("observed renderer metrics".to_string()),
        status_text: "Loaded updated page".to_string(),
        can_go_back: true,
        can_go_forward: false,
        surface: SurfaceViewState {
            surface_id: format!("surface-{id}"),
            width: 1440,
            height: 900,
            focused: true,
            frame_token: 3,
            frame_label: "Updated frame".to_string(),
            render_evidence: Some("test render evidence".to_string()),
            frame_buffer: None,
            damage_events: 1,
            host_surface_failure: None,
        },
    }
}

#[test]
fn browser_window_tracks_active_tab() {
    let mut window = BrowserWindowModel::new("window-1");
    let tab = window.add_tab("tab-1", "https://webox.dev");
    window.update_from_engine(updated_tab(&tab));
    window.set_active_tab(&tab);
    assert_eq!(window.active_tab_id.as_deref(), Some("tab-1"));
    assert_eq!(window.tabs[0].title, "Updated");
    assert!(window.tabs[0].surface.focused);
}

#[test]
fn closing_background_tab_keeps_current_active_tab() {
    let mut window = BrowserWindowModel::new("window-1");
    let first_tab = window.add_tab("tab-1", "https://webox.dev");
    let second_tab = window.add_tab("tab-2", "https://example.com");
    window.set_active_tab(&second_tab);

    window.close_tab(&first_tab);

    assert_eq!(window.active_tab_id.as_deref(), Some("tab-2"));
    assert_eq!(window.tabs.len(), 1);
}

#[test]
fn closing_active_tab_falls_forward_to_remaining_neighbor() {
    let mut window = BrowserWindowModel::new("window-1");
    window.add_tab("tab-1", "https://webox.dev");
    let second_tab = window.add_tab("tab-2", "https://example.com");
    let _third_tab = window.add_tab("tab-3", "https://rust-lang.org");
    window.set_active_tab(&second_tab);

    window.close_tab(&second_tab);

    assert_eq!(window.active_tab_id.as_deref(), Some("tab-3"));
}

#[test]
fn closing_last_active_tab_falls_back_to_previous_tab() {
    let mut window = BrowserWindowModel::new("window-1");
    window.add_tab("tab-1", "https://webox.dev");
    let second_tab = window.add_tab("tab-2", "https://example.com");
    window.close_tab(&second_tab);
    assert_eq!(window.active_tab_id.as_deref(), Some("tab-1"));
    assert!(window.tabs[0].surface.focused);
    window.close_tab("tab-1");
    assert_eq!(window.active_tab_id, None);
    assert!(window.tabs.is_empty());
}

#[test]
fn new_tabs_start_loading_and_active() {
    let mut window = BrowserWindowModel::new("window-7");
    let tab = window.add_tab("tab-9", "https://webox.dev/start");
    assert_eq!(tab, "tab-9");
    assert_eq!(window.id, "window-7");
    let state = &window.tabs[0];
    assert_eq!(state.title, "New Tab");
    assert!(state.is_loading);
    assert_eq!(state.status_text, "Preparing https://webox.dev/start");
    assert_eq!(state.surface.surface_id, "surface-tab-9");
    assert_eq!(state.surface.width, 1280);
    assert_eq!(state.surface.height, 720);
    assert_eq!(window.active_tab_id.as_deref(), Some("tab-9"));
}

#[test]
fn memory_and_failure_marks_apply_to_one_tab() {
    let mut window = BrowserWindowModel::new("window-1");
    window.add_tab("tab-1", "https://webox.dev");
    window.add_tab("tab-2", "https://example.com");
    window.set_memory_indicator(
        "tab-2",
        Some("critical memory pressure".to_string()),
        Some("attribution".to_string()),
    );
    window.set_failure_state("tab-2", Some("ended".to_string()));
    window.set_surface_size("tab-1", 800, 600);
    assert_eq!(window.tabs[1].memory_indicator.as_deref(), Some("critical memory pressure"));
    assert_eq!(window.tabs[1].memory_attribution.as_deref(), Some("attribution"));
    assert_eq!(window.tabs[1].failure_state.as_deref(), Some("ended"));
    assert_eq!(window.tabs[0].memory_indicator, None);
    assert_eq!(window.tabs[0].surface.width, 800);
    assert_eq!(window.tabs[0].surface.height, 600);
    assert_eq!(window.tab_position("tab-2"), Some(1));
    assert_eq!(window.tab_position("tab-3"), None);
}

#[test]
fn activating_unknown_tab_keeps_active_tab() {
    let mut window = BrowserWindowModel::new("window-1");
    window.add_tab("tab-1", "https://webox.dev");
    window.set_active_tab("tab-404");
    assert_eq!(window.active_tab_id.as_deref(), Some("tab-1"));
    assert!(!window.tabs[0].surface.focused);
}
