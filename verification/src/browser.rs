//! The browser window's session: the shell behind the one window the
//! browser shows, the address bar's text, the status line, and the chrome
//! actions (back, forward, reload, go, new tab, close tab, activate tab)
//! that drive the shell. The drawing and the pointer and keyboard routing
//! stay with the GUI; they read this state and call these actions.
use crate::config::AppConfig;
use crate::engine::{
    creation_block, frame_fits, instance_id_text, readiness_name, settings_from, start_outcome, EngineState,
    EngineLaunchSettings, ReadinessProbe, RuntimeReadiness, StartupDiagnostics, WeboxEngine,
};
use crate::memory::{
    attribution_label, headroom_fits, scan_collectable, MemoryAttribution, PolicyDecision,
    ProcessScan, TabTelemetry,
};
use crate::runtime_api::synthetic_label;
use crate::shell::{lemma_synced_keeps_ids, lookup_fails, window_index, HostShell};
use crate::text::{
    bool_text, bool_word, decimal, decimal_text, join_texts, joined, text_eq,
};
use crate::ui::{first_index, lemma_first_index_valid, BrowserCommand, BrowserWindowModel, TabViewState};
use vstd::prelude::*;

verus! {

/// The state behind the browser window.
pub struct BrowserSession {
    pub shell: HostShell,
    pub window_id: String,
    pub address_input: String,
    pub last_status: String,
    pub window_title: String,
    pub show_diagnostics: bool,
}

/// The active tab of the window `wid`, if the window exists and its active
/// tab is one of its tabs.
pub open spec fn active_tab_in(ws: Seq<BrowserWindowModel>, wid: Seq<char>) -> Option<TabViewState> {
    let wi = window_index(ws, wid);
    if wi < 0 {
        None
    } else {
        match ws[wi].active_tab_id {
            Some(a) => {
                let ti = first_index(ws[wi].tabs@, a@);
                if ti >= 0 {
                    Some(ws[wi].tabs@[ti])
                } else {
                    None
                }
            },
            None => None,
        }
    }
}

/// The status line shown once the runtime has started.
pub open spec fn status_line(r: RuntimeReadiness) -> Seq<char> {
    "Runtime: "@ + r.summary@ + "; live MVP ready: "@ + bool_text(r.live_mvp_ready)
}

/// The address bar's text once the window shows `s`: the active tab's
/// address, or `a` when no tab is active.
pub open spec fn address_shown(s: &BrowserSession, a: Seq<char>) -> Seq<char> {
    match s.spec_active_tab() {
        Some(t) => t.url@,
        None => a,
    }
}

/// `s1` is `s0` after resizing the surface of `tab` to `w` x `h`.
pub open spec fn surface_resized(s0: HostShell, s1: HostShell, tab: Seq<char>, w: u32, h: u32) -> bool {
    let f = lookup_fails(s0.spec_engine(), tab);
    s0.engine_step(&s1, f, f, (|m: WeboxEngine| s0.spec_engine().resized(&m, tab, w, h)))
}

/// `s1` is `s0` after focusing (or blurring) the surface of `tab`.
pub open spec fn surface_focused(s0: HostShell, s1: HostShell, tab: Seq<char>, focused: bool) -> bool {
    let f = lookup_fails(s0.spec_engine(), tab);
    s0.engine_step(&s1, f, f, (|m: WeboxEngine| s0.spec_engine().focus_set(&m, tab, focused)))
}

/// The sample recorded for the home tab when no live runtime can be
/// observed.
pub open spec fn home_sample(tab: String) -> TabTelemetry {
    TabTelemetry {
        tab_id: tab,
        renderer_bytes: 2097152,
        browser_bytes: 524288,
        gpu_bytes: 262144,
    }
}

/// The address a new tab opens.
pub open spec fn new_tab_url() -> Seq<char> {
    "https://example.com"@
}

/// `prefix` followed by the text, as one line, when there is a text.
pub open spec fn opt_line(prefix: Seq<char>, o: Option<String>) -> Seq<Seq<char>> {
    match o {
        Some(x) => seq![prefix + x@],
        None => Seq::empty(),
    }
}

/// The diagnostics panel's lines on the runtime and its launch settings.
pub open spec fn readiness_lines(r: RuntimeReadiness, st: EngineLaunchSettings) -> Seq<Seq<char>> {
    seq![
        "Runtime readiness: "@ + readiness_name(r.state),
        "Live MVP ready: "@ + bool_text(r.live_mvp_ready),
        "Simulated mode: "@ + bool_text(r.simulated),
        "Summary: "@ + r.summary@,
        "CEF distribution root: "@ + st.distribution_root@,
        "CEF resources: "@ + st.resources_dir@,
        "CEF locales: "@ + st.locales_dir@,
        "CEF subprocess: "@ + st.subprocess_path@,
        "Data path: "@ + st.data_dir@,
        "Cache path: "@ + st.cache_dir@,
        "Log path: "@ + st.log_dir@,
        "Remote debugging port: "@ + decimal(st.remote_debugging_port as nat),
    ]
}

/// The diagnostics panel's lines on the runtime paths that are missing
/// and were checked, when there are any.
pub open spec fn path_lines(r: RuntimeReadiness) -> Seq<Seq<char>> {
    (if r.missing_paths@.len() > 0 {
        seq!["Missing runtime paths: "@ + joined(r.missing_paths.deep_view(), ", "@)]
    } else {
        Seq::empty()
    }) + (if r.checked_paths@.len() > 0 {
        seq!["Checked paths: "@ + joined(r.checked_paths.deep_view(), "; "@)]
    } else {
        Seq::empty()
    })
}

/// The diagnostics panel's line for a startup or shutdown diagnostic.
pub open spec fn diagnostic_line(d: StartupDiagnostics) -> Seq<char> {
    "Startup diagnostic ["@ + d.component@ + "]: "@ + d.detail@
}

/// The diagnostics panel's lines on the active tab.
pub open spec fn tab_lines(t: TabViewState) -> Seq<Seq<char>> {
    let sf = t.surface;
    seq![
        "Tab: "@ + t.id@ + " | URL: "@ + t.url@ + " | Loading: "@ + bool_text(t.is_loading),
        "Status: "@ + t.status_text@,
    ] + opt_line("Memory: "@, t.memory_indicator) + opt_line("Attribution: "@, t.memory_attribution)
        + seq![
        "Surface: frame="@ + decimal(sf.frame_token as nat) + " damage="@ + decimal(
            sf.damage_events as nat,
        ) + " size="@ + decimal(sf.width as nat) + "x"@ + decimal(sf.height as nat)
            + " focused="@ + bool_text(sf.focused),
    ] + opt_line("Render evidence: "@, sf.render_evidence)
}

/// The label of a tab in the tab strip: a '*' while it loads, its title,
/// and its memory indicator in brackets when it has one.
pub open spec fn tab_label_text(t: TabViewState) -> Seq<char> {
    (if t.is_loading {
        "*"@
    } else {
        Seq::empty()
    }) + t.title@ + match t.memory_indicator {
        Some(m) => " ["@ + m@ + "]"@,
        None => Seq::empty(),
    }
}

/// The label of a tab in the tab strip; see `tab_label_text`.
pub fn tab_label(tab: &TabViewState) -> (r: String)
    ensures
        r@ == tab_label_text(*tab),
{
    let label = if tab.is_loading {
        String::from_str("*")
    } else {
        String::new()
    };
    let label = label.concat(tab.title.as_str());
    match &tab.memory_indicator {
        Some(m) => label.concat(" [").concat(m.as_str()).concat("]"),
        None => label,
    }
}

/// The window `wid` shows no tab (or does not exist).
pub open spec fn no_tabs(ws: Seq<BrowserWindowModel>, wid: Seq<char>) -> bool {
    let wi = window_index(ws, wid);
    wi < 0 || ws[wi].tabs@.len() == 0
}

/// The failure banners: an unavailable live runtime and its missing
/// assets, a window without tabs, and the active tab's failures.
pub open spec fn failure_lines(r: RuntimeReadiness, ws: Seq<BrowserWindowModel>, wid: Seq<char>) -> Seq<Seq<char>> {
    (if !r.live_mvp_ready {
        seq!["Live runtime unavailable: "@ + r.summary@] + if r.missing_paths@.len() > 0 {
            seq!["Missing assets: "@ + joined(r.missing_paths.deep_view(), ", "@)]
        } else {
            Seq::empty()
        }
    } else {
        Seq::empty()
    }) + (if no_tabs(ws, wid) {
        seq!["No live browser tabs are active; runtime startup may have failed."@]
    } else {
        Seq::empty()
    }) + match active_tab_in(ws, wid) {
        Some(t) => opt_line("Active tab failure: "@, t.failure_state) + opt_line(
            "Host surface failure: "@,
            t.surface.host_surface_failure,
        ) + opt_line("Memory state: "@, t.memory_indicator),
        None => Seq::empty(),
    }
}

fn push_line(lines: &mut Vec<String>, line: String)
    ensures
        final(lines).deep_view() == old(lines).deep_view().push(line@),
{
    lines.push(line);
    proof {
        assert(lines.deep_view() =~= old(lines).deep_view().push(line@));
    }
}

fn push_opt_line(lines: &mut Vec<String>, prefix: &str, o: &Option<String>)
    ensures
        final(lines).deep_view() == old(lines).deep_view() + opt_line(prefix@, *o),
{
    match o {
        Some(x) => {
            push_line(lines, String::from_str(prefix).concat(x.as_str()));
            proof {
                assert(lines.deep_view() =~= old(lines).deep_view() + opt_line(prefix@, *o));
            }
        },
        None => {
            proof {
                assert(lines.deep_view() =~= old(lines).deep_view() + opt_line(prefix@, *o));
            }
        },
    }
}

fn runtime_lines(readiness: &RuntimeReadiness, settings: &EngineLaunchSettings) -> (r: Vec<String>)
    ensures
        r.deep_view() == readiness_lines(*readiness, *settings) + path_lines(*readiness),
{
    let mut lines: Vec<String> = Vec::new();
    push_line(
        &mut lines,
        String::from_str("Runtime readiness: ").concat(readiness.state.debug_name()),
    );
    push_line(
        &mut lines,
        String::from_str("Live MVP ready: ").concat(bool_word(readiness.live_mvp_ready)),
    );
    push_line(
        &mut lines,
        String::from_str("Simulated mode: ").concat(bool_word(readiness.simulated)),
    );
    push_line(&mut lines, String::from_str("Summary: ").concat(readiness.summary.as_str()));
    push_line(
        &mut lines,
        String::from_str("CEF distribution root: ").concat(settings.distribution_root.as_str()),
    );
    push_line(&mut lines, String::from_str("CEF resources: ").concat(settings.resources_dir.as_str()));
    push_line(&mut lines, String::from_str("CEF locales: ").concat(settings.locales_dir.as_str()));
    push_line(
        &mut lines,
        String::from_str("CEF subprocess: ").concat(settings.subprocess_path.as_str()),
    );
    push_line(&mut lines, String::from_str("Data path: ").concat(settings.data_dir.as_str()));
    push_line(&mut lines, String::from_str("Cache path: ").concat(settings.cache_dir.as_str()));
    push_line(&mut lines, String::from_str("Log path: ").concat(settings.log_dir.as_str()));
    push_line(
        &mut lines,
        String::from_str("Remote debugging port: ").concat(
            decimal_text(settings.remote_debugging_port as u64).as_str(),
        ),
    );
    let ghost base = lines.deep_view();
    proof {
        assert(base =~= readiness_lines(*readiness, *settings));
    }
    if readiness.missing_paths.len() > 0 {
        push_line(
            &mut lines,
            String::from_str("Missing runtime paths: ").concat(
                join_texts(&readiness.missing_paths, ", ").as_str(),
            ),
        );
    }
    if readiness.checked_paths.len() > 0 {
        push_line(
            &mut lines,
            String::from_str("Checked paths: ").concat(
                join_texts(&readiness.checked_paths, "; ").as_str(),
            ),
        );
    }
    proof {
        assert(lines.deep_view() =~= base + path_lines(*readiness));
    }
    lines
}

fn push_diagnostic_lines(lines: &mut Vec<String>, diagnostics: &[StartupDiagnostics])
    ensures
        final(lines).deep_view() == old(lines).deep_view() + diagnostics@.map_values(
            |d: StartupDiagnostics| diagnostic_line(d),
        ),
{
    let ghost ds = diagnostics@;
    let mut k: usize = 0;
    while k < diagnostics.len()
        invariant
            k <= ds.len(),
            diagnostics@ == ds,
            lines.deep_view() == old(lines).deep_view() + ds.take(k as int).map_values(
                |d: StartupDiagnostics| diagnostic_line(d),
            ),
        decreases diagnostics.len() - k,
    {
        let d = &diagnostics[k];
        push_line(
            lines,
            String::from_str("Startup diagnostic [").concat(d.component).concat("]: ").concat(
                d.detail.as_str(),
            ),
        );
        proof {
            assert(ds.take(k + 1).map_values(|d: StartupDiagnostics| diagnostic_line(d))
                =~= ds.take(k as int).map_values(|d: StartupDiagnostics| diagnostic_line(d)).push(
                diagnostic_line(ds[k as int]),
            ));
        }
        k = k + 1;
    }
    proof {
        assert(ds.take(ds.len() as int) =~= ds);
    }
}

fn push_tab_lines(lines: &mut Vec<String>, tab: &TabViewState)
    ensures
        final(lines).deep_view() == old(lines).deep_view() + tab_lines(*tab),
{
    push_line(
        lines,
        String::from_str("Tab: ").concat(tab.id.as_str()).concat(" | URL: ").concat(
            tab.url.as_str(),
        ).concat(" | Loading: ").concat(bool_word(tab.is_loading)),
    );
    push_line(lines, String::from_str("Status: ").concat(tab.status_text.as_str()));
    push_opt_line(lines, "Memory: ", &tab.memory_indicator);
    push_opt_line(lines, "Attribution: ", &tab.memory_attribution);
    let sf = &tab.surface;
    push_line(
        lines,
        String::from_str("Surface: frame=").concat(decimal_text(sf.frame_token).as_str()).concat(
            " damage=",
        ).concat(decimal_text(sf.damage_events).as_str()).concat(" size=").concat(
            decimal_text(sf.width as u64).as_str(),
        ).concat("x").concat(decimal_text(sf.height as u64).as_str()).concat(" focused=").concat(
            bool_word(sf.focused),
        ),
    );
    push_opt_line(lines, "Render evidence: ", &sf.render_evidence);
    proof {
        assert(lines.deep_view() =~= old(lines).deep_view() + tab_lines(*tab));
    }
}

impl BrowserSession {
    pub open spec fn wf(&self) -> bool {
        self.shell.wf()
    }

    /// The tab the window shows, if any.
    pub open spec fn spec_active_tab(&self) -> Option<TabViewState> {
        active_tab_in(self.shell.spec_windows(), self.window_id@)
    }

    /// Starts a shell for `config` (see `HostShell::start`) and creates the
    /// window `window-1`, still without tabs; the address bar shows the
    /// home page and the diagnostics are open unless the live runtime is
    /// ready.
    pub fn from_config(config: AppConfig, probe: &ReadinessProbe, cef_initialized: bool) -> (r:
        Self)
        requires
            headroom_fits(config.startup.max_memory_per_tab_bytes),
        ensures
            r.wf(),
            r.window_id@ == "window-1"@,
            r.address_input@ == config.startup.home_page@,
            r.window_title@ == "webox - ready"@,
            r.last_status@ == status_line(r.shell.spec_engine().readiness()),
            r.show_diagnostics == !r.shell.spec_engine().readiness().live_mvp_ready,
            r.shell.spec_config() == config,
            r.shell.spec_engine().spec_state() == EngineState::Started,
            settings_from(r.shell.spec_engine().settings(), config),
            r.shell.startup_diags().len() == 1,
            start_outcome(
                r.shell.spec_engine().settings(),
                *probe,
                cef_initialized,
                r.shell.spec_engine().backend(),
                r.shell.spec_engine().readiness(),
                r.shell.startup_diags()[0],
            ),
            r.shell.spec_engine().next_id() == 1,
            r.shell.spec_engine().instances().len() == 0,
            r.shell.spec_windows().len() == 1,
            r.shell.spec_windows()[0].id@ == "window-1"@,
            r.shell.spec_windows()[0].tabs@.len() == 0,
            r.shell.spec_windows()[0].active_tab_id is None,
    {
        let home_page = config.startup.home_page.clone();
        let mut shell = HostShell::new(config);
        let ghost s0 = shell;
        shell.start(probe, cef_initialized);
        proof {
            let mid = choose|mid| #[trigger] s0.synced_after(&shell, mid);
            lemma_synced_keeps_ids(s0.spec_windows(), shell.spec_windows(), mid.events());
        }
        let window_id = shell.create_window("window-1");
        let summary = shell.runtime_readiness().summary.clone();
        let live = shell.live_mvp_ready();
        let last_status = String::from_str("Runtime: ").concat(summary.as_str()).concat(
            "; live MVP ready: ",
        ).concat(crate::text::bool_word(live));
        BrowserSession {
            shell,
            window_id,
            address_input: home_page,
            last_status,
            window_title: String::from_str("webox - ready"),
            show_diagnostics: !live,
        }
    }

    /// The window's active tab, if any.
    pub fn active_tab(&self) -> (r: Option<&TabViewState>)
        ensures
            r is Some == self.spec_active_tab() is Some,
            r matches Some(t) ==> *t == self.spec_active_tab()->0,
    {
        let w = match self.shell.window(self.window_id.as_str()) {
            Some(w) => w,
            None => {
                return None;
            },
        };
        match &w.active_tab_id {
            Some(a) => match w.tab_position(a.as_str()) {
                Some(i) => {
                    proof {
                        lemma_first_index_valid(w.tabs@, a@);
                    }
                    Some(&w.tabs[i])
                },
                None => None,
            },
            None => None,
        }
    }

    /// The id of the window's active tab, if any.
    pub fn active_tab_id(&self) -> (r: Option<String>)
        ensures
            r is Some == self.spec_active_tab() is Some,
            r matches Some(t) ==> t == self.spec_active_tab()->0.id,
    {
        match self.active_tab() {
            Some(t) => Some(t.id.clone()),
            None => None,
        }
    }

    /// `after` is `self` once the window carried out `command` with the
    /// result `r`; the address bar follows the active tab when `sync`
    /// holds. The status line is left to each action.
    pub open spec fn command_then(
        &self,
        after: &Self,
        command: BrowserCommand,
        sync: bool,
        r: Result<(), String>,
    ) -> bool {
        &&& self.shell.command_done(&after.shell, self.window_id@, command, r)
        &&& after.window_id == self.window_id
        &&& after.window_title == self.window_title
        &&& after.show_diagnostics == self.show_diagnostics
        &&& after.address_input@ == (if sync {
            address_shown(after, self.address_input@)
        } else {
            self.address_input@
        })
    }

    /// The status line a command leaves behind: its error, or the line as
    /// it was.
    pub open spec fn error_status(&self, after: &Self, r: Result<(), String>) -> bool {
        match r {
            Err(e) => after.last_status@ == e@,
            Ok(_) => after.last_status == self.last_status,
        }
    }

    /// The active tab has room for its frame counter to advance.
    pub open spec fn active_fits(&self) -> bool {
        self.spec_active_tab() matches Some(t) ==> frame_fits(
            self.shell.spec_engine().instances(),
            t.id@,
        )
    }

    fn dispatch(&mut self, command: BrowserCommand)
        requires
            old(self).wf(),
            old(self).shell.command_fits(command),
        ensures
            final(self).wf(),
            exists|r: Result<(), String>|
                #[trigger] old(self).command_then(final(self), command, false, r) && old(
                    self,
                ).error_status(final(self), r),
    {
        let ghost c = command;
        let r = self.shell.dispatch_command(self.window_id.as_str(), command);
        let ghost rr = r;
        match r {
            Ok(()) => {},
            Err(e) => {
                self.last_status = e;
            },
        }
        proof {
            assert(old(self).command_then(self, c, false, rr));
        }
    }

    fn sync_address_from_active_tab(&mut self)
        ensures
            final(self).shell == old(self).shell,
            final(self).window_id == old(self).window_id,
            final(self).window_title == old(self).window_title,
            final(self).show_diagnostics == old(self).show_diagnostics,
            final(self).last_status == old(self).last_status,
            final(self).address_input@ == address_shown(old(self), old(self).address_input@),
    {
        let url = match self.active_tab() {
            Some(tab) => Some(tab.url.clone()),
            None => None,
        };
        match url {
            Some(u) => {
                self.address_input = u;
            },
            None => {},
        }
    }

    /// Steps the active tab back in its history.
    pub fn go_back_active(&mut self)
        requires
            old(self).wf(),
            old(self).active_fits(),
        ensures
            final(self).wf(),
            old(self).spec_active_tab() is None ==> *final(self) == *old(self),
            old(self).spec_active_tab() matches Some(t) ==> {
                &&& final(self).last_status@ == "Went back using live engine history"@
                &&& exists|r: Result<(), String>|
                    #[trigger] old(self).command_then(
                        final(self),
                        BrowserCommand::Back { tab_id: t.id },
                        true,
                        r,
                    )
            },
    {
        if let Some(tab_id) = self.active_tab_id() {
            let command = BrowserCommand::Back { tab_id };
            let ghost cmd = command;
            self.dispatch(command);
            let ghost m = *self;
            self.sync_address_from_active_tab();
            self.last_status = String::from_str("Went back using live engine history");
            proof {
                let r = choose|r: Result<(), String>| #[trigger]
                    old(self).command_then(&m, cmd, false, r);
                assert(old(self).command_then(self, cmd, true, r));
            }
        }
    }

    /// Steps the active tab forward in its history.
    pub fn go_forward_active(&mut self)
        requires
            old(self).wf(),
            old(self).active_fits(),
        ensures
            final(self).wf(),
            old(self).spec_active_tab() is None ==> *final(self) == *old(self),
            old(self).spec_active_tab() matches Some(t) ==> {
                &&& final(self).last_status@ == "Went forward using live engine history"@
                &&& exists|r: Result<(), String>|
                    #[trigger] old(self).command_then(
                        final(self),
                        BrowserCommand::Forward { tab_id: t.id },
                        true,
                        r,
                    )
            },
    {
        if let Some(tab_id) = self.active_tab_id() {
            let command = BrowserCommand::Forward { tab_id };
            let ghost cmd = command;
            self.dispatch(command);
            let ghost m = *self;
            self.sync_address_from_active_tab();
            self.last_status = String::from_str("Went forward using live engine history");
            proof {
                let r = choose|r: Result<(), String>| #[trigger]
                    old(self).command_then(&m, cmd, false, r);
                assert(old(self).command_then(self, cmd, true, r));
            }
        }
    }

    /// Reloads the active tab.
    pub fn reload_active(&mut self)
        requires
            old(self).wf(),
            old(self).active_fits(),
        ensures
            final(self).wf(),
            old(self).spec_active_tab() is None ==> *final(self) == *old(self),
            old(self).spec_active_tab() matches Some(t) ==> {
                &&& final(self).last_status@ == "Reload requested through live engine instance"@
                &&& exists|r: Result<(), String>|
                    #[trigger] old(self).command_then(
                        final(self),
                        BrowserCommand::Reload { tab_id: t.id },
                        false,
                        r,
                    )
            },
    {
        if let Some(tab_id) = self.active_tab_id() {
            let command = BrowserCommand::Reload { tab_id };
            let ghost cmd = command;
            self.dispatch(command);
            let ghost m = *self;
            self.last_status = String::from_str("Reload requested through live engine instance");
            proof {
                let r = choose|r: Result<(), String>| #[trigger]
                    old(self).command_then(&m, cmd, false, r);
                assert(old(self).command_then(self, cmd, false, r));
            }
        }
    }

    /// Navigates the active tab to the address bar's text.
    pub fn navigate_active_to_address(&mut self)
        requires
            old(self).wf(),
            old(self).active_fits(),
        ensures
            final(self).wf(),
            old(self).spec_active_tab() is None ==> *final(self) == *old(self),
            old(self).spec_active_tab() matches Some(t) ==> {
                &&& final(self).last_status@ == "Navigation requested for "@
                    + old(self).address_input@ + "; waiting for engine-observed state"@
                &&& exists|r: Result<(), String>|
                    #[trigger] old(self).command_then(
                        final(self),
                        BrowserCommand::Navigate { tab_id: t.id, url: old(self).address_input },
                        false,
                        r,
                    )
            },
    {
        if let Some(tab_id) = self.active_tab_id() {
            let command = BrowserCommand::Navigate {
                tab_id,
                url: self.address_input.clone(),
            };
            let ghost cmd = command;
            self.dispatch(command);
            let ghost m = *self;
            self.last_status = String::from_str("Navigation requested for ").concat(
                self.address_input.as_str(),
            ).concat("; waiting for engine-observed state");
            proof {
                let r = choose|r: Result<(), String>| #[trigger]
                    old(self).command_then(&m, cmd, false, r);
                assert(old(self).command_then(self, cmd, false, r));
            }
        }
    }

    /// Makes `tab_id` the window's active tab.
    pub fn activate_tab(&mut self, tab_id: &str)
        requires
            old(self).wf(),
        ensures
            final(self).wf(),
            exists|id: String, r: Result<(), String>|
                id@ == tab_id@ && #[trigger] old(self).command_then(
                    final(self),
                    BrowserCommand::ActivateTab { tab_id: id },
                    true,
                    r,
                ) && match final(self).spec_active_tab() {
                    Some(t) => final(self).last_status@ == "Activated "@ + t.title@,
                    None => old(self).error_status(final(self), r),
                },
    {
        let command = BrowserCommand::ActivateTab { tab_id: String::from_str(tab_id) };
        let ghost cmd = command;
        self.dispatch(command);
        let ghost m = *self;
        self.sync_address_from_active_tab();
        let title = match self.active_tab() {
            Some(tab) => Some(tab.title.clone()),
            None => None,
        };
        match title {
            Some(t) => {
                self.last_status = String::from_str("Activated ").concat(t.as_str());
            },
            None => {},
        }
        proof {
            let r = choose|r: Result<(), String>| #[trigger]
                old(self).command_then(&m, cmd, false, r) && old(self).error_status(&m, r);
            assert(old(self).command_then(self, cmd, true, r));
            assert(cmd->ActivateTab_tab_id@ == tab_id@);
        }
    }

    /// The window's title: the active tab's title, or that no tab is open.
    pub fn update_window_title(&mut self)
        ensures
            final(self).shell == old(self).shell,
            final(self).window_id == old(self).window_id,
            final(self).address_input == old(self).address_input,
            final(self).last_status == old(self).last_status,
            final(self).show_diagnostics == old(self).show_diagnostics,
            final(self).window_title@ == match old(self).spec_active_tab() {
                Some(t) => "webox - "@ + t.title@,
                None => "webox - no tabs"@,
            },
    {
        let title = match self.active_tab() {
            Some(tab) => String::from_str("webox - ").concat(tab.title.as_str()),
            None => String::from_str("webox - no tabs"),
        };
        self.window_title = title;
    }

    /// Opens or closes the diagnostics panel.
    pub fn toggle_diagnostics(&mut self)
        ensures
            final(self).shell == old(self).shell,
            final(self).window_id == old(self).window_id,
            final(self).address_input == old(self).address_input,
            final(self).window_title == old(self).window_title,
            final(self).show_diagnostics == !old(self).show_diagnostics,
            final(self).last_status@ == if final(self).show_diagnostics {
                "Runtime diagnostics opened"@
            } else {
                "Runtime diagnostics closed"@
            },
    {
        self.show_diagnostics = !self.show_diagnostics;
        self.last_status = if self.show_diagnostics {
            String::from_str("Runtime diagnostics opened")
        } else {
            String::from_str("Runtime diagnostics closed")
        };
    }

    /// Closes `tab_id`; the status line says whether it was the active tab.
    pub fn close_tab(&mut self, tab_id: &str)
        requires
            old(self).wf(),
        ensures
            final(self).wf(),
            exists|id: String, r: Result<(), String>|
                id@ == tab_id@ && #[trigger] old(self).command_then(
                    final(self),
                    BrowserCommand::CloseTab { tab_id: id },
                    true,
                    r,
                ),
            final(self).last_status@ == if old(self).spec_active_tab() matches Some(t) && t.id@
                == tab_id@ {
                "Closed active live tab "@ + tab_id@
            } else {
                "Closed tab "@ + tab_id@
            },
    {
        let closing_active = match self.active_tab() {
            Some(tab) => text_eq(tab.id.as_str(), tab_id),
            None => false,
        };
        let command = BrowserCommand::CloseTab { tab_id: String::from_str(tab_id) };
        let ghost cmd = command;
        self.dispatch(command);
        let ghost m = *self;
        self.sync_address_from_active_tab();
        self.last_status = if closing_active {
            String::from_str("Closed active live tab ").concat(tab_id)
        } else {
            String::from_str("Closed tab ").concat(tab_id)
        };
        proof {
            let r = choose|r: Result<(), String>| #[trigger]
                old(self).command_then(&m, cmd, false, r);
            assert(old(self).command_then(self, cmd, true, r));
            assert(cmd->CloseTab_tab_id@ == tab_id@);
        }
    }

    /// Closes the active tab, if there is one.
    pub fn close_active_tab(&mut self)
        requires
            old(self).wf(),
        ensures
            final(self).wf(),
            old(self).spec_active_tab() is None ==> *final(self) == *old(self),
            old(self).spec_active_tab() matches Some(t) ==> {
                &&& final(self).last_status@ == "Closed active live tab "@ + t.id@
                &&& exists|id: String, r: Result<(), String>|
                    id@ == t.id@ && #[trigger] old(self).command_then(
                        final(self),
                        BrowserCommand::CloseTab { tab_id: id },
                        true,
                        r,
                    )
            },
    {
        if let Some(tab_id) = self.active_tab_id() {
            self.close_tab(tab_id.as_str());
        }
    }

    /// The id the engine gives the next tab, for the host that creates its
    /// CEF browser first.
    pub fn next_tab_id(&self) -> (r: String)
        ensures
            r@ == instance_id_text(self.shell.spec_engine().next_id() as nat),
    {
        self.shell.engine().next_browser_instance_id()
    }

    /// Opens a tab on `https://example.com` (see `HostShell::open_tab`) and
    /// sizes its surface to 1280 x 768; the address bar follows the active
    /// tab and the status line reports the new tab or the error.
    pub fn open_new_tab(&mut self, live_host_created: bool)
        requires
            old(self).wf(),
            creation_block(&old(self).shell.spec_engine()) is None ==> old(self).shell.spec_engine().next_id()
                < usize::MAX,
        ensures
            final(self).wf(),
            final(self).window_id == old(self).window_id,
            final(self).window_title == old(self).window_title,
            final(self).show_diagnostics == old(self).show_diagnostics,
            exists|s1: HostShell, r: Result<String, String>|
                #[trigger] old(self).shell.tab_opened(
                    &s1,
                    old(self).window_id@,
                    new_tab_url(),
                    live_host_created,
                    r,
                ) && match r {
                    Err(e) => {
                        &&& final(self).shell == s1
                        &&& final(self).address_input == old(self).address_input
                        &&& final(self).last_status@ == e@
                    },
                    Ok(tab) => {
                        &&& surface_resized(s1, final(self).shell, tab@, 1280, 768)
                        &&& final(self).address_input@ == address_shown(
                            final(self),
                            old(self).address_input@,
                        )
                        &&& final(self).last_status@ == "Opened tab "@ + tab@
                            + "; waiting for engine callbacks"@
                    },
                },
    {
        let ghost s0 = self.shell;
        let opened = self.shell.open_tab(self.window_id.as_str(), "https://example.com", live_host_created);
        let ghost s1 = self.shell;
        let ghost ro = opened;
        match opened {
            Ok(tab) => {
                proof {
                    lemma_opened_tab_fits(s0, s1, self.window_id@, new_tab_url(), live_host_created, ro);
                }
                let _ = self.shell.resize_tab_surface(tab.as_str(), 1280, 768);
                self.sync_address_from_active_tab();
                self.last_status = String::from_str("Opened tab ").concat(tab.as_str()).concat(
                    "; waiting for engine callbacks",
                );
            },
            Err(e) => {
                self.last_status = e;
            },
        }
        proof {
            assert(s0.tab_opened(&s1, old(self).window_id@, new_tab_url(), live_host_created, ro));
        }
    }

    /// Opens the home page in the window, as the browser does at startup:
    /// the tab's surface is sized to 1280 x 768 and focused, and its memory
    /// is sampled, from the observed processes when the live runtime is
    /// ready (see `HostShell::collect_observed_tab_telemetry`), else with a
    /// fixed synthetic sample. What fails is left for the window to show.
    pub fn open_home_tab(&mut self, live_host_created: bool, scan: Option<ProcessScan>, now_ms: u64)
        requires
            old(self).wf(),
            creation_block(&old(self).shell.spec_engine()) is None ==> old(self).shell.spec_engine().next_id()
                < usize::MAX,
            old(self).shell.spec_engine().readiness().live_mvp_ready ==> {
                &&& scan is None ==> old(self).shell.collector().fresh_at(now_ms)
                &&& scan matches Some(sc) ==> scan_collectable(sc)
            },
        ensures
            final(self).wf(),
            final(self).window_id == old(self).window_id,
            final(self).window_title == old(self).window_title,
            final(self).show_diagnostics == old(self).show_diagnostics,
            final(self).address_input == old(self).address_input,
            final(self).last_status == old(self).last_status,
            exists|s1: HostShell, r: Result<String, String>|
                #[trigger] old(self).shell.tab_opened(
                    &s1,
                    old(self).window_id@,
                    old(self).shell.spec_config().startup.home_page@,
                    live_host_created,
                    r,
                ) && match r {
                    Err(_) => final(self).shell == s1,
                    Ok(tab) => exists|s2: HostShell, s3: HostShell|
                        #![trigger surface_resized(s1, s2, tab@, 1280, 768), surface_focused(s2, s3, tab@, true)]
                        surface_resized(s1, s2, tab@, 1280, 768) && surface_focused(
                            s2,
                            s3,
                            tab@,
                            true,
                        ) && if s3.spec_engine().readiness().live_mvp_ready {
                            exists|rt: Result<PolicyDecision, String>|
                                #[trigger] s3.observed_collected(
                                    &final(self).shell,
                                    old(self).window_id@,
                                    tab@,
                                    now_ms,
                                    scan,
                                    rt,
                                )
                        } else {
                            exists|a: MemoryAttribution, rt: Result<PolicyDecision, String>|
                                attribution_label(a) == synthetic_label()
                                    && #[trigger] s3.telemetry_recorded(
                                    &final(self).shell,
                                    old(self).window_id@,
                                    home_sample(tab),
                                    a,
                                    rt,
                                )
                        },
                },
    {
        let home_page = self.shell.config().startup.home_page.clone();
        let ghost s0 = self.shell;
        let opened = self.shell.open_tab(self.window_id.as_str(), home_page.as_str(), live_host_created);
        let ghost s1 = self.shell;
        let ghost ro = opened;
        proof {
            assert(s0.tab_opened(&s1, old(self).window_id@, home_page@, live_host_created, ro));
        }
        if let Ok(tab) = opened {
            proof {
                lemma_opened_tab_fits(s0, s1, self.window_id@, home_page@, live_host_created, ro);
            }
            let _ = self.shell.resize_tab_surface(tab.as_str(), 1280, 768);
            let ghost s2 = self.shell;
            let _ = self.shell.focus_tab_surface(tab.as_str(), true);
            let ghost s3 = self.shell;
            proof {
                assert(surface_resized(s1, s2, tab@, 1280, 768));
                assert(surface_focused(s2, s3, tab@, true));
            }
            if self.shell.live_mvp_ready() {
                let rt = self.shell.collect_observed_tab_telemetry(
                    self.window_id.as_str(),
                    tab.as_str(),
                    now_ms,
                    scan,
                );
                proof {
                    assert(s3.observed_collected(&self.shell, old(self).window_id@, tab@, now_ms, scan, rt));
                }
            } else {
                let sample = TabTelemetry {
                    tab_id: tab.clone(),
                    renderer_bytes: 2 * 1024 * 1024,
                    browser_bytes: 512 * 1024,
                    gpu_bytes: 256 * 1024,
                };
                proof {
                    assert(sample == home_sample(tab));
                }
                let rt = self.shell.record_tab_telemetry(self.window_id.as_str(), &sample);
                proof {
                    let a = choose|a: MemoryAttribution|
                        #[trigger] attribution_label(a) == synthetic_label()
                            && s3.telemetry_recorded(&self.shell, old(self).window_id@, sample, a, rt);
                    assert(attribution_label(a) == synthetic_label()
                        && s3.telemetry_recorded(&self.shell, old(self).window_id@, home_sample(tab), a, rt));
                }
            }
            proof {
                assert(surface_resized(s1, s2, tab@, 1280, 768) && surface_focused(s2, s3, tab@, true));
            }
        }
    }

    /// The diagnostics panel's lines: the runtime's readiness and launch
    /// settings, its missing and checked paths, every startup diagnostic,
    /// and the active tab's state.
    pub fn diagnostics_lines(&self) -> (r: Vec<String>)
        ensures
            r.deep_view() == readiness_lines(
                self.shell.spec_engine().readiness(),
                self.shell.spec_engine().settings(),
            ) + path_lines(self.shell.spec_engine().readiness())
                + self.shell.startup_diags().map_values(|d: StartupDiagnostics| diagnostic_line(d))
                + match self.spec_active_tab() {
                Some(t) => tab_lines(t),
                None => Seq::empty(),
            },
    {
        let mut lines = runtime_lines(self.shell.runtime_readiness(), self.shell.engine().launch_settings());
        let ghost base = lines.deep_view();
        push_diagnostic_lines(&mut lines, self.shell.startup_diagnostics());
        let ghost with_diags = lines.deep_view();
        match self.active_tab() {
            Some(tab) => {
                push_tab_lines(&mut lines, tab);
            },
            None => {
                proof {
                    assert(lines.deep_view() =~= with_diags + Seq::<Seq<char>>::empty());
                }
            },
        }
        proof {
            let ds = self.shell.startup_diags().map_values(|d: StartupDiagnostics| diagnostic_line(d));
            assert(with_diags == base + ds);
        }
        lines
    }

    /// The failure banners over the browser surface.
    pub fn failure_state_lines(&self) -> (r: Vec<String>)
        ensures
            r.deep_view() == failure_lines(
                self.shell.spec_engine().readiness(),
                self.shell.spec_windows(),
                self.window_id@,
            ),
    {
        let mut lines: Vec<String> = Vec::new();
        let readiness = self.shell.runtime_readiness();
        if !readiness.live_mvp_ready {
            push_line(
                &mut lines,
                String::from_str("Live runtime unavailable: ").concat(readiness.summary.as_str()),
            );
            if readiness.missing_paths.len() > 0 {
                push_line(
                    &mut lines,
                    String::from_str("Missing assets: ").concat(
                        join_texts(&readiness.missing_paths, ", ").as_str(),
                    ),
                );
            }
        }
        let ghost first = lines.deep_view();
        let empty = match self.shell.window(self.window_id.as_str()) {
            Some(w) => w.tabs.len() == 0,
            None => true,
        };
        if empty {
            push_line(
                &mut lines,
                String::from_str("No live browser tabs are active; runtime startup may have failed."),
            );
        }
        let ghost second = lines.deep_view();
        if let Some(tab) = self.active_tab() {
            push_opt_line(&mut lines, "Active tab failure: ", &tab.failure_state);
            push_opt_line(&mut lines, "Host surface failure: ", &tab.surface.host_surface_failure);
            push_opt_line(&mut lines, "Memory state: ", &tab.memory_indicator);
        }
        proof {
            assert(lines.deep_view() =~= failure_lines(
                self.shell.spec_engine().readiness(),
                self.shell.spec_windows(),
                self.window_id@,
            ));
        }
        lines
    }
}

/// A tab the shell opened has room for its surface counters to advance.
proof fn lemma_opened_tab_fits(
    s0: HostShell,
    s1: HostShell,
    wid: Seq<char>,
    url: Seq<char>,
    live: bool,
    r: Result<String, String>,
)
    requires
        s0.tab_opened(&s1, wid, url, live, r),
        r is Ok,
    ensures
        frame_fits(s1.spec_engine().instances(), r->Ok_0@),
{
}

} // verus!
