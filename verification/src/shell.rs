//! The host shell: browser windows whose tabs mirror the engine's browser
//! instances, memory telemetry applied to tabs, and the commands a window
//! issues.
//!
//! After every operation the shell drains the engine's events and applies
//! them in order to its windows: an event carrying a snapshot refreshes the
//! tab with that id in every window that shows it, and a close without a
//! snapshot removes the tab.
use crate::config::AppConfig;
use crate::engine::{
    backend_name, counters_fit, creation_block, frame_fits, has_instance, not_found, start_outcome,
    BrowserInstanceDescriptor, BrowserInstanceEvent, BrowserInstanceEventKind,
    BrowserInstanceState, EngineState, HostMouseButton, HostSurfaceInputEvent,
    LiveBrowserCallbackEvent, ReadinessProbe, RuntimeReadiness, StartupDiagnostics, WeboxEngine,
    appended,
};
use crate::memory::{
    attribution_label, headroom_fits, pressure_level, rss_sum, scan_collectable, scan_processes,
    scan_result_matches, system_summary, telemetry_total, LinuxProcessMemoryCollector,
    MemoryAttribution, MemoryController, MemoryPressureLevel, PolicyDecision, ProcessScan,
    RecoveryReport, SupportedSystemReport, TabTelemetry,
};
use crate::runtime_api::{
    decision_on, failure_for, indicator_for, level_indicator, sample_applied,
    synthetic_label, text_err,
};
use crate::text::text_eq;
use crate::ui::{
    close_choice, first_index, focus_to, has_tab, lemma_first_index_valid, lemma_without_tab_members,
    new_tab_state,
    opt_view, without_tab, BrowserCommand, BrowserWindowModel, SurfaceInputEvent,
    SurfaceMouseButton, WindowId,
    SurfaceFrameBuffer, SurfaceViewState, TabViewState,
};
use vstd::prelude::*;

verus! {

/// `t` shows the engine snapshot `s`, with its surface focus `focused`.
pub open spec fn tab_shows(t: TabViewState, s: BrowserInstanceState, focused: bool) -> bool {
    &&& t.id == s.id
    &&& t.title == s.title
    &&& t.url == s.url
    &&& t.is_loading == s.is_loading
    &&& t.memory_indicator == s.memory_indicator
    &&& t.failure_state == s.failure_state
    &&& t.memory_attribution == s.memory_attribution
    &&& t.status_text == s.status_text
    &&& t.can_go_back == s.can_go_back
    &&& t.can_go_forward == s.can_go_forward
    &&& t.surface.surface_id == s.surface.surface_id
    &&& t.surface.width == s.surface.width
    &&& t.surface.height == s.surface.height
    &&& t.surface.focused == focused
    &&& t.surface.frame_token == s.surface.frame_token
    &&& t.surface.frame_label == s.surface.last_frame_label
    &&& t.surface.render_evidence == s.surface.render_evidence
    &&& t.surface.damage_events == s.surface.damage_events
    &&& t.surface.host_surface_failure == s.surface.host_surface_failure
    &&& match s.surface.frame_buffer {
        None => t.surface.frame_buffer is None,
        Some(b) => t.surface.frame_buffer matches Some(f) && f.width == b.width && f.height
            == b.height && f.bgra@ == b.bgra@,
    }
}

/// `new` is the window `old` refreshed from the snapshot `s`: the first tab
/// with its id shows it, and when that tab is active the surfaces are
/// refocused on it. A window without the tab is unchanged.
pub open spec fn window_synced(old: BrowserWindowModel, new: BrowserWindowModel, s: BrowserInstanceState) -> bool {
    let k = first_index(old.tabs@, s.id@);
    let active = opt_view(old.active_tab_id) == Some(s.id@);
    if k < 0 {
        new == old
    } else {
        &&& new.id == old.id
        &&& opt_view(new.active_tab_id) == opt_view(old.active_tab_id)
        &&& new.tabs@.len() == old.tabs@.len()
        &&& tab_shows(
            new.tabs@[k],
            s,
            if active {
                true
            } else {
                s.surface.focused
            },
        )
        &&& forall|j: int|
            0 <= j < old.tabs@.len() && j != k ==> #[trigger] new.tabs@[j] == (if active {
                focus_to(old.tabs@[j], s.id@)
            } else {
                old.tabs@[j]
            })
    }
}

/// `new` is the window `old` with the tab `id` closed, if it shows it.
pub open spec fn window_tab_closed(old: BrowserWindowModel, new: BrowserWindowModel, id: Seq<char>) -> bool {
    if has_tab(old.tabs@, id) {
        &&& new.id == old.id
        &&& opt_view(new.active_tab_id) == close_choice(old, id)
        &&& close_choice(old, id) is None ==> new.tabs@.len() == 0
        &&& close_choice(old, id) matches Some(c) ==> new.tabs@ == without_tab(old.tabs@, id).map_values(
            |t: TabViewState| focus_to(t, c),
        )
    } else {
        new == old
    }
}

/// What one engine event does to a window.
pub open spec fn window_event_applied(old: BrowserWindowModel, new: BrowserWindowModel, e: BrowserInstanceEvent) -> bool {
    match e.snapshot {
        Some(s) => window_synced(old, new, s),
        None => if e.kind == BrowserInstanceEventKind::Closed {
            window_tab_closed(old, new, e.browser_id@)
        } else {
            new == old
        },
    }
}

/// What one engine event does to the windows, each on its own.
pub open spec fn windows_event_applied(
    old: Seq<BrowserWindowModel>,
    new: Seq<BrowserWindowModel>,
    e: BrowserInstanceEvent,
) -> bool {
    &&& new.len() == old.len()
    &&& forall|i: int| 0 <= i < old.len() ==> window_event_applied(old[i], #[trigger] new[i], e)
}

/// `ws1` is `ws0` with `events` applied in order.
pub open spec fn synced_through(
    ws0: Seq<BrowserWindowModel>,
    ws1: Seq<BrowserWindowModel>,
    events: Seq<BrowserInstanceEvent>,
) -> bool
    decreases events.len(),
{
    if events.len() == 0 {
        ws1 == ws0
    } else {
        exists|mid: Seq<BrowserWindowModel>|
            synced_through(ws0, mid, events.drop_last()) && #[trigger] windows_event_applied(
                mid,
                ws1,
                events.last(),
            )
    }
}

/// No two windows share an id.
pub open spec fn window_ids_distinct(ws: Seq<BrowserWindowModel>) -> bool {
    forall|i: int, j: int| 0 <= i < j < ws.len() ==> ws[i].id@ != ws[j].id@
}

/// Every window's active tab is one of its tabs.
pub open spec fn windows_wf(ws: Seq<BrowserWindowModel>) -> bool {
    forall|i: int| 0 <= i < ws.len() ==> (#[trigger] ws[i]).wf()
}

fn copy_text_opt(o: &Option<String>) -> (r: Option<String>)
    ensures
        r == *o,
{
    match o {
        Some(s) => Some(s.clone()),
        None => None,
    }
}

fn copy_bytes(v: &Vec<u8>) -> (r: Vec<u8>)
    ensures
        r@ == v@,
{
    let mut out: Vec<u8> = Vec::new();
    let mut k: usize = 0;
    while k < v.len()
        invariant
            k <= v.len(),
            out@ == v@.take(k as int),
        decreases v.len() - k,
    {
        out.push(v[k]);
        proof {
            assert(out@ =~= v@.take(k + 1));
        }
        k = k + 1;
    }
    proof {
        assert(out@ =~= v@);
    }
    out
}

/// The tab view of an engine snapshot.
fn tab_view_of(s: &BrowserInstanceState) -> (t: TabViewState)
    ensures
        tab_shows(t, *s, s.surface.focused),
{
    TabViewState {
        id: s.id.clone(),
        title: s.title.clone(),
        url: s.url.clone(),
        is_loading: s.is_loading,
        memory_indicator: copy_text_opt(&s.memory_indicator),
        failure_state: copy_text_opt(&s.failure_state),
        memory_attribution: copy_text_opt(&s.memory_attribution),
        status_text: s.status_text.clone(),
        can_go_back: s.can_go_back,
        can_go_forward: s.can_go_forward,
        surface: SurfaceViewState {
            surface_id: s.surface.surface_id.clone(),
            width: s.surface.width,
            height: s.surface.height,
            focused: s.surface.focused,
            frame_token: s.surface.frame_token,
            frame_label: s.surface.last_frame_label.clone(),
            render_evidence: copy_text_opt(&s.surface.render_evidence),
            frame_buffer: match &s.surface.frame_buffer {
                Some(b) => Some(
                    SurfaceFrameBuffer { width: b.width, height: b.height, bgra: copy_bytes(&b.bgra) },
                ),
                None => None,
            },
            damage_events: s.surface.damage_events,
            host_surface_failure: copy_text_opt(&s.surface.host_surface_failure),
        },
    }
}

fn is_active(w: &BrowserWindowModel, tab_id: &str) -> (r: bool)
    ensures
        r == (opt_view(w.active_tab_id) == Some(tab_id@)),
{
    match &w.active_tab_id {
        Some(a) => text_eq(a.as_str(), tab_id),
        None => false,
    }
}

/// Applies one engine event to a window.
fn apply_event_to_window(w: &mut BrowserWindowModel, e: &BrowserInstanceEvent)
    requires
        old(w).wf(),
    ensures
        final(w).wf(),
        window_event_applied(*old(w), *final(w), *e),
{
    match &e.snapshot {
        Some(s) => {
            match w.tab_position(s.id.as_str()) {
                Some(_) => {
                    let active = is_active(w, s.id.as_str());
                    let next = tab_view_of(s);
                    let ghost next0 = next;
                    proof {
                        lemma_first_index_valid(w.tabs@, s.id@);
                    }
                    w.update_from_engine(next);
                    let ghost tabs1 = w.tabs@;
                    if active {
                        w.set_active_tab(s.id.as_str());
                    }
                    proof {
                        let k = first_index(old(w).tabs@, s.id@);
                        assert(tabs1 == old(w).tabs@.update(k, next0));
                        if active {
                            assert(w.tabs@ == tabs1.map_values(|t: TabViewState| focus_to(t, s.id@)));
                            assert(w.tabs@[k] == focus_to(tabs1[k], s.id@));
                            assert forall|j: int|
                                0 <= j < old(w).tabs@.len() && j != k implies #[trigger] w.tabs@[j]
                                == focus_to(old(w).tabs@[j], s.id@) by {
                                assert(w.tabs@[j] == focus_to(tabs1[j], s.id@));
                            }
                        } else {
                            assert forall|j: int|
                                0 <= j < old(w).tabs@.len() && j != k implies #[trigger] w.tabs@[j]
                                == old(w).tabs@[j] by {}
                        }
                    }
                },
                None => {},
            }
        },
        None => {
            if e.kind == BrowserInstanceEventKind::Closed {
                if w.tab_position(e.browser_id.as_str()).is_some() {
                    w.close_tab(e.browser_id.as_str());
                }
            }
        },
    }
}

/// Applies one engine event to every window.
fn apply_event_to_windows(ws: &mut Vec<BrowserWindowModel>, e: &BrowserInstanceEvent)
    requires
        windows_wf(old(ws)@),
    ensures
        windows_wf(final(ws)@),
        windows_event_applied(old(ws)@, final(ws)@, *e),
{
    let ghost ws0 = ws@;
    let mut out: Vec<BrowserWindowModel> = Vec::new();
    let mut rest: Vec<BrowserWindowModel> = Vec::new();
    std::mem::swap(&mut rest, ws);
    while rest.len() > 0
        invariant
            out@.len() + rest@.len() == ws0.len(),
            rest@ == ws0.skip(out@.len() as int),
            windows_wf(ws0),
            forall|j: int|
                0 <= j < out@.len() ==> window_event_applied(ws0[j], #[trigger] out@[j], *e)
                    && out@[j].wf(),
        decreases rest.len(),
    {
        let ghost k = out@.len() as int;
        let mut w = rest.remove(0);
        proof {
            assert(w == ws0[k]);
            assert(ws0[k].wf());
        }
        apply_event_to_window(&mut w, e);
        out.push(w);
        proof {
            assert(rest@ =~= ws0.skip(out@.len() as int));
        }
    }
    *ws = out;
}

/// Applies `events` in order to the windows.
fn apply_events_to_windows(ws: &mut Vec<BrowserWindowModel>, events: &Vec<BrowserInstanceEvent>)
    requires
        windows_wf(old(ws)@),
    ensures
        windows_wf(final(ws)@),
        synced_through(old(ws)@, final(ws)@, events@),
{
    let ghost ws0 = ws@;
    let mut k: usize = 0;
    proof {
        assert(events@.take(0) =~= Seq::<BrowserInstanceEvent>::empty());
    }
    while k < events.len()
        invariant
            k <= events@.len(),
            windows_wf(ws@),
            synced_through(ws0, ws@, events@.take(k as int)),
        decreases events.len() - k,
    {
        let ghost before = ws@;
        apply_event_to_windows(ws, &events[k]);
        proof {
            let t = events@.take(k + 1);
            assert(t.drop_last() =~= events@.take(k as int));
            assert(t.last() == events@[k as int]);
            assert(synced_through(ws0, before, t.drop_last()) && windows_event_applied(
                before,
                ws@,
                t.last(),
            ));
        }
        k = k + 1;
    }
    proof {
        assert(events@.take(k as int) =~= events@);
    }
}

/// Index of the first window with id `id`, or -1.
pub open spec fn window_index(ws: Seq<BrowserWindowModel>, id: Seq<char>) -> int
    decreases ws.len(),
{
    if ws.len() == 0 {
        -1
    } else if window_index(ws.drop_last(), id) >= 0 {
        window_index(ws.drop_last(), id)
    } else if ws.last().id@ == id {
        ws.len() - 1
    } else {
        -1
    }
}

pub proof fn lemma_window_index_valid(ws: Seq<BrowserWindowModel>, id: Seq<char>)
    ensures
        -1 <= window_index(ws, id) < ws.len(),
        window_index(ws, id) >= 0 ==> ws[window_index(ws, id)].id@ == id,
        window_index(ws, id) >= 0 ==> forall|j: int|
            0 <= j < window_index(ws, id) ==> #[trigger] ws[j].id@ != id,
        window_index(ws, id) < 0 ==> forall|j: int| 0 <= j < ws.len() ==> #[trigger] ws[j].id@ != id,
    decreases ws.len(),
{
    if ws.len() > 0 {
        let p = ws.drop_last();
        lemma_window_index_valid(p, id);
        assert forall|j: int| 0 <= j < ws.len() - 1 implies ws[j] == #[trigger] p[j] by {}
        if window_index(ws, id) >= 0 {
            assert forall|j: int| 0 <= j < window_index(ws, id) implies #[trigger] ws[j].id@
                != id by {
                assert(ws[j] == p[j]);
            }
        } else {
            assert forall|j: int| 0 <= j < ws.len() implies #[trigger] ws[j].id@ != id by {
                if j < ws.len() - 1 {
                    assert(ws[j] == p[j]);
                }
            }
        }
    }
}

proof fn lemma_window_index_first(ws: Seq<BrowserWindowModel>, id: Seq<char>, k: int)
    requires
        0 <= k < ws.len(),
        ws[k].id@ == id,
        forall|j: int| 0 <= j < k ==> ws[j].id@ != id,
    ensures
        window_index(ws, id) == k,
    decreases ws.len(),
{
    if k < ws.len() - 1 {
        lemma_window_index_first(ws.drop_last(), id, k);
    } else {
        lemma_window_index_valid(ws.drop_last(), id);
        if window_index(ws.drop_last(), id) >= 0 {
            let j = window_index(ws.drop_last(), id);
            assert(ws[j] == ws.drop_last()[j]);
        }
    }
}

/// The same windows, by count and id, index for index.
pub open spec fn same_window_ids(a: Seq<BrowserWindowModel>, b: Seq<BrowserWindowModel>) -> bool {
    a.len() == b.len() && forall|i: int| 0 <= i < a.len() ==> (#[trigger] a[i]).id == b[i].id
}

/// Applying events keeps the windows and their ids.
pub proof fn lemma_synced_keeps_ids(
    ws0: Seq<BrowserWindowModel>,
    ws1: Seq<BrowserWindowModel>,
    events: Seq<BrowserInstanceEvent>,
)
    requires
        synced_through(ws0, ws1, events),
    ensures
        same_window_ids(ws0, ws1),
    decreases events.len(),
{
    if events.len() > 0 {
        let mid = choose|mid: Seq<BrowserWindowModel>|
            synced_through(ws0, mid, events.drop_last()) && #[trigger] windows_event_applied(
                mid,
                ws1,
                events.last(),
            );
        lemma_synced_keeps_ids(ws0, mid, events.drop_last());
        assert forall|i: int| 0 <= i < ws0.len() implies (#[trigger] ws0[i]).id == ws1[i].id by {
            assert(window_event_applied(mid[i], ws1[i], events.last()));
        }
    }
}

/// Replacing a tab by one with the same id keeps every first index.
proof fn lemma_first_index_update(s: Seq<TabViewState>, k: int, v: TabViewState, id: Seq<char>)
    requires
        0 <= k < s.len(),
        v.id == s[k].id,
    ensures
        first_index(s.update(k, v), id) == first_index(s, id),
    decreases s.len(),
{
    let t = s.update(k, v);
    if k == s.len() - 1 {
        assert(t.drop_last() =~= s.drop_last());
    } else {
        assert(t.drop_last() =~= s.drop_last().update(k, v));
        lemma_first_index_update(s.drop_last(), k, v, id);
    }
}

/// The runtime mode recorded last for `tab`.
pub open spec fn mode_of(ms: Seq<(String, String)>, tab: Seq<char>) -> Option<Seq<char>>
    decreases ms.len(),
{
    if ms.len() == 0 {
        None
    } else if ms.last().0@ == tab {
        Some(ms.last().1@)
    } else {
        mode_of(ms.drop_last(), tab)
    }
}

/// The entries of `ms` for other tabs than `tab`, in order.
pub open spec fn without_mode(ms: Seq<(String, String)>, tab: Seq<char>) -> Seq<(String, String)>
    decreases ms.len(),
{
    if ms.len() == 0 {
        Seq::empty()
    } else if ms.last().0@ == tab {
        without_mode(ms.drop_last(), tab)
    } else {
        without_mode(ms.drop_last(), tab).push(ms.last())
    }
}

proof fn lemma_without_mode(ms: Seq<(String, String)>, tab: Seq<char>, x: Seq<char>)
    ensures
        mode_of(without_mode(ms, tab), x) == (if x == tab {
            None
        } else {
            mode_of(ms, x)
        }),
    decreases ms.len(),
{
    if ms.len() > 0 {
        lemma_without_mode(ms.drop_last(), tab, x);
        let w = without_mode(ms.drop_last(), tab);
        if ms.last().0@ != tab {
            assert(w.push(ms.last()).drop_last() =~= w);
        }
    }
}

/// `ws1` is `ws0` with the window at `wi` given a new active tab `id` at
/// `url`.
pub open spec fn window_added(
    ws0: Seq<BrowserWindowModel>,
    ws1: Seq<BrowserWindowModel>,
    wi: int,
    id: Seq<char>,
    url: Seq<char>,
) -> bool {
    let (a, b) = (ws0[wi], ws1[wi]);
    &&& ws1.len() == ws0.len()
    &&& forall|j: int| 0 <= j < ws0.len() && j != wi ==> #[trigger] ws1[j] == ws0[j]
    &&& b.id == a.id
    &&& b.tabs@.len() == a.tabs@.len() + 1
    &&& b.tabs@.drop_last() == a.tabs@
    &&& new_tab_state(b.tabs@.last(), id, url)
    &&& opt_view(b.active_tab_id) == Some(id)
    &&& b.wf()
}

/// `ws1` is `ws0` with the tab `id` made active in the window at `wi`.
pub open spec fn window_activated(
    ws0: Seq<BrowserWindowModel>,
    ws1: Seq<BrowserWindowModel>,
    wi: int,
    id: Seq<char>,
) -> bool {
    let (a, b) = (ws0[wi], ws1[wi]);
    &&& ws1.len() == ws0.len()
    &&& forall|j: int| 0 <= j < ws0.len() && j != wi ==> #[trigger] ws1[j] == ws0[j]
    &&& b.id == a.id
    &&& has_tab(a.tabs@, id) ==> opt_view(b.active_tab_id) == Some(id)
    &&& !has_tab(a.tabs@, id) ==> b.active_tab_id == a.active_tab_id
    &&& b.tabs@ == a.tabs@.map_values(|t: TabViewState| focus_to(t, id))
    &&& a.wf() ==> b.wf()
}

/// `new` is `old` with the tab `id` closed by the window itself.
pub open spec fn window_closed_tab(old: BrowserWindowModel, new: BrowserWindowModel, id: Seq<char>) -> bool {
    &&& new.id == old.id
    &&& opt_view(new.active_tab_id) == close_choice(old, id)
    &&& close_choice(old, id) is None ==> new.tabs@.len() == 0
    &&& close_choice(old, id) matches Some(c) ==> new.tabs@ == without_tab(old.tabs@, id).map_values(
        |t: TabViewState| focus_to(t, c),
    )
    &&& new.wf()
}

/// The message for a window the shell does not have.
pub open spec fn window_not_found(id: Seq<char>) -> Seq<char> {
    "Window '"@ + id + "' was not found"@
}

/// How an operation on the instance `id` fails, if it does: there is no
/// such instance.
pub open spec fn lookup_fails(e: WeboxEngine, id: Seq<char>) -> Option<Seq<char>> {
    if has_instance(e.instances(), id) {
        None
    } else {
        Some(not_found(id))
    }
}

/// How a history command or reload on `id` fails: the instance is neither
/// live nor held.
pub open spec fn history_fails(e: WeboxEngine, id: Seq<char>) -> Option<Seq<char>> {
    if !e.is_live(id) && !has_instance(e.instances(), id) {
        Some(not_found(id))
    } else {
        None
    }
}

/// How a simulated completion on `id` fails: the instance is live, with
/// `live_message`, or it is not held.
pub open spec fn simulated_fails(e: WeboxEngine, id: Seq<char>, live_message: Seq<char>) -> Option<Seq<char>> {
    if e.is_live(id) {
        Some(live_message)
    } else if !has_instance(e.instances(), id) {
        Some(not_found(id))
    } else {
        None
    }
}

/// The engine input event for a surface input event.
pub open spec fn host_event_of(e: SurfaceInputEvent) -> HostSurfaceInputEvent {
    match e {
        SurfaceInputEvent::PointerMove { x, y } => HostSurfaceInputEvent::PointerMove { x, y },
        SurfaceInputEvent::PointerButton { x, y, button, pressed, click_count } =>
            HostSurfaceInputEvent::PointerButton {
            x,
            y,
            button: match button {
                SurfaceMouseButton::Left => HostMouseButton::Left,
                SurfaceMouseButton::Middle => HostMouseButton::Middle,
                SurfaceMouseButton::Right => HostMouseButton::Right,
            },
            pressed,
            click_count,
        },
        SurfaceInputEvent::Wheel { x, y, delta_x, delta_y } => HostSurfaceInputEvent::Wheel {
            x,
            y,
            delta_x,
            delta_y,
        },
        SurfaceInputEvent::Key { key_code, pressed } => HostSurfaceInputEvent::Key {
            key_code,
            pressed,
        },
        SurfaceInputEvent::Text { text } => HostSurfaceInputEvent::Text { text },
        SurfaceInputEvent::Focus { focused } => HostSurfaceInputEvent::Focus { focused },
        SurfaceInputEvent::Resize { width, height } => HostSurfaceInputEvent::Resize {
            width,
            height,
        },
    }
}

/// Translates a window's surface input into the engine's input event.
pub fn map_surface_input_event(event: SurfaceInputEvent) -> (r: HostSurfaceInputEvent)
    ensures
        r == host_event_of(event),
{
    match event {
        SurfaceInputEvent::PointerMove { x, y } => HostSurfaceInputEvent::PointerMove { x, y },
        SurfaceInputEvent::PointerButton { x, y, button, pressed, click_count } =>
            HostSurfaceInputEvent::PointerButton {
            x,
            y,
            button: match button {
                SurfaceMouseButton::Left => HostMouseButton::Left,
                SurfaceMouseButton::Middle => HostMouseButton::Middle,
                SurfaceMouseButton::Right => HostMouseButton::Right,
            },
            pressed,
            click_count,
        },
        SurfaceInputEvent::Wheel { x, y, delta_x, delta_y } => HostSurfaceInputEvent::Wheel {
            x,
            y,
            delta_x,
            delta_y,
        },
        SurfaceInputEvent::Key { key_code, pressed } => HostSurfaceInputEvent::Key {
            key_code,
            pressed,
        },
        SurfaceInputEvent::Text { text } => HostSurfaceInputEvent::Text { text },
        SurfaceInputEvent::Focus { focused } => HostSurfaceInputEvent::Focus { focused },
        SurfaceInputEvent::Resize { width, height } => HostSurfaceInputEvent::Resize {
            width,
            height,
        },
    }
}

/// The view of an optional text.
pub open spec fn opt_str_view(o: Option<&str>) -> Option<Seq<char>> {
    match o {
        Some(s) => Some(s@),
        None => None,
    }
}

/// `ws1` is `ws0` with at most the window at `wi` changed.
pub open spec fn window_replaced(ws0: Seq<BrowserWindowModel>, ws1: Seq<BrowserWindowModel>, wi: int) -> bool {
    &&& ws1.len() == ws0.len()
    &&& forall|j: int| 0 <= j < ws0.len() && j != wi ==> #[trigger] ws1[j] == ws0[j]
}

/// `b` is the window `a` with the memory state of its first tab `id`
/// marked: the indicator and attribution texts, and the failure text when
/// there is one.
pub open spec fn window_memory_marked(
    a: BrowserWindowModel,
    b: BrowserWindowModel,
    id: Seq<char>,
    indicator: Option<Seq<char>>,
    attribution: Seq<char>,
    failure: Option<Seq<char>>,
) -> bool {
    let k = first_index(a.tabs@, id);
    &&& b.id == a.id
    &&& b.active_tab_id == a.active_tab_id
    &&& a.wf() ==> b.wf()
    &&& k < 0 ==> b.tabs@ == a.tabs@
    &&& k >= 0 ==> {
        let (t, u) = (a.tabs@[k], b.tabs@[k]);
        &&& b.tabs@.len() == a.tabs@.len()
        &&& forall|j: int| 0 <= j < a.tabs@.len() && j != k ==> #[trigger] b.tabs@[j] == a.tabs@[j]
        &&& u == TabViewState {
            memory_indicator: u.memory_indicator,
            memory_attribution: u.memory_attribution,
            failure_state: u.failure_state,
            ..t
        }
        &&& opt_view(u.memory_indicator) == indicator
        &&& opt_view(u.memory_attribution) == Some(attribution)
        &&& failure is None ==> u.failure_state == t.failure_state
        &&& failure matches Some(f) ==> opt_view(u.failure_state) == Some(f)
    }
}

/// The failure text a window shows for a tab ended for memory exhaustion.
pub open spec fn exhaustion_text(attribution: Seq<char>) -> Seq<char> {
    "Tab ended due to suspected memory exhaustion ("@ + attribution + ")"@
}

pub struct HostShell {
    config: AppConfig,
    engine: WeboxEngine,
    memory_controller: MemoryController,
    memory_collector: LinuxProcessMemoryCollector,
    windows: Vec<BrowserWindowModel>,
    startup_diagnostics: Vec<StartupDiagnostics>,
    recovery_reports: Vec<RecoveryReport>,
    tab_runtime_modes: Vec<(String, String)>,
}

impl HostShell {
    pub closed spec fn spec_config(&self) -> AppConfig {
        self.config
    }

    pub closed spec fn spec_engine(&self) -> WeboxEngine {
        self.engine
    }

    pub closed spec fn controller(&self) -> MemoryController {
        self.memory_controller
    }

    pub closed spec fn collector(&self) -> LinuxProcessMemoryCollector {
        self.memory_collector
    }

    pub closed spec fn spec_windows(&self) -> Seq<BrowserWindowModel> {
        self.windows@
    }

    pub closed spec fn startup_diags(&self) -> Seq<StartupDiagnostics> {
        self.startup_diagnostics@
    }

    pub closed spec fn reports(&self) -> Seq<RecoveryReport> {
        self.recovery_reports@
    }

    pub closed spec fn modes(&self) -> Seq<(String, String)> {
        self.tab_runtime_modes@
    }

    /// The engine, the controller and the windows are well formed, and a
    /// cached aggregate counts resident memory only.
    pub open spec fn wf(&self) -> bool {
        &&& self.spec_engine().wf()
        &&& self.controller().wf()
        &&& windows_wf(self.spec_windows())
        &&& window_ids_distinct(self.spec_windows())
        &&& self.collector().wf()
    }

    /// Everything but the engine and the windows is as in `other`.
    pub open spec fn keeps_rest(&self, other: &Self) -> bool {
        &&& self.spec_config() == other.spec_config()
        &&& self.controller() == other.controller()
        &&& self.collector() == other.collector()
        &&& self.startup_diags() == other.startup_diags()
        &&& self.reports() == other.reports()
        &&& self.modes() == other.modes()
    }

    /// `after`'s engine is `mid` with its events handed out, and `after`'s
    /// windows are `self`'s with those events applied.
    pub open spec fn synced_after(&self, after: &Self, mid: WeboxEngine) -> bool {
        &&& after.spec_engine().drained_from(&mid)
        &&& synced_through(self.spec_windows(), after.spec_windows(), mid.events())
    }

    /// An engine operation: it fails exactly as `fails` says, changing
    /// nothing; otherwise the engine went to a state `op` describes, and
    /// its events were applied to the windows.
    pub open spec fn engine_step(
        &self,
        after: &Self,
        fails: Option<Seq<char>>,
        err: Option<Seq<char>>,
        op: spec_fn(WeboxEngine) -> bool,
    ) -> bool {
        &&& err == fails
        &&& err is Some ==> *after == *self
        &&& err is None ==> after.keeps_rest(self) && exists|mid: WeboxEngine|
            op(mid) && #[trigger] self.synced_after(after, mid)
    }

    /// A shell for `config`, with its engine created but not started.
    pub fn new(config: AppConfig) -> (r: Self)
        requires
            headroom_fits(config.startup.max_memory_per_tab_bytes),
        ensures
            r.wf(),
            r.spec_config() == config,
            r.controller().target() == config.startup.max_memory_per_tab_bytes,
            r.collector().cached_value() is None,
            r.spec_engine().spec_state() == EngineState::Created,
            crate::engine::settings_from(r.spec_engine().settings(), config),
            r.spec_engine().next_id() == 1,
            r.spec_engine().instances().len() == 0,
            r.spec_engine().live_ids().len() == 0,
            r.spec_engine().events().len() == 0,
            r.spec_windows().len() == 0,
            r.startup_diags().len() == 0,
            r.reports().len() == 0,
            r.modes().len() == 0,
    {
        let target: u64 = config.startup.max_memory_per_tab_bytes;
        let engine = WeboxEngine::new(&config);
        HostShell {
            engine,
            config,
            memory_controller: MemoryController::new(target),
            memory_collector: LinuxProcessMemoryCollector::new(),
            windows: Vec::new(),
            startup_diagnostics: Vec::new(),
            recovery_reports: Vec::new(),
            tab_runtime_modes: Vec::new(),
        }
    }

    /// Hands out the engine's events and applies them to the windows.
    pub fn sync_engine_events(&mut self)
        requires
            old(self).wf(),
        ensures
            final(self).wf(),
            final(self).keeps_rest(old(self)),
            old(self).synced_after(final(self), old(self).spec_engine()),
    {
        let events = self.engine.drain_events();
        apply_events_to_windows(&mut self.windows, &events);
        proof {
            lemma_synced_keeps_ids(old(self).windows@, self.windows@, events@);
            assert forall|i: int, j: int| 0 <= i < j < self.windows@.len() implies self.windows@[i].id@
                != self.windows@[j].id@ by {
                assert(old(self).windows@[i].id == self.windows@[i].id);
                assert(old(self).windows@[j].id == self.windows@[j].id);
            }
        }
    }

    /// Starts the engine (see `WeboxEngine::start`) and keeps its
    /// diagnostic.
    pub fn start(&mut self, probe: &ReadinessProbe, cef_initialized: bool) -> (d: StartupDiagnostics)
        requires
            old(self).wf(),
        ensures
            final(self).wf(),
            final(self).spec_config() == old(self).spec_config(),
            final(self).controller() == old(self).controller(),
            final(self).collector() == old(self).collector(),
            final(self).reports() == old(self).reports(),
            final(self).modes() == old(self).modes(),
            final(self).startup_diags() == old(self).startup_diags().push(d),
            exists|mid: WeboxEngine|
                #[trigger] old(self).synced_after(final(self), mid) && {
                    let e0 = old(self).spec_engine();
                    &&& mid.spec_state() == EngineState::Started
                    &&& mid.settings() == e0.settings()
                    &&& mid.next_id() == e0.next_id()
                    &&& mid.instances() == e0.instances()
                    &&& mid.live_ids() == e0.live_ids()
                    &&& mid.events() == e0.events()
                    &&& appended(e0.diags(), mid.diags(), 1)
                    &&& mid.diags().last() == d
                    &&& start_outcome(
                        e0.settings(),
                        *probe,
                        cef_initialized,
                        mid.backend(),
                        mid.readiness(),
                        d,
                    )
                },
    {
        let d = self.engine.start(probe, cef_initialized);
        let ghost mid = self.engine;
        let copy = StartupDiagnostics { component: d.component, detail: d.detail.clone() };
        self.startup_diagnostics.push(copy);
        self.sync_engine_events();
        proof {
            assert(old(self).synced_after(self, mid));
        }
        d
    }

    /// Stops the engine (see `WeboxEngine::shutdown`); the windows show the
    /// last state of every instance.
    pub fn shutdown(&mut self) -> (d: StartupDiagnostics)
        requires
            old(self).wf(),
        ensures
            final(self).wf(),
            final(self).spec_config() == old(self).spec_config(),
            final(self).controller() == old(self).controller(),
            final(self).collector() == old(self).collector(),
            final(self).reports() == old(self).reports(),
            final(self).modes() == old(self).modes(),
            final(self).startup_diags() == old(self).startup_diags().push(d),
            exists|mid: WeboxEngine|
                #[trigger] old(self).synced_after(final(self), mid) && old(
                    self,
                ).spec_engine().shut_down(&mid, d),
    {
        let d = self.engine.shutdown();
        let ghost mid = self.engine;
        let copy = StartupDiagnostics { component: d.component, detail: d.detail.clone() };
        self.startup_diagnostics.push(copy);
        self.sync_engine_events();
        proof {
            assert(old(self).synced_after(self, mid));
        }
        d
    }

    /// Applies the callbacks CEF delivered since the last frame and shows
    /// the result in the windows.
    pub fn tick(&mut self, callbacks: Vec<LiveBrowserCallbackEvent>)
        requires
            old(self).wf(),
        ensures
            final(self).wf(),
            final(self).keeps_rest(old(self)),
            exists|mid: WeboxEngine|
                #[trigger] old(self).synced_after(final(self), mid) && old(
                    self,
                ).spec_engine().callbacks_applied(&mid, callbacks@),
    {
        self.engine.tick(callbacks);
        let ghost mid = self.engine;
        self.sync_engine_events();
        proof {
            assert(old(self).synced_after(self, mid));
        }
    }

    /// Adds an empty window `id`, replacing a window with that id.
    pub fn create_window(&mut self, id: &str) -> (r: WindowId)
        requires
            old(self).wf(),
        ensures
            r@ == id@,
            final(self).wf(),
            final(self).keeps_rest(old(self)),
            final(self).spec_engine() == old(self).spec_engine(),
            ({
                let (ws0, ws1) = (old(self).spec_windows(), final(self).spec_windows());
                let wi = window_index(ws0, id@);
                &&& wi >= 0 ==> ws1.len() == ws0.len() && forall|j: int|
                    0 <= j < ws0.len() && j != wi ==> #[trigger] ws1[j] == ws0[j]
                &&& wi < 0 ==> ws1.len() == ws0.len() + 1 && ws1.drop_last() == ws0
                &&& ws1[if wi >= 0 {
                    wi
                } else {
                    ws0.len() as int
                }].id@ == id@
                &&& ws1[if wi >= 0 {
                    wi
                } else {
                    ws0.len() as int
                }].tabs@.len() == 0
                &&& ws1[if wi >= 0 {
                    wi
                } else {
                    ws0.len() as int
                }].active_tab_id is None
            }),
    {
        let w = BrowserWindowModel::new(id);
        match self.find_window(id) {
            Some(i) => {
                self.windows.set(i, w);
            },
            None => {
                self.windows.push(w);
            },
        }
        proof {
            assert forall|i: int| 0 <= i < self.windows@.len() implies (
            #[trigger] self.windows@[i]).wf() by {
                if i < old(self).windows@.len() && self.windows@[i] == old(self).windows@[i] {
                    assert(old(self).windows@[i].wf());
                }
            }
            lemma_window_index_valid(old(self).windows@, id@);
            let ws0 = old(self).windows@;
            let ws1 = self.windows@;
            assert forall|i: int, j: int| 0 <= i < j < ws1.len() implies ws1[i].id@ != ws1[j].id@ by {
                let wi = window_index(ws0, id@);
                if wi >= 0 {
                    if i != wi && j != wi {
                        assert(ws1[i] == ws0[i] && ws1[j] == ws0[j]);
                    } else if i == wi {
                        assert(ws1[j] == ws0[j]);
                    } else {
                        assert(ws1[i] == ws0[i]);
                    }
                } else {
                    if j < ws0.len() {
                        assert(ws1[i] == ws0[i] && ws1[j] == ws0[j]);
                    } else {
                        assert(ws1[i] == ws0[i]);
                    }
                }
            }
        }
        String::from_str(id)
    }

    /// Navigates a tab; see `WeboxEngine::navigate_browser_instance`.
    pub fn navigate_tab(&mut self, window_id: &str, tab_id: &str, url: &str) -> (r: Result<
        (),
        String,
    >)
        requires
            old(self).wf(),
            frame_fits(old(self).spec_engine().instances(), tab_id@),
        ensures
            final(self).wf(),
            old(self).engine_step(
                final(self),
                lookup_fails(old(self).spec_engine(), tab_id@),
                text_err(r),
                (|m: WeboxEngine| old(self).spec_engine().navigated(&m, tab_id@, url@)),
            ),
    {
        match self.engine.navigate_browser_instance(tab_id, url) {
            Ok(()) => {},
            Err(e) => {
                return Err(e.message);
            },
        }
        let ghost mid = self.engine;
        self.sync_engine_events();
        proof {
            assert(old(self).synced_after(self, mid));
        }
        Ok(())
    }

    /// Finishes a simulated load; see `WeboxEngine::finish_navigation`.
    pub fn finish_navigation(&mut self, window_id: &str, tab_id: &str, title: &str) -> (r: Result<
        (),
        String,
    >)
        requires
            old(self).wf(),
            counters_fit(old(self).spec_engine().instances(), tab_id@),
        ensures
            final(self).wf(),
            old(self).engine_step(
                final(self),
                simulated_fails(
                    old(self).spec_engine(),
                    tab_id@,
                    "Live browser instance '"@ + tab_id@
                        + "' must finish navigation from CEF callbacks"@,
                ),
                text_err(r),
                (|m: WeboxEngine| old(self).spec_engine().finished(&m, tab_id@, title@)),
            ),
    {
        match self.engine.finish_navigation(tab_id, title) {
            Ok(()) => {},
            Err(e) => {
                return Err(e.message);
            },
        }
        let ghost mid = self.engine;
        self.sync_engine_events();
        proof {
            assert(old(self).synced_after(self, mid));
        }
        Ok(())
    }

    /// Fails a simulated navigation; see `WeboxEngine::fail_navigation`.
    pub fn fail_tab_navigation(&mut self, tab_id: &str, message: &str) -> (r: Result<(), String>)
        requires
            old(self).wf(),
            frame_fits(old(self).spec_engine().instances(), tab_id@),
        ensures
            final(self).wf(),
            old(self).engine_step(
                final(self),
                simulated_fails(
                    old(self).spec_engine(),
                    tab_id@,
                    "Live browser instance '"@ + tab_id@
                        + "' must report navigation failure from CEF callbacks or engine diagnostics"@,
                ),
                text_err(r),
                (|m: WeboxEngine| old(self).spec_engine().nav_failed(&m, tab_id@, message@)),
            ),
    {
        match self.engine.fail_navigation(tab_id, message) {
            Ok(()) => {},
            Err(e) => {
                return Err(e.message);
            },
        }
        let ghost mid = self.engine;
        self.sync_engine_events();
        proof {
            assert(old(self).synced_after(self, mid));
        }
        Ok(())
    }

    /// Goes back in a tab's history; see `WeboxEngine::go_back_browser_instance`.
    pub fn go_back(&mut self, window_id: &str, tab_id: &str) -> (r: Result<(), String>)
        requires
            old(self).wf(),
            frame_fits(old(self).spec_engine().instances(), tab_id@),
        ensures
            final(self).wf(),
            old(self).engine_step(
                final(self),
                history_fails(old(self).spec_engine(), tab_id@),
                text_err(r),
                (|m: WeboxEngine| old(self).spec_engine().went_back(&m, tab_id@)),
            ),
    {
        match self.engine.go_back_browser_instance(tab_id) {
            Ok(()) => {},
            Err(e) => {
                return Err(e.message);
            },
        }
        let ghost mid = self.engine;
        self.sync_engine_events();
        proof {
            assert(old(self).synced_after(self, mid));
        }
        Ok(())
    }

    /// Goes forward in a tab's history; see
    /// `WeboxEngine::go_forward_browser_instance`.
    pub fn go_forward(&mut self, window_id: &str, tab_id: &str) -> (r: Result<(), String>)
        requires
            old(self).wf(),
            frame_fits(old(self).spec_engine().instances(), tab_id@),
        ensures
            final(self).wf(),
            old(self).engine_step(
                final(self),
                history_fails(old(self).spec_engine(), tab_id@),
                text_err(r),
                (|m: WeboxEngine| old(self).spec_engine().went_forward(&m, tab_id@)),
            ),
    {
        match self.engine.go_forward_browser_instance(tab_id) {
            Ok(()) => {},
            Err(e) => {
                return Err(e.message);
            },
        }
        let ghost mid = self.engine;
        self.sync_engine_events();
        proof {
            assert(old(self).synced_after(self, mid));
        }
        Ok(())
    }

    /// Reloads a tab; see `WeboxEngine::reload_browser_instance`.
    pub fn reload_tab(&mut self, window_id: &str, tab_id: &str) -> (r: Result<(), String>)
        requires
            old(self).wf(),
            frame_fits(old(self).spec_engine().instances(), tab_id@),
        ensures
            final(self).wf(),
            old(self).engine_step(
                final(self),
                history_fails(old(self).spec_engine(), tab_id@),
                text_err(r),
                (|m: WeboxEngine| old(self).spec_engine().reloaded(&m, tab_id@)),
            ),
    {
        match self.engine.reload_browser_instance(tab_id) {
            Ok(()) => {},
            Err(e) => {
                return Err(e.message);
            },
        }
        let ghost mid = self.engine;
        self.sync_engine_events();
        proof {
            assert(old(self).synced_after(self, mid));
        }
        Ok(())
    }

    /// Resizes a tab's surface; see `WeboxEngine::resize_browser_surface`.
    pub fn resize_tab_surface(&mut self, tab_id: &str, width: u32, height: u32) -> (r: Result<
        (),
        String,
    >)
        requires
            old(self).wf(),
            frame_fits(old(self).spec_engine().instances(), tab_id@),
        ensures
            final(self).wf(),
            old(self).engine_step(
                final(self),
                lookup_fails(old(self).spec_engine(), tab_id@),
                text_err(r),
                (|m: WeboxEngine| old(self).spec_engine().resized(&m, tab_id@, width, height)),
            ),
    {
        match self.engine.resize_browser_surface(tab_id, width, height) {
            Ok(()) => {},
            Err(e) => {
                return Err(e.message);
            },
        }
        let ghost mid = self.engine;
        self.sync_engine_events();
        proof {
            assert(old(self).synced_after(self, mid));
        }
        Ok(())
    }

    /// Focuses or blurs a tab's surface; see `WeboxEngine::set_surface_focus`.
    pub fn focus_tab_surface(&mut self, tab_id: &str, focused: bool) -> (r: Result<(), String>)
        requires
            old(self).wf(),
        ensures
            final(self).wf(),
            old(self).engine_step(
                final(self),
                lookup_fails(old(self).spec_engine(), tab_id@),
                text_err(r),
                (|m: WeboxEngine| old(self).spec_engine().focus_set(&m, tab_id@, focused)),
            ),
    {
        match self.engine.set_surface_focus(tab_id, focused) {
            Ok(()) => {},
            Err(e) => {
                return Err(e.message);
            },
        }
        let ghost mid = self.engine;
        self.sync_engine_events();
        proof {
            assert(old(self).synced_after(self, mid));
        }
        Ok(())
    }

    /// Routes a window's surface input to the tab; see
    /// `WeboxEngine::dispatch_surface_input`.
    pub fn dispatch_surface_input(&mut self, tab_id: &str, event: SurfaceInputEvent) -> (r: Result<
        (),
        String,
    >)
        requires
            old(self).wf(),
            event is Resize ==> frame_fits(old(self).spec_engine().instances(), tab_id@),
        ensures
            final(self).wf(),
            text_err(r) is Some ==> *final(self) == *old(self),
            text_err(r) is None ==> final(self).keeps_rest(old(self)) && exists|mid: WeboxEngine|
                #[trigger] old(self).synced_after(final(self), mid) && old(
                    self,
                ).spec_engine().dispatched(&mid, tab_id@, host_event_of(event), None),
            text_err(r) matches Some(m) ==> old(self).spec_engine().dispatched(
                &old(self).spec_engine(),
                tab_id@,
                host_event_of(event),
                Some(m),
            ),
    {
        let host_event = map_surface_input_event(event);
        match self.engine.dispatch_surface_input(tab_id, host_event) {
            Ok(()) => {},
            Err(e) => {
                return Err(e.message);
            },
        }
        let ghost mid = self.engine;
        self.sync_engine_events();
        proof {
            assert(old(self).synced_after(self, mid));
        }
        Ok(())
    }

    /// `after` is `self` with the sample `t`, attributed as `a`, recorded
    /// for the window `wid`. The collector is not covered here.
    pub open spec fn telemetry_recorded(
        &self,
        after: &Self,
        wid: Seq<char>,
        t: TabTelemetry,
        a: MemoryAttribution,
        r: Result<PolicyDecision, String>,
    ) -> bool {
        let (e0, ws0) = (self.spec_engine(), self.spec_windows());
        let th = self.controller().spec_thresholds();
        let total = telemetry_total(t);
        let level = pressure_level(total, th);
        let label = attribution_label(a);
        let id = t.tab_id@;
        let wi = window_index(ws0, wid);
        &&& after.spec_config() == self.spec_config()
        &&& after.controller() == self.controller()
        &&& after.startup_diags() == self.startup_diags()
        &&& after.modes() == self.modes()
        &&& lookup_fails(e0, id) matches Some(m) ==> {
            &&& text_err(r) == Some(m)
            &&& after.spec_engine() == e0
            &&& after.spec_windows() == ws0
            &&& after.reports() == self.reports()
        }
        &&& lookup_fails(e0, id) is None ==> exists|mid: WeboxEngine|
            #[trigger] sample_applied(e0, mid, id, th, total, label) && {
                &&& wi < 0 ==> {
                    &&& text_err(r) == Some(window_not_found(wid))
                    &&& after.spec_engine() == mid
                    &&& after.spec_windows() == ws0
                    &&& after.reports() == self.reports()
                }
                &&& wi >= 0 ==> {
                    &&& r matches Ok(d) && decision_on(d, th, id, total)
                    &&& after.spec_engine().drained_from(&mid)
                    &&& level != MemoryPressureLevel::Exhausted ==> after.reports() == self.reports()
                    &&& level == MemoryPressureLevel::Exhausted ==> {
                        &&& after.reports().len() == self.reports().len() + 1
                        &&& after.reports().drop_last() == self.reports()
                        &&& after.reports().last().tab_id == t.tab_id
                        &&& after.reports().last().suspected_cause@
                            == "suspected-memory-exhaustion"@
                        &&& after.reports().last().captured_bytes == total
                        &&& after.reports().last().process_count == 0
                        &&& after.reports().last().attribution == a
                    }
                    &&& exists|ws1: Seq<BrowserWindowModel>|
                        #![trigger synced_through(ws1, after.spec_windows(), mid.events())]
                        window_replaced(ws0, ws1, wi) && window_memory_marked(
                            ws0[wi],
                            ws1[wi],
                            id,
                            level_indicator(level),
                            label,
                            if level == MemoryPressureLevel::Exhausted {
                                Some(exhaustion_text(label))
                            } else {
                                None
                            },
                        ) && synced_through(ws1, after.spec_windows(), mid.events())
                }
            }
    }

    /// `after` is `self` after closing the tab `tab` of the window `wid`;
    /// `r` is the result.
    pub open spec fn tab_closed(&self, after: &Self, wid: Seq<char>, tab: Seq<char>, r: Result<(), String>) -> bool {
        let (e0, ws0) = (self.spec_engine(), self.spec_windows());
        let wi = window_index(ws0, wid);
        &&& lookup_fails(e0, tab) matches Some(m) ==> text_err(r) == Some(m)
            && *after == *self
        &&& lookup_fails(e0, tab) is None ==> {
            &&& after.spec_config() == self.spec_config()
            &&& after.controller() == self.controller()
            &&& after.collector() == self.collector()
            &&& after.startup_diags() == self.startup_diags()
            &&& after.reports() == self.reports()
            &&& exists|mid: WeboxEngine|
                #[trigger] e0.closed(&mid, tab) && {
                    &&& wi < 0 ==> {
                        &&& text_err(r) == Some(window_not_found(wid))
                        &&& after.spec_engine() == mid
                        &&& after.spec_windows() == ws0
                        &&& after.modes() == self.modes()
                    }
                    &&& wi >= 0 ==> {
                        &&& r is Ok
                        &&& mode_of(after.modes(), tab) is None
                        &&& forall|x: Seq<char>|
                            x != tab ==> mode_of(after.modes(), x) == mode_of(
                                self.modes(),
                                x,
                            )
                        &&& after.spec_engine().drained_from(&mid)
                        &&& exists|ws1: Seq<BrowserWindowModel>|
                            #![trigger synced_through(ws1, after.spec_windows(), mid.events())]
                            window_replaced(ws0, ws1, wi) && window_closed_tab(
                                ws0[wi],
                                ws1[wi],
                                tab,
                            ) && synced_through(
                                ws1,
                                after.spec_windows(),
                                mid.events(),
                            )
                    }
                }
        }
    }

    /// `after` is `self` after opening a tab for `url` in the window `wid`,
    /// the CEF host having been created or not; `r` is the result.
    pub open spec fn tab_opened(
        &self,
        after: &Self,
        wid: Seq<char>,
        url: Seq<char>,
        live_host_created: bool,
        r: Result<String, String>,
    ) -> bool {
        &&& after.spec_config() == self.spec_config()
        &&& after.controller() == self.controller()
        &&& after.collector() == self.collector()
        &&& after.startup_diags() == self.startup_diags()
        &&& after.reports() == self.reports()
        &&& exists|
            mid: WeboxEngine,
            d: Option<BrowserInstanceDescriptor>,
            cerr: Option<Seq<char>>,
            |
            #[trigger] self.spec_engine().created(
                &mid,
                url,
                live_host_created,
                d,
                cerr,
            ) && {
                let ws0 = self.spec_windows();
                let wi = window_index(ws0, wid);
                &&& cerr matches Some(m) ==> {
                    &&& text_err(r) == Some(m)
                    &&& after.spec_engine() == mid
                    &&& after.spec_windows() == ws0
                    &&& after.modes() == self.modes()
                }
                &&& cerr is None && wi < 0 ==> {
                    &&& text_err(r) == Some(window_not_found(wid))
                    &&& after.spec_engine() == mid
                    &&& after.spec_windows() == ws0
                    &&& after.modes() == self.modes()
                }
                &&& cerr is None && wi >= 0 ==> {
                    let desc = d->0;
                    &&& r matches Ok(t) && t@ == desc.id@
                    &&& mode_of(after.modes(), desc.id@) == Some(
                        backend_name(desc.backend),
                    )
                    &&& forall|x: Seq<char>|
                        x != desc.id@ ==> mode_of(after.modes(), x) == mode_of(
                            self.modes(),
                            x,
                        )
                    &&& after.spec_engine().drained_from(&mid)
                    &&& exists|ws1: Seq<BrowserWindowModel>, ws2: Seq<BrowserWindowModel>|
                        #![trigger synced_through(ws1, ws2, mid.events())]
                        window_added(ws0, ws1, wi, desc.id@, desc.initial_url@)
                            && synced_through(ws1, ws2, mid.events()) && window_activated(
                            ws2,
                            after.spec_windows(),
                            wi,
                            desc.id@,
                        )
                }
            }
    }

    /// Opens a tab in the window `window_id`: the engine creates an
    /// instance (see `WeboxEngine::create_browser_instance`), the window
    /// adds it as its active tab, and the tab's runtime mode is recorded.
    pub fn open_tab(&mut self, window_id: &str, initial_url: &str, live_host_created: bool) -> (r:
        Result<String, String>)
        requires
            old(self).wf(),
            creation_block(&old(self).spec_engine()) is None ==> old(self).spec_engine().next_id() < usize::MAX,
        ensures
            final(self).wf(),
            old(self).tab_opened(final(self), window_id@, initial_url@, live_host_created, r),
    {
        let descriptor = match self.engine.create_browser_instance(initial_url, live_host_created) {
            Ok(d) => d,
            Err(e) => {
                return Err(e.message);
            },
        };
        let ghost mid = self.engine;
        let wi: usize = match self.find_window(window_id) {
            Some(i) => i,
            None => {
                return Err(
                    String::from_str("Window '").concat(window_id).concat("' was not found"),
                );
            },
        };
        let ghost ws0 = self.windows@;
        let mut w = self.windows.remove(wi);
        proof {
            assert(w.wf());
        }
        let tab_id = w.add_tab(descriptor.id.as_str(), descriptor.initial_url.as_str());
        self.windows.insert(wi, w);
        let ghost ws1 = self.windows@;
        proof {
            assert(ws1 =~= ws0.update(wi as int, ws1[wi as int]));
            assert forall|i: int| 0 <= i < ws1.len() implies (#[trigger] ws1[i]).wf() by {
                if i != wi {
                    assert(ws1[i] == ws0[i]);
                }
            }
        }
        let ghost m0 = self.tab_runtime_modes@;
        self.tab_runtime_modes.push((tab_id.clone(), String::from_str(descriptor.backend.debug_name())));
        proof {
            assert(self.tab_runtime_modes@.drop_last() =~= m0);
        }
        self.sync_engine_events();
        let ghost ws2 = self.windows@;
        proof {
            lemma_synced_keeps_ids(ws1, ws2, mid.events());
            assert(ws2[wi as int].wf());
        }
        let mut w2 = self.windows.remove(wi);
        w2.set_active_tab(tab_id.as_str());
        self.windows.insert(wi, w2);
        proof {
            let ws3 = self.windows@;
            assert(ws3 =~= ws2.update(wi as int, ws3[wi as int]));
            assert forall|i: int| 0 <= i < ws3.len() implies (#[trigger] ws3[i]).wf() by {
                if i != wi {
                    assert(ws3[i] == ws2[i]);
                }
            }
            assert(window_added(ws0, ws1, wi as int, descriptor.id@, descriptor.initial_url@));
            assert(window_activated(ws2, ws3, wi as int, descriptor.id@));
        }
        Ok(tab_id)
    }

    /// Closes a tab: the engine disposes of the instance (see
    /// `WeboxEngine::close_browser_instance`), the window closes the tab,
    /// and its runtime mode is forgotten.
    pub fn close_tab(&mut self, window_id: &str, tab_id: &str) -> (r: Result<(), String>)
        requires
            old(self).wf(),
        ensures
            final(self).wf(),
            old(self).tab_closed(final(self), window_id@, tab_id@, r),
    {
        match self.engine.close_browser_instance(tab_id) {
            Ok(()) => {},
            Err(e) => {
                return Err(e.message);
            },
        }
        let ghost mid = self.engine;
        let wi: usize = match self.find_window(window_id) {
            Some(i) => i,
            None => {
                return Err(
                    String::from_str("Window '").concat(window_id).concat("' was not found"),
                );
            },
        };
        let ghost ws0 = self.windows@;
        let mut w = self.windows.remove(wi);
        w.close_tab(tab_id);
        self.windows.insert(wi, w);
        let ghost ws1 = self.windows@;
        proof {
            assert(ws1 =~= ws0.update(wi as int, ws1[wi as int]));
            assert forall|i: int| 0 <= i < ws1.len() implies (#[trigger] ws1[i]).wf() by {
                if i != wi {
                    assert(ws1[i] == ws0[i]);
                }
            }
        }
        self.remove_mode(tab_id);
        self.sync_engine_events();
        proof {
            assert(window_replaced(ws0, ws1, wi as int));
        }
        Ok(())
    }

    fn remove_mode(&mut self, tab_id: &str)
        ensures
            final(self).modes() == without_mode(old(self).modes(), tab_id@),
            final(self).spec_config() == old(self).spec_config(),
            final(self).spec_engine() == old(self).spec_engine(),
            final(self).controller() == old(self).controller(),
            final(self).collector() == old(self).collector(),
            final(self).spec_windows() == old(self).spec_windows(),
            final(self).startup_diags() == old(self).startup_diags(),
            final(self).reports() == old(self).reports(),
            forall|x: Seq<char>|
                mode_of(final(self).modes(), x) == (if x == tab_id@ {
                    None
                } else {
                    mode_of(old(self).modes(), x)
                }),
    {
        let ghost ms = self.tab_runtime_modes@;
        let mut kept: Vec<(String, String)> = Vec::new();
        let mut k: usize = 0;
        while k < self.tab_runtime_modes.len()
            invariant
                k <= ms.len(),
                self.tab_runtime_modes@ == ms,
                kept@ == without_mode(ms.take(k as int), tab_id@),
            decreases ms.len() - k,
        {
            proof {
                assert(ms.take(k + 1).drop_last() =~= ms.take(k as int));
            }
            if !text_eq(self.tab_runtime_modes[k].0.as_str(), tab_id) {
                let entry = (self.tab_runtime_modes[k].0.clone(), self.tab_runtime_modes[k].1.clone());
                kept.push(entry);
            }
            k = k + 1;
        }
        proof {
            assert(ms.take(k as int) =~= ms);
        }
        self.tab_runtime_modes = kept;
        proof {
            assert forall|x: Seq<char>|
                mode_of(self.modes(), x) == (if x == tab_id@ {
                    None
                } else {
                    mode_of(ms, x)
                }) by {
                lemma_without_mode(ms, tab_id@, x);
            }
        }
    }

    /// Records a sample for a tab in the window `window_id`, attributed as
    /// `attribution`: the engine records it (see
    /// `WeboxEngine::update_browser_memory`), the window marks the tab, and
    /// a tab at the exhaustion level gets a recovery report.
    pub fn record_tab_telemetry_with_attribution(
        &mut self,
        window_id: &str,
        telemetry: &TabTelemetry,
        attribution: MemoryAttribution,
    ) -> (r: Result<PolicyDecision, String>)
        requires
            old(self).wf(),
            telemetry_total(*telemetry) <= u64::MAX,
        ensures
            final(self).wf(),
            final(self).collector() == old(self).collector(),
            old(self).telemetry_recorded(final(self), window_id@, *telemetry, attribution, r),
    {
        let decision = self.memory_controller.evaluate(telemetry);
        let level = decision.event.level;
        let label = indicator_for(level);
        let attribution_text = attribution.label();
        match self.engine.update_browser_memory(
            telemetry.tab_id.as_str(),
            decision.event.total_bytes,
            copy_text_opt(&label),
            failure_for(level),
            Some(attribution_text.clone()),
        ) {
            Ok(()) => {},
            Err(e) => {
                return Err(e.message);
            },
        }
        let ghost mid = self.engine;
        let ghost th = old(self).controller().spec_thresholds();
        let ghost total = telemetry_total(*telemetry);
        proof {
            assert(sample_applied(
                old(self).spec_engine(),
                mid,
                telemetry.tab_id@,
                th,
                total,
                attribution_label(attribution),
            ));
        }
        let wi: usize = match self.find_window(window_id) {
            Some(i) => i,
            None => {
                return Err(
                    String::from_str("Window '").concat(window_id).concat("' was not found"),
                );
            },
        };
        let ghost ws0 = self.windows@;
        let mut w = self.windows.remove(wi);
        let ghost w0 = w;
        proof {
            assert(w.wf());
            lemma_first_index_valid(w.tabs@, telemetry.tab_id@);
        }
        w.set_memory_indicator(telemetry.tab_id.as_str(), label, Some(attribution_text));
        proof {
            let k = first_index(w0.tabs@, telemetry.tab_id@);
            if k >= 0 {
                lemma_first_index_update(w0.tabs@, k, w.tabs@[k], telemetry.tab_id@);
                assert(w.tabs@ == w0.tabs@.update(k, w.tabs@[k]));
            }
        }
        let ghost w1 = w;
        let exhausted = match level {
            MemoryPressureLevel::Exhausted => true,
            _ => false,
        };
        if exhausted {
            let report = self.memory_controller.capture_recovery_report(telemetry, attribution);
            let message = String::from_str("Tab ended due to suspected memory exhaustion (").concat(
                report.attribution.label().as_str(),
            ).concat(")");
            w.set_failure_state(telemetry.tab_id.as_str(), Some(message));
            self.recovery_reports.push(report);
        }
        self.windows.insert(wi, w);
        let ghost ws1 = self.windows@;
        proof {
            assert(ws1 =~= ws0.update(wi as int, ws1[wi as int]));
            assert forall|i: int| 0 <= i < ws1.len() implies (#[trigger] ws1[i]).wf() by {
                if i != wi {
                    assert(ws1[i] == ws0[i]);
                }
            }
            assert(window_replaced(ws0, ws1, wi as int));
            let k = first_index(w0.tabs@, telemetry.tab_id@);
            if k >= 0 && exhausted {
                lemma_first_index_update(w1.tabs@, k, ws1[wi as int].tabs@[k], telemetry.tab_id@);
            }
        }
        self.sync_engine_events();
        proof {
            assert(synced_through(ws1, self.windows@, mid.events()));
            let level = pressure_level(total, th);
            let label_text = attribution_label(attribution);
            assert(window_memory_marked(
                ws0[wi as int],
                ws1[wi as int],
                telemetry.tab_id@,
                level_indicator(level),
                label_text,
                if level == MemoryPressureLevel::Exhausted {
                    Some(exhaustion_text(label_text))
                } else {
                    None
                },
            ));
            assert(decision_on(decision, th, telemetry.tab_id@, total));
            assert(self.spec_engine().drained_from(&mid));
            if level == MemoryPressureLevel::Exhausted {
                assert(self.reports().drop_last() == old(self).reports());
            } else {
                assert(self.reports() == old(self).reports());
            }
        }
        Ok(decision)
    }

    /// Records an injected sample, attributed as synthetic.
    pub fn record_tab_telemetry(&mut self, window_id: &str, telemetry: &TabTelemetry) -> (r: Result<
        PolicyDecision,
        String,
    >)
        requires
            old(self).wf(),
            telemetry_total(*telemetry) <= u64::MAX,
        ensures
            final(self).wf(),
            final(self).collector() == old(self).collector(),
            exists|a: MemoryAttribution|
                #[trigger] attribution_label(a) == synthetic_label() && old(
                    self,
                ).telemetry_recorded(final(self), window_id@, *telemetry, a, r),
    {
        let attribution = MemoryAttribution::synthetic();
        proof {
            reveal_strlit("source=SyntheticSample; confidence=TestOnly; live_mvp_evidence=false; injected memory sample for tests or simulated development");
            reveal_strlit("source=");
            reveal_strlit("SyntheticSample");
            reveal_strlit("; confidence=");
            reveal_strlit("TestOnly");
            reveal_strlit("; live_mvp_evidence=");
            reveal_strlit("false");
            reveal_strlit("; ");
            reveal_strlit("injected memory sample for tests or simulated development");
            assert(attribution_label(attribution) =~= synthetic_label());
        }
        let ghost a = attribution;
        let r = self.record_tab_telemetry_with_attribution(window_id, telemetry, attribution);
        proof {
            assert(attribution_label(a) == synthetic_label());
        }
        r
    }

    /// `after` is `self` after recording an observed sample for `tab` in
    /// the window `wid` at `now_ms`, the host having made `scan` or not;
    /// `r` is the result.
    pub open spec fn observed_collected(
        &self,
        after: &Self,
        wid: Seq<char>,
        tab: Seq<char>,
        now_ms: u64,
        scan: Option<ProcessScan>,
        r: Result<PolicyDecision, String>,
    ) -> bool {
        &&& self.collector().fresh_at(now_ms) ==> after.collector() == self.collector()
        &&& !self.collector().fresh_at(now_ms) ==> {
            &&& after.collector().last_collected() == Some(now_ms)
            &&& after.collector().cached_value() matches Some(c) && scan_result_matches(
                c,
                tab,
                scan->0,
            )
            }
        &&& exists|t: TabTelemetry, a: MemoryAttribution|
            #[trigger] self.telemetry_recorded(after, wid, t, a, r) && {
                &&& t.tab_id@ == tab
                &&& self.collector().fresh_at(now_ms) ==> {
                    let c = self.collector().cached_value()->0;
                    &&& telemetry_total(t) == telemetry_total(c.telemetry)
                    &&& a == c.attribution
                }
                &&& !self.collector().fresh_at(now_ms) ==> {
                    &&& telemetry_total(t) == rss_sum(scan_processes(scan->0))
                    &&& a == after.collector().cached_value()->0.attribution
                }
            }
    }

    /// Records a sample of the observed browser processes for `tab_id`.
    /// The collector serves its cached aggregate while it is fresh at
    /// `now_ms`; otherwise the host passes the `scan` it made.
    pub fn collect_observed_tab_telemetry(
        &mut self,
        window_id: &str,
        tab_id: &str,
        now_ms: u64,
        scan: Option<ProcessScan>,
    ) -> (r: Result<PolicyDecision, String>)
        requires
            old(self).wf(),
            scan is None ==> old(self).collector().fresh_at(now_ms),
            scan matches Some(s) ==> scan_collectable(s),
        ensures
            final(self).wf(),
            old(self).observed_collected(final(self), window_id@, tab_id@, now_ms, scan, r),
    {
        let observed = self.memory_collector.collect_for_tab(tab_id, now_ms, scan).unwrap();
        let ghost t = observed.telemetry;
        let ghost a = observed.attribution;
        let r = self.record_tab_telemetry_with_attribution(
            window_id,
            &observed.telemetry,
            observed.attribution,
        );
        proof {
            assert(old(self).telemetry_recorded(self, window_id@, t, a, r));
        }
        r
    }

    /// The tab a command names.
    pub open spec fn command_tab(c: BrowserCommand) -> Seq<char> {
        match c {
            BrowserCommand::Navigate { tab_id, .. } => tab_id@,
            BrowserCommand::Reload { tab_id } => tab_id@,
            BrowserCommand::Back { tab_id } => tab_id@,
            BrowserCommand::Forward { tab_id } => tab_id@,
            BrowserCommand::ActivateTab { tab_id } => tab_id@,
            BrowserCommand::CloseTab { tab_id } => tab_id@,
        }
    }

    /// The command's tab has room for its frame counter to advance, as
    /// every command but activating and closing needs.
    pub open spec fn command_fits(&self, command: BrowserCommand) -> bool {
        match command {
            BrowserCommand::ActivateTab { .. } => true,
            BrowserCommand::CloseTab { .. } => true,
            _ => frame_fits(self.spec_engine().instances(), Self::command_tab(command)),
        }
    }

    /// `after` is `self` after the window `wid` carried out `command`;
    /// `r` is the result.
    pub open spec fn command_done(
        &self,
        after: &Self,
        wid: Seq<char>,
        command: BrowserCommand,
        r: Result<(), String>,
    ) -> bool {
        match command {
            BrowserCommand::Navigate { tab_id, url } => self.engine_step(
                after,
                lookup_fails(self.spec_engine(), tab_id@),
                text_err(r),
                (|m: WeboxEngine| self.spec_engine().navigated(&m, tab_id@, url@)),
            ),
            BrowserCommand::Reload { tab_id } => self.engine_step(
                after,
                history_fails(self.spec_engine(), tab_id@),
                text_err(r),
                (|m: WeboxEngine| self.spec_engine().reloaded(&m, tab_id@)),
            ),
            BrowserCommand::Back { tab_id } => self.engine_step(
                after,
                history_fails(self.spec_engine(), tab_id@),
                text_err(r),
                (|m: WeboxEngine| self.spec_engine().went_back(&m, tab_id@)),
            ),
            BrowserCommand::Forward { tab_id } => self.engine_step(
                after,
                history_fails(self.spec_engine(), tab_id@),
                text_err(r),
                (|m: WeboxEngine| self.spec_engine().went_forward(&m, tab_id@)),
            ),
            BrowserCommand::ActivateTab { tab_id } => {
                let wi = window_index(self.spec_windows(), wid);
                &&& wi < 0 ==> text_err(r) == Some(window_not_found(wid))
                    && *after == *self
                &&& wi >= 0 ==> exists|s1: HostShell|
                    #[trigger] window_activated(
                        self.spec_windows(),
                        s1.spec_windows(),
                        wi,
                        tab_id@,
                    ) && s1.spec_engine() == self.spec_engine() && s1.keeps_rest(self)
                        && s1.engine_step(
                        after,
                        lookup_fails(self.spec_engine(), tab_id@),
                        text_err(r),
                        (|m: WeboxEngine| self.spec_engine().focus_set(&m, tab_id@, true)),
                    )
            },
            BrowserCommand::CloseTab { tab_id } => self.tab_closed(
                after,
                wid,
                tab_id@,
                r,
            ),
        }
    }

    /// Carries out a window's command: navigation, reload, history steps
    /// and closing go to the tab's engine instance; activating a tab makes
    /// it the window's active tab and focuses its surface.
    pub fn dispatch_command(&mut self, window_id: &str, command: BrowserCommand) -> (r: Result<
        (),
        String,
    >)
        requires
            old(self).wf(),
            old(self).command_fits(command),
        ensures
            final(self).wf(),
            old(self).command_done(final(self), window_id@, command, r),
    {
        match command {
            BrowserCommand::Navigate { tab_id, url } => self.navigate_tab(
                window_id,
                tab_id.as_str(),
                url.as_str(),
            ),
            BrowserCommand::Reload { tab_id } => self.reload_tab(window_id, tab_id.as_str()),
            BrowserCommand::Back { tab_id } => self.go_back(window_id, tab_id.as_str()),
            BrowserCommand::Forward { tab_id } => self.go_forward(window_id, tab_id.as_str()),
            BrowserCommand::ActivateTab { tab_id } => {
                let wi: usize = match self.find_window(window_id) {
                    Some(i) => i,
                    None => {
                        return Err(
                            String::from_str("Window '").concat(window_id).concat(
                                "' was not found",
                            ),
                        );
                    },
                };
                let ghost ws0 = self.windows@;
                let mut w = self.windows.remove(wi);
                proof {
                    assert(w.wf());
                }
                w.set_active_tab(tab_id.as_str());
                self.windows.insert(wi, w);
                proof {
                    let ws1 = self.windows@;
                    assert(ws1 =~= ws0.update(wi as int, ws1[wi as int]));
                    assert forall|i: int| 0 <= i < ws1.len() implies (#[trigger] ws1[i]).wf() by {
                        if i != wi {
                            assert(ws1[i] == ws0[i]);
                        }
                    }
                    assert(window_activated(ws0, ws1, wi as int, tab_id@));
                }
                let ghost s1 = *self;
                let r = self.focus_tab_surface(tab_id.as_str(), true);
                proof {
                    assert(window_activated(
                        old(self).spec_windows(),
                        s1.spec_windows(),
                        wi as int,
                        tab_id@,
                    ));
                }
                r
            },
            BrowserCommand::CloseTab { tab_id } => self.close_tab(window_id, tab_id.as_str()),
        }
    }

    /// Whether the frame and damage counters of `tab_id` can still advance,
    /// as finishing a navigation needs.
    pub fn surface_counters_fit(&self, tab_id: &str) -> (r: bool)
        ensures
            r == counters_fit(self.spec_engine().instances(), tab_id@),
    {
        self.engine.surface_counters_fit(tab_id)
    }

    /// Whether the frame counter of `tab_id` can still advance, as
    /// navigation, history steps, reloads and resizing need.
    pub fn frame_counter_fits(&self, tab_id: &str) -> (r: bool)
        ensures
            r == frame_fits(self.spec_engine().instances(), tab_id@),
    {
        self.engine.frame_counter_fits(tab_id)
    }

    pub fn supported_system_report(&self, available_bytes: u64) -> (r: SupportedSystemReport)
        ensures
            r.target_bytes == self.controller().target(),
            r.available_bytes == available_bytes,
            r.meets_target == (available_bytes >= self.controller().target()),
            r.summary@ == system_summary(available_bytes >= self.controller().target()),
    {
        self.memory_controller.system_report(available_bytes)
    }

    /// The diagnostics of every start and shutdown, in order.
    pub fn startup_diagnostics(&self) -> (r: &[StartupDiagnostics])
        ensures
            r@ == self.startup_diags(),
    {
        self.startup_diagnostics.as_slice()
    }

    pub fn runtime_readiness(&self) -> (r: &RuntimeReadiness)
        ensures
            *r == self.spec_engine().readiness(),
    {
        self.engine.runtime_readiness()
    }

    pub fn live_mvp_ready(&self) -> (r: bool)
        ensures
            r == self.spec_engine().readiness().live_mvp_ready,
    {
        self.engine.live_mvp_ready()
    }

    /// The recovery reports of tabs ended for memory exhaustion, in order.
    pub fn recovery_reports(&self) -> (r: &[RecoveryReport])
        ensures
            r@ == self.reports(),
    {
        self.recovery_reports.as_slice()
    }

    /// The windows, in the order they were first created.
    pub fn windows(&self) -> (r: &[BrowserWindowModel])
        ensures
            r@ == self.spec_windows(),
    {
        self.windows.as_slice()
    }

    /// The window `id`, if there is one.
    pub fn window(&self, id: &str) -> (r: Option<&BrowserWindowModel>)
        ensures
            window_index(self.spec_windows(), id@) >= 0 ==> r == Some(
                &self.spec_windows()[window_index(self.spec_windows(), id@)],
            ),
            window_index(self.spec_windows(), id@) < 0 ==> r is None,
    {
        match self.find_window(id) {
            Some(i) => Some(&self.windows[i]),
            None => None,
        }
    }

    pub fn config(&self) -> (r: &AppConfig)
        ensures
            *r == self.spec_config(),
    {
        &self.config
    }

    /// The runtime mode recorded for the tab when it was opened.
    pub fn runtime_mode_for_tab(&self, tab_id: &str) -> (r: Option<&str>)
        ensures
            opt_str_view(r) == mode_of(self.modes(), tab_id@),
    {
        let mut k: usize = self.tab_runtime_modes.len();
        proof {
            assert(self.modes().take(k as int) =~= self.modes());
        }
        while k > 0
            invariant
                k <= self.modes().len(),
                mode_of(self.modes(), tab_id@) == mode_of(self.modes().take(k as int), tab_id@),
            decreases k,
        {
            let ghost t = self.modes().take(k as int);
            proof {
                assert(t.drop_last() =~= self.modes().take(k - 1));
            }
            if text_eq(self.tab_runtime_modes[k - 1].0.as_str(), tab_id) {
                return Some(self.tab_runtime_modes[k - 1].1.as_str());
            }
            k = k - 1;
        }
        None
    }

    pub fn engine(&self) -> (r: &WeboxEngine)
        ensures
            *r == self.spec_engine(),
    {
        &self.engine
    }

    fn find_window(&self, id: &str) -> (r: Option<usize>)
        ensures
            r matches Some(i) ==> i == window_index(self.spec_windows(), id@) && i
                < self.spec_windows().len(),
            r is None ==> window_index(self.spec_windows(), id@) < 0,
    {
        proof {
            lemma_window_index_valid(self.windows@, id@);
        }
        let mut k: usize = 0;
        while k < self.windows.len()
            invariant
                k <= self.windows@.len(),
                forall|j: int| 0 <= j < k ==> self.windows@[j].id@ != id@,
            decreases self.windows.len() - k,
        {
            if text_eq(self.windows[k].id.as_str(), id) {
                proof {
                    lemma_window_index_first(self.windows@, id@, k as int);
                }
                return Some(k);
            }
            k = k + 1;
        }
        None
    }
}

/// A close reported without a snapshot leaves no window showing the tab.
pub proof fn lemma_closed_event_removes_tab(
    ws0: Seq<BrowserWindowModel>,
    ws1: Seq<BrowserWindowModel>,
    e: BrowserInstanceEvent,
)
    requires
        windows_event_applied(ws0, ws1, e),
        e.snapshot is None,
        e.kind == BrowserInstanceEventKind::Closed,
    ensures
        forall|i: int| 0 <= i < ws1.len() ==> !has_tab((#[trigger] ws1[i]).tabs@, e.browser_id@),
{
    let id = e.browser_id@;
    assert forall|i: int| 0 <= i < ws1.len() implies !has_tab((#[trigger] ws1[i]).tabs@, id) by {
        let (a, b) = (ws0[i], ws1[i]);
        assert(window_event_applied(a, b, e));
        if has_tab(a.tabs@, id) {
            lemma_without_tab_members(a.tabs@, id, id);
            match close_choice(a, id) {
                Some(c) => {
                    let kept = without_tab(a.tabs@, id);
                    assert(b.tabs@ == kept.map_values(|t: TabViewState| focus_to(t, c)));
                    if has_tab(b.tabs@, id) {
                        let j = choose|j: int| 0 <= j < b.tabs@.len() && #[trigger] b.tabs@[j].id@ == id;
                        assert(b.tabs@[j].id == kept[j].id);
                        assert(kept[j].id@ != id);
                    }
                },
                None => {},
            }
        }
    }
}

/// A snapshot refreshes, in every window that shows its tab, the first tab
/// with its id to show the snapshot's page.
pub proof fn lemma_snapshot_refreshes_tab(
    ws0: Seq<BrowserWindowModel>,
    ws1: Seq<BrowserWindowModel>,
    e: BrowserInstanceEvent,
    i: int,
)
    requires
        windows_event_applied(ws0, ws1, e),
        e.snapshot is Some,
        0 <= i < ws0.len(),
        has_tab(ws0[i].tabs@, e.snapshot->0.id@),
    ensures
        ({
            let s = e.snapshot->0;
            let t = ws1[i].tabs@[first_index(ws0[i].tabs@, s.id@)];
            &&& t.id == s.id
            &&& t.url == s.url
            &&& t.title == s.title
            &&& t.is_loading == s.is_loading
            &&& t.memory_indicator == s.memory_indicator
            &&& t.failure_state == s.failure_state
            &&& t.surface.frame_token == s.surface.frame_token
        }),
{
    lemma_first_index_valid(ws0[i].tabs@, e.snapshot->0.id@);
    assert(window_event_applied(ws0[i], ws1[i], e));
}

} // verus!
