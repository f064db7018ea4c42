//! The browser engine state machine: runtime readiness, browser instances
//! with their navigation history and surface state, and the event stream
//! the shell consumes.
//!
//! Native CEF work is not done here. The caller performs it and reports
//! the outcome: the readiness probe of the CEF distribution, whether CEF
//! initialized, whether a live browser host was created, and the callbacks
//! CEF delivered. The engine records which instances have a live host, so
//! the caller knows when a command must also be forwarded to CEF.
use crate::config::{AppConfig, BrowserRuntimeMode};
use crate::text::{
    bool_text, bool_word, debug_quoted, debug_text, decimal, decimal_text, joined, joined_path,
    join_texts, path_join, signed_decimal, signed_text, text_eq,
};
use vstd::prelude::*;

verus! {

#[derive(Clone, Copy, Debug, PartialEq, Eq, Structural)]
pub enum BrowserFramework {
    Cef,
}

#[derive(Clone, Copy, Debug, PartialEq, Eq, Structural)]
pub enum EngineState {
    Created,
    Started,
    Stopped,
}

#[derive(Clone, Debug, PartialEq, Eq)]
pub struct StartupDiagnostics {
    pub component: &'static str,
    pub detail: String,
}

#[derive(Clone, Copy, Debug, PartialEq, Eq, Structural)]
pub enum RuntimeReadinessState {
    NotStarted,
    Simulated,
    LiveReady,
    LiveUnavailable,
    InitializationFailed,
    SubprocessExited,
}

#[derive(Clone, Debug, PartialEq, Eq)]
pub struct RuntimeReadiness {
    pub state: RuntimeReadinessState,
    pub live_mvp_ready: bool,
    pub simulated: bool,
    pub summary: String,
    pub missing_paths: Vec<String>,
    pub checked_paths: Vec<String>,
    /// The runtime directories that could not be created, with the error.
    pub readiness_errors: Vec<String>,
}

#[derive(Clone, Debug, PartialEq, Eq)]
pub struct EngineLaunchSettings {
    pub framework: BrowserFramework,
    pub distribution_root: String,
    pub subprocess_path: String,
    pub subprocess_args: Vec<String>,
    pub remote_debugging_port: u16,
    pub resources_dir: String,
    pub locales_dir: String,
    pub data_dir: String,
    pub cache_dir: String,
    pub log_dir: String,
    pub runtime_mode: BrowserRuntimeMode,
}

#[derive(Clone, Copy, Debug, PartialEq, Eq, Structural)]
pub enum RuntimeBackend {
    Simulated,
    Cef,
}

#[derive(Clone, Copy, Debug, PartialEq, Eq, Structural)]
pub enum BrowserSurfaceRenderMode {
    Placeholder,
    CefOffscreen,
}

#[derive(Clone, Debug, PartialEq, Eq)]
pub struct BrowserFrameBuffer {
    pub width: u32,
    pub height: u32,
    pub bgra: Vec<u8>,
}

#[derive(Clone, Debug, PartialEq, Eq)]
pub struct BrowserSurfaceState {
    pub surface_id: String,
    pub render_mode: BrowserSurfaceRenderMode,
    pub width: u32,
    pub height: u32,
    pub focused: bool,
    pub frame_token: u64,
    pub last_frame_label: String,
    pub render_evidence: Option<String>,
    pub frame_buffer: Option<BrowserFrameBuffer>,
    pub damage_events: u64,
    pub host_surface_failure: Option<String>,
}

#[derive(Clone, Copy, Debug, PartialEq, Eq, Structural)]
pub enum HostMouseButton {
    Left,
    Middle,
    Right,
}

#[derive(Clone, Debug, PartialEq, Eq)]
pub enum HostSurfaceInputEvent {
    PointerMove { x: i32, y: i32 },
    PointerButton { x: i32, y: i32, button: HostMouseButton, pressed: bool, click_count: i32 },
    Wheel { x: i32, y: i32, delta_x: i32, delta_y: i32 },
    Key { key_code: i32, pressed: bool },
    Text { text: String },
    Focus { focused: bool },
    Resize { width: u32, height: u32 },
}

#[derive(Clone, Debug, PartialEq, Eq)]
pub struct BrowserInstanceDescriptor {
    pub id: String,
    pub initial_url: String,
    pub title: String,
    pub is_loading: bool,
    pub backend: RuntimeBackend,
    pub surface: BrowserSurfaceState,
}

#[derive(Clone, Debug, PartialEq, Eq)]
pub struct BrowserInstanceState {
    pub id: String,
    pub url: String,
    pub title: String,
    pub is_loading: bool,
    pub backend: RuntimeBackend,
    pub memory_usage_bytes: u64,
    pub memory_indicator: Option<String>,
    pub failure_state: Option<String>,
    pub memory_attribution: Option<String>,
    pub surface: BrowserSurfaceState,
    pub history: Vec<String>,
    pub history_index: usize,
    pub status_text: String,
    pub can_go_back: bool,
    pub can_go_forward: bool,
}

#[derive(Clone, Copy, Debug, PartialEq, Eq, Structural)]
pub enum BrowserInstanceEventKind {
    Created,
    LoadStarted,
    LoadFinished,
    NavigationFailed,
    HistoryChanged,
    TitleChanged,
    SurfaceUpdated,
    FocusChanged,
    MemoryUpdated,
    Crashed,
    Closed,
}

#[derive(Clone, Debug, PartialEq, Eq)]
pub struct BrowserInstanceEvent {
    pub browser_id: String,
    pub kind: BrowserInstanceEventKind,
    pub summary: String,
    pub snapshot: Option<BrowserInstanceState>,
}

#[derive(Clone, Debug, PartialEq, Eq)]
pub struct EngineError {
    pub message: String,
}

#[derive(Clone, Debug, PartialEq, Eq)]
pub struct CefRuntimePlan {
    pub selected_backend: RuntimeBackend,
    pub primary_target: &'static str,
    pub integration_crate: &'static str,
    pub ui_host: &'static str,
    pub distribution_root: String,
    pub browser_subprocess_path: String,
    pub resources_dir: String,
    pub locales_dir: String,
    pub settings_summary: String,
}

/// What CEF reported to a live browser host.
#[derive(Clone, Debug, PartialEq, Eq)]
pub enum LiveBrowserCallbackKind {
    AfterCreated { cef_identifier: i32 },
    BeforeClose,
    TitleChanged { title: String },
    AddressChanged { url: String },
    LoadingStateChanged { is_loading: bool, can_go_back: bool, can_go_forward: bool },
    LoadStarted,
    LoadFinished { http_status_code: i32 },
    LoadError { code: String, text: String, url: String },
    Painted { width: i32, height: i32, dirty_rects: usize, buffer: Option<Vec<u8>> },
}

#[derive(Clone, Debug, PartialEq, Eq)]
pub struct LiveBrowserCallbackEvent {
    pub browser_id: String,
    pub kind: LiveBrowserCallbackKind,
}

/// Collects the callbacks of live hosts until the engine takes them. The
/// host shares one sink between the CEF handlers of a browser, behind a
/// lock.
pub struct LiveBrowserEventSink {
    events: Vec<LiveBrowserCallbackEvent>,
}

impl LiveBrowserEventSink {
    pub closed spec fn pending(&self) -> Seq<LiveBrowserCallbackEvent> {
        self.events@
    }

    pub fn new() -> (r: Self)
        ensures
            r.pending().len() == 0,
    {
        LiveBrowserEventSink { events: Vec::new() }
    }

    /// Records a callback for `browser_id`.
    pub fn push(&mut self, browser_id: &str, kind: LiveBrowserCallbackKind)
        ensures
            final(self).pending().len() == old(self).pending().len() + 1,
            final(self).pending().drop_last() == old(self).pending(),
            final(self).pending().last().browser_id@ == browser_id@,
            final(self).pending().last().kind == kind,
    {
        let ghost before = self.events@;
        self.events.push(LiveBrowserCallbackEvent { browser_id: String::from_str(browser_id), kind });
        proof {
            assert(self.events@.drop_last() =~= before);
        }
    }

    /// Hands out the recorded callbacks, oldest first, and forgets them.
    pub fn drain(&mut self) -> (r: Vec<LiveBrowserCallbackEvent>)
        ensures
            r@ == old(self).pending(),
            final(self).pending().len() == 0,
    {
        let mut out: Vec<LiveBrowserCallbackEvent> = Vec::new();
        std::mem::swap(&mut out, &mut self.events);
        out
    }
}

/// What the caller found when it checked the CEF distribution and created
/// the runtime directories.
pub struct ReadinessProbe {
    pub distribution_root_exists: bool,
    pub locales_dir_exists: bool,
    pub icudtl_exists: bool,
    pub subprocess_exists: bool,
    pub data_dir_error: Option<String>,
    pub cache_dir_error: Option<String>,
    pub log_dir_error: Option<String>,
}

// ---------------------------------------------------------------------------
// Names printed by `{:?}`
// ---------------------------------------------------------------------------
pub open spec fn backend_name(b: RuntimeBackend) -> Seq<char> {
    match b {
        RuntimeBackend::Simulated => "Simulated"@,
        RuntimeBackend::Cef => "Cef"@,
    }
}

pub open spec fn readiness_name(s: RuntimeReadinessState) -> Seq<char> {
    match s {
        RuntimeReadinessState::NotStarted => "NotStarted"@,
        RuntimeReadinessState::Simulated => "Simulated"@,
        RuntimeReadinessState::LiveReady => "LiveReady"@,
        RuntimeReadinessState::LiveUnavailable => "LiveUnavailable"@,
        RuntimeReadinessState::InitializationFailed => "InitializationFailed"@,
        RuntimeReadinessState::SubprocessExited => "SubprocessExited"@,
    }
}

pub open spec fn event_kind_name(k: BrowserInstanceEventKind) -> Seq<char> {
    match k {
        BrowserInstanceEventKind::Created => "Created"@,
        BrowserInstanceEventKind::LoadStarted => "LoadStarted"@,
        BrowserInstanceEventKind::LoadFinished => "LoadFinished"@,
        BrowserInstanceEventKind::NavigationFailed => "NavigationFailed"@,
        BrowserInstanceEventKind::HistoryChanged => "HistoryChanged"@,
        BrowserInstanceEventKind::TitleChanged => "TitleChanged"@,
        BrowserInstanceEventKind::SurfaceUpdated => "SurfaceUpdated"@,
        BrowserInstanceEventKind::FocusChanged => "FocusChanged"@,
        BrowserInstanceEventKind::MemoryUpdated => "MemoryUpdated"@,
        BrowserInstanceEventKind::Crashed => "Crashed"@,
        BrowserInstanceEventKind::Closed => "Closed"@,
    }
}

pub open spec fn button_name(b: HostMouseButton) -> Seq<char> {
    match b {
        HostMouseButton::Left => "Left"@,
        HostMouseButton::Middle => "Middle"@,
        HostMouseButton::Right => "Right"@,
    }
}

/// `{:?}` of a host input event.
pub open spec fn input_debug(e: HostSurfaceInputEvent) -> Seq<char> {
    match e {
        HostSurfaceInputEvent::PointerMove { x, y } => "PointerMove { x: "@ + signed_decimal(
            x as int,
        ) + ", y: "@ + signed_decimal(y as int) + " }"@,
        HostSurfaceInputEvent::PointerButton { x, y, button, pressed, click_count } =>
            "PointerButton { x: "@ + signed_decimal(x as int) + ", y: "@ + signed_decimal(y as int)
            + ", button: "@ + button_name(button) + ", pressed: "@ + bool_text(pressed)
            + ", click_count: "@ + signed_decimal(click_count as int) + " }"@,
        HostSurfaceInputEvent::Wheel { x, y, delta_x, delta_y } => "Wheel { x: "@ + signed_decimal(
            x as int,
        ) + ", y: "@ + signed_decimal(y as int) + ", delta_x: "@ + signed_decimal(delta_x as int)
            + ", delta_y: "@ + signed_decimal(delta_y as int) + " }"@,
        HostSurfaceInputEvent::Key { key_code, pressed } => "Key { key_code: "@ + signed_decimal(
            key_code as int,
        ) + ", pressed: "@ + bool_text(pressed) + " }"@,
        HostSurfaceInputEvent::Text { text } => "Text { text: "@ + debug_quoted(text@) + " }"@,
        HostSurfaceInputEvent::Focus { focused } => "Focus { focused: "@ + bool_text(focused)
            + " }"@,
        HostSurfaceInputEvent::Resize { width, height } => "Resize { width: "@ + decimal(
            width as nat,
        ) + ", height: "@ + decimal(height as nat) + " }"@,
    }
}

/// The label of an input event in event summaries.
pub open spec fn input_label(e: HostSurfaceInputEvent) -> Seq<char> {
    match e {
        HostSurfaceInputEvent::PointerMove { .. } => "pointer move input"@,
        HostSurfaceInputEvent::PointerButton { .. } => "pointer button input"@,
        HostSurfaceInputEvent::Wheel { .. } => "wheel input"@,
        HostSurfaceInputEvent::Key { .. } => "key input"@,
        HostSurfaceInputEvent::Text { .. } => "text input"@,
        HostSurfaceInputEvent::Focus { .. } => "focus input"@,
        HostSurfaceInputEvent::Resize { .. } => "resize input"@,
    }
}

impl RuntimeBackend {
    pub fn debug_name(&self) -> (s: &'static str)
        ensures
            s@ == backend_name(*self),
    {
        match self {
            RuntimeBackend::Simulated => "Simulated",
            RuntimeBackend::Cef => "Cef",
        }
    }
}

impl RuntimeReadinessState {
    pub fn debug_name(&self) -> (s: &'static str)
        ensures
            s@ == readiness_name(*self),
    {
        match self {
            RuntimeReadinessState::NotStarted => "NotStarted",
            RuntimeReadinessState::Simulated => "Simulated",
            RuntimeReadinessState::LiveReady => "LiveReady",
            RuntimeReadinessState::LiveUnavailable => "LiveUnavailable",
            RuntimeReadinessState::InitializationFailed => "InitializationFailed",
            RuntimeReadinessState::SubprocessExited => "SubprocessExited",
        }
    }
}

impl BrowserInstanceEventKind {
    pub fn debug_name(&self) -> (s: &'static str)
        ensures
            s@ == event_kind_name(*self),
    {
        match self {
            BrowserInstanceEventKind::Created => "Created",
            BrowserInstanceEventKind::LoadStarted => "LoadStarted",
            BrowserInstanceEventKind::LoadFinished => "LoadFinished",
            BrowserInstanceEventKind::NavigationFailed => "NavigationFailed",
            BrowserInstanceEventKind::HistoryChanged => "HistoryChanged",
            BrowserInstanceEventKind::TitleChanged => "TitleChanged",
            BrowserInstanceEventKind::SurfaceUpdated => "SurfaceUpdated",
            BrowserInstanceEventKind::FocusChanged => "FocusChanged",
            BrowserInstanceEventKind::MemoryUpdated => "MemoryUpdated",
            BrowserInstanceEventKind::Crashed => "Crashed",
            BrowserInstanceEventKind::Closed => "Closed",
        }
    }
}

impl HostMouseButton {
    pub fn debug_name(&self) -> (s: &'static str)
        ensures
            s@ == button_name(*self),
    {
        match self {
            HostMouseButton::Left => "Left",
            HostMouseButton::Middle => "Middle",
            HostMouseButton::Right => "Right",
        }
    }
}

impl HostSurfaceInputEvent {
    /// The event as `{:?}` prints it.
    pub fn debug_text(&self) -> (s: String)
        ensures
            s@ == input_debug(*self),
    {
        match self {
            HostSurfaceInputEvent::PointerMove { x, y } => String::from_str(
                "PointerMove { x: ",
            ).concat(signed_text(*x as i64).as_str()).concat(", y: ").concat(
                signed_text(*y as i64).as_str(),
            ).concat(" }"),
            HostSurfaceInputEvent::PointerButton { x, y, button, pressed, click_count } =>
                String::from_str("PointerButton { x: ").concat(signed_text(*x as i64).as_str()).concat(
                ", y: ",
            ).concat(signed_text(*y as i64).as_str()).concat(", button: ").concat(
                button.debug_name(),
            ).concat(", pressed: ").concat(bool_word(*pressed)).concat(", click_count: ").concat(
                signed_text(*click_count as i64).as_str(),
            ).concat(" }"),
            HostSurfaceInputEvent::Wheel { x, y, delta_x, delta_y } => String::from_str(
                "Wheel { x: ",
            ).concat(signed_text(*x as i64).as_str()).concat(", y: ").concat(
                signed_text(*y as i64).as_str(),
            ).concat(", delta_x: ").concat(signed_text(*delta_x as i64).as_str()).concat(
                ", delta_y: ",
            ).concat(signed_text(*delta_y as i64).as_str()).concat(" }"),
            HostSurfaceInputEvent::Key { key_code, pressed } => String::from_str(
                "Key { key_code: ",
            ).concat(signed_text(*key_code as i64).as_str()).concat(", pressed: ").concat(
                bool_word(*pressed),
            ).concat(" }"),
            HostSurfaceInputEvent::Text { text } => String::from_str("Text { text: ").concat(
                debug_text(text.as_str()).as_str(),
            ).concat(" }"),
            HostSurfaceInputEvent::Focus { focused } => String::from_str(
                "Focus { focused: ",
            ).concat(bool_word(*focused)).concat(" }"),
            HostSurfaceInputEvent::Resize { width, height } => String::from_str(
                "Resize { width: ",
            ).concat(decimal_text(*width as u64).as_str()).concat(", height: ").concat(
                decimal_text(*height as u64).as_str(),
            ).concat(" }"),
        }
    }
}

pub fn input_event_label(event: &HostSurfaceInputEvent) -> (s: &'static str)
    ensures
        s@ == input_label(*event),
{
    match event {
        HostSurfaceInputEvent::PointerMove { .. } => "pointer move input",
        HostSurfaceInputEvent::PointerButton { .. } => "pointer button input",
        HostSurfaceInputEvent::Wheel { .. } => "wheel input",
        HostSurfaceInputEvent::Key { .. } => "key input",
        HostSurfaceInputEvent::Text { .. } => "text input",
        HostSurfaceInputEvent::Focus { .. } => "focus input",
        HostSurfaceInputEvent::Resize { .. } => "resize input",
    }
}

// ---------------------------------------------------------------------------
// Ordering of ids
// ---------------------------------------------------------------------------
/// Lexicographic order of texts by character, the order of `str`'s `<`.
pub open spec fn text_lt(a: Seq<char>, b: Seq<char>) -> bool
    decreases a.len(),
{
    if b.len() == 0 {
        false
    } else if a.len() == 0 {
        true
    } else if a[0] != b[0] {
        (a[0] as int) < (b[0] as int)
    } else {
        text_lt(a.subrange(1, a.len() as int), b.subrange(1, b.len() as int))
    }
}

/// Whether `a` comes before `b` in the order of `str`'s `<`.
fn text_less(a: &str, b: &str) -> (r: bool)
    ensures
        r == text_lt(a@, b@),
{
    let av = crate::text::text_chars(a);
    let bv = crate::text::text_chars(b);
    let mut k: usize = 0;
    proof {
        assert(a@.subrange(0, a@.len() as int) =~= a@);
        assert(b@.subrange(0, b@.len() as int) =~= b@);
    }
    while k < av.len() && k < bv.len() && av[k] == bv[k]
        invariant
            av@ == a@,
            bv@ == b@,
            k <= a@.len(),
            k <= b@.len(),
            text_lt(a@, b@) == text_lt(
                a@.subrange(k as int, a@.len() as int),
                b@.subrange(k as int, b@.len() as int),
            ),
        decreases av.len() - k,
    {
        proof {
            let sa = a@.subrange(k as int, a@.len() as int);
            let sb = b@.subrange(k as int, b@.len() as int);
            assert(sa.subrange(1, sa.len() as int) =~= a@.subrange(k + 1, a@.len() as int));
            assert(sb.subrange(1, sb.len() as int) =~= b@.subrange(k + 1, b@.len() as int));
        }
        k = k + 1;
    }
    let r = if k == bv.len() {
        false
    } else if k == av.len() {
        true
    } else {
        av[k] < bv[k]
    };
    proof {
        let sa = a@.subrange(k as int, a@.len() as int);
        let sb = b@.subrange(k as int, b@.len() as int);
        if k < a@.len() && k < b@.len() {
            assert(av@[k as int] != bv@[k as int]);
            assert(sa[0] != sb[0]);
            assert(r == ((sa[0] as int) < (sb[0] as int)));
        }
        assert(r == text_lt(sa, sb));
    }
    r
}

pub proof fn lemma_text_lt_irreflexive(a: Seq<char>)
    ensures
        !text_lt(a, a),
    decreases a.len(),
{
    if a.len() > 0 {
        lemma_text_lt_irreflexive(a.subrange(1, a.len() as int));
    }
}

pub proof fn lemma_text_lt_transitive(a: Seq<char>, b: Seq<char>, c: Seq<char>)
    requires
        text_lt(a, b),
        text_lt(b, c),
    ensures
        text_lt(a, c),
    decreases a.len(),
{
    if a.len() > 0 && b.len() > 0 && c.len() > 0 && a[0] == b[0] && b[0] == c[0] {
        lemma_text_lt_transitive(
            a.subrange(1, a.len() as int),
            b.subrange(1, b.len() as int),
            c.subrange(1, c.len() as int),
        );
    }
}

pub proof fn lemma_text_lt_total(a: Seq<char>, b: Seq<char>)
    requires
        a != b,
    ensures
        text_lt(a, b) || text_lt(b, a),
    decreases a.len(),
{
    if a.len() > 0 && b.len() > 0 && a[0] == b[0] {
        let ta = a.subrange(1, a.len() as int);
        let tb = b.subrange(1, b.len() as int);
        if ta == tb {
            assert(a =~= seq![a[0]] + ta);
            assert(b =~= seq![b[0]] + tb);
        }
        lemma_text_lt_total(ta, tb);
    } else if a.len() > 0 && b.len() > 0 {
        assert((a[0] as int) != (b[0] as int));
    } else if a.len() == 0 && b.len() == 0 {
        assert(a =~= b);
    }
}

// ---------------------------------------------------------------------------
// Instances
// ---------------------------------------------------------------------------
/// Index of the first instance with id `id`, or -1.
pub open spec fn instance_index(s: Seq<BrowserInstanceState>, id: Seq<char>) -> int
    decreases s.len(),
{
    if s.len() == 0 {
        -1
    } else if instance_index(s.drop_last(), id) >= 0 {
        instance_index(s.drop_last(), id)
    } else if s.last().id@ == id {
        s.len() - 1
    } else {
        -1
    }
}

pub open spec fn has_instance(s: Seq<BrowserInstanceState>, id: Seq<char>) -> bool {
    instance_index(s, id) >= 0
}

/// Ids are strictly increasing, hence distinct.
pub open spec fn ids_sorted(s: Seq<BrowserInstanceState>) -> bool {
    forall|i: int, j: int| 0 <= i < j < s.len() ==> text_lt(#[trigger] s[i].id@, #[trigger] s[j].id@)
}

/// The history is never empty and the index points into it.
pub open spec fn history_ok(s: BrowserInstanceState) -> bool {
    s.history@.len() > 0 && s.history_index < s.history@.len()
}

pub open spec fn same_frame(a: Option<BrowserFrameBuffer>, b: Option<BrowserFrameBuffer>) -> bool {
    match a {
        None => b is None,
        Some(x) => b matches Some(y) && x.width == y.width && x.height == y.height && x.bgra@
            == y.bgra@,
    }
}

pub open spec fn same_surface(a: BrowserSurfaceState, b: BrowserSurfaceState) -> bool {
    &&& a == BrowserSurfaceState { frame_buffer: a.frame_buffer, ..b }
    &&& same_frame(a.frame_buffer, b.frame_buffer)
}

/// `a` is a copy of `b`: equal fields, with the vectors equal by content.
pub open spec fn same_instance(a: BrowserInstanceState, b: BrowserInstanceState) -> bool {
    &&& a == BrowserInstanceState { history: a.history, surface: a.surface, ..b }
    &&& a.history@ == b.history@
    &&& same_surface(a.surface, b.surface)
}

/// The event `e` names `id`, has `kind` and `summary`, and carries a copy
/// of the instance `id` as `instances` hold it (none when it is absent).
pub open spec fn event_is(
    e: BrowserInstanceEvent,
    id: Seq<char>,
    kind: BrowserInstanceEventKind,
    summary: Seq<char>,
    instances: Seq<BrowserInstanceState>,
) -> bool {
    &&& e.browser_id@ == id
    &&& e.kind == kind
    &&& e.summary@ == summary
    &&& if has_instance(instances, id) {
        e.snapshot matches Some(s) && same_instance(s, instances[instance_index(instances, id)])
    } else {
        e.snapshot is None
    }
}

pub open spec fn diagnostic_is(d: StartupDiagnostics, component: Seq<char>, detail: Seq<char>) -> bool {
    d.component@ == component && d.detail@ == detail
}

pub open spec fn not_found(id: Seq<char>) -> Seq<char> {
    "Browser instance '"@ + id + "' was not found"@
}

pub proof fn lemma_instance_index_valid(s: Seq<BrowserInstanceState>, id: Seq<char>)
    ensures
        instance_index(s, id) >= -1,
        instance_index(s, id) < s.len(),
        instance_index(s, id) >= 0 ==> s[instance_index(s, id)].id@ == id,
        instance_index(s, id) < 0 ==> forall|i: int| 0 <= i < s.len() ==> #[trigger] s[i].id@ != id,
    decreases s.len(),
{
    if s.len() > 0 {
        lemma_instance_index_valid(s.drop_last(), id);
        assert forall|i: int| 0 <= i < s.len() - 1 implies s[i] == #[trigger] s.drop_last()[i] by {}
        if instance_index(s, id) < 0 {
            assert forall|i: int| 0 <= i < s.len() implies #[trigger] s[i].id@ != id by {
                if i < s.len() - 1 {
                    assert(s[i] == s.drop_last()[i]);
                }
            }
        }
    }
}

/// In a list with sorted ids, the instance with a given id is the one at
/// any index holding that id.
pub proof fn lemma_sorted_index_unique(s: Seq<BrowserInstanceState>, id: Seq<char>, i: int)
    requires
        ids_sorted(s),
        0 <= i < s.len(),
        s[i].id@ == id,
    ensures
        instance_index(s, id) == i,
{
    lemma_instance_index_valid(s, id);
    let k = instance_index(s, id);
    if k != i {
        if k < i {
            assert(text_lt(s[k].id@, s[i].id@));
        } else {
            assert(text_lt(s[i].id@, s[k].id@));
        }
        lemma_text_lt_irreflexive(id);
    }
}

/// Replacing the instance at `i` with one of the same id keeps the ids
/// sorted and the lookups of every id.
pub proof fn lemma_update_same_id(s: Seq<BrowserInstanceState>, i: int, v: BrowserInstanceState)
    requires
        ids_sorted(s),
        0 <= i < s.len(),
        v.id == s[i].id,
    ensures
        ids_sorted(s.update(i, v)),
        forall|id: Seq<char>| #[trigger] instance_index(s.update(i, v), id) == instance_index(s, id),
{
    let t = s.update(i, v);
    assert forall|a: int, b: int| 0 <= a < b < t.len() implies text_lt(
        #[trigger] t[a].id@,
        #[trigger] t[b].id@,
    ) by {
        assert(t[a].id == s[a].id);
        assert(t[b].id == s[b].id);
    }
    assert forall|id: Seq<char>| #[trigger] instance_index(t, id) == instance_index(s, id) by {
        lemma_instance_index_valid(s, id);
        lemma_instance_index_valid(t, id);
        if instance_index(s, id) >= 0 {
            let k = instance_index(s, id);
            assert(t[k].id == s[k].id);
            lemma_sorted_index_unique(t, id, k);
        } else if instance_index(t, id) >= 0 {
            let k = instance_index(t, id);
            assert(t[k].id == s[k].id);
        }
    }
}

fn copy_text_opt(o: &Option<String>) -> (r: Option<String>)
    ensures
        r == *o,
{
    match o {
        Some(s) => Some(s.clone()),
        None => None,
    }
}

fn copy_texts(v: &Vec<String>) -> (r: Vec<String>)
    ensures
        r@ == v@,
{
    let mut out: Vec<String> = Vec::new();
    let mut k: usize = 0;
    while k < v.len()
        invariant
            k <= v.len(),
            out@ == v@.take(k as int),
        decreases v.len() - k,
    {
        out.push(v[k].clone());
        proof {
            assert(out@ =~= v@.take(k + 1));
        }
        k = k + 1;
    }
    proof {
        assert(out@ =~= v@);
    }
    out
}

fn copy_bytes(v: &Vec<u8>) -> (r: Vec<u8>)
    ensures
        r@ == v@,
{
    let mut out: Vec<u8> = Vec::new();
    let mut k: usize = 0;
    while k < v.len()
        invariant
            k <= v.len(),
            out@ == v@.take(k as int),
        decreases v.len() - k,
    {
        out.push(v[k]);
        proof {
            assert(out@ =~= v@.take(k + 1));
        }
        k = k + 1;
    }
    proof {
        assert(out@ =~= v@);
    }
    out
}

fn copy_frame(f: &Option<BrowserFrameBuffer>) -> (r: Option<BrowserFrameBuffer>)
    ensures
        same_frame(r, *f),
{
    match f {
        Some(b) => Some(BrowserFrameBuffer { width: b.width, height: b.height, bgra: copy_bytes(&b.bgra) }),
        None => None,
    }
}

pub fn copy_surface(s: &BrowserSurfaceState) -> (r: BrowserSurfaceState)
    ensures
        same_surface(r, *s),
{
    BrowserSurfaceState {
        surface_id: s.surface_id.clone(),
        render_mode: s.render_mode,
        width: s.width,
        height: s.height,
        focused: s.focused,
        frame_token: s.frame_token,
        last_frame_label: s.last_frame_label.clone(),
        render_evidence: copy_text_opt(&s.render_evidence),
        frame_buffer: copy_frame(&s.frame_buffer),
        damage_events: s.damage_events,
        host_surface_failure: copy_text_opt(&s.host_surface_failure),
    }
}

/// A copy of an instance state, as `clone` gives.
pub fn copy_instance(s: &BrowserInstanceState) -> (r: BrowserInstanceState)
    ensures
        same_instance(r, *s),
{
    BrowserInstanceState {
        id: s.id.clone(),
        url: s.url.clone(),
        title: s.title.clone(),
        is_loading: s.is_loading,
        backend: s.backend,
        memory_usage_bytes: s.memory_usage_bytes,
        memory_indicator: copy_text_opt(&s.memory_indicator),
        failure_state: copy_text_opt(&s.failure_state),
        memory_attribution: copy_text_opt(&s.memory_attribution),
        surface: copy_surface(&s.surface),
        history: copy_texts(&s.history),
        history_index: s.history_index,
        status_text: s.status_text.clone(),
        can_go_back: s.can_go_back,
        can_go_forward: s.can_go_forward,
    }
}


// ---------------------------------------------------------------------------
// Readiness
// ---------------------------------------------------------------------------
pub open spec fn item_if(b: bool, t: Seq<char>) -> Seq<Seq<char>> {
    if b {
        seq![t]
    } else {
        Seq::empty()
    }
}

pub open spec fn dir_error_item(dir: Seq<char>, e: Option<String>) -> Seq<Seq<char>> {
    match e {
        Some(m) => seq!["runtime dir "@ + dir + ": "@ + m@],
        None => Seq::empty(),
    }
}

pub open spec fn icudtl_path(st: EngineLaunchSettings) -> Seq<char> {
    joined_path(st.resources_dir@, "icudtl.dat"@)
}

/// Every path the readiness check looks at, labelled, with `icudtl` the
/// path of CEF's `icudtl.dat`.
pub open spec fn checked_with(st: EngineLaunchSettings, icudtl: Seq<char>) -> Seq<Seq<char>> {
    seq![
        "CEF distribution root: "@ + st.distribution_root@,
        "CEF locales: "@ + st.locales_dir@,
        "CEF resources (icudtl.dat): "@ + icudtl,
        "CEF subprocess: "@ + st.subprocess_path@,
        "runtime dir: "@ + st.data_dir@,
        "runtime dir: "@ + st.cache_dir@,
        "runtime dir: "@ + st.log_dir@,
    ]
}

/// Every path the readiness check looks at, labelled.
pub open spec fn readiness_checked(st: EngineLaunchSettings) -> Seq<Seq<char>> {
    checked_with(st, icudtl_path(st))
}

/// The runtime directories that could not be created, with the error.
pub open spec fn readiness_dir_errors(st: EngineLaunchSettings, p: ReadinessProbe) -> Seq<Seq<char>> {
    dir_error_item(st.data_dir@, p.data_dir_error) + dir_error_item(st.cache_dir@, p.cache_dir_error)
        + dir_error_item(st.log_dir@, p.log_dir_error)
}

/// What the probe found missing, in the order the check looks, with
/// `icudtl` the path of CEF's `icudtl.dat`.
pub open spec fn missing_with(st: EngineLaunchSettings, p: ReadinessProbe, icudtl: Seq<char>) -> Seq<
    Seq<char>,
> {
    item_if(!p.distribution_root_exists, "CEF distribution root ("@ + st.distribution_root@ + ")"@)
        + item_if(!p.locales_dir_exists, "CEF locales ("@ + st.locales_dir@ + ")"@) + item_if(
        !p.icudtl_exists,
        "CEF resources ("@ + icudtl
            + ") \u{2014} icudtl.dat not found; resources_dir may be wrong"@,
    ) + item_if(!p.subprocess_exists, "CEF subprocess ("@ + st.subprocess_path@ + ")"@)
        + readiness_dir_errors(st, p)
}

/// What the probe found missing, in the order the check looks.
pub open spec fn readiness_missing(st: EngineLaunchSettings, p: ReadinessProbe) -> Seq<Seq<char>> {
    missing_with(st, p, icudtl_path(st))
}

pub open spec fn readiness_summary(st: EngineLaunchSettings, missing: Seq<Seq<char>>) -> Seq<char> {
    if missing.len() == 0 {
        "Live CEF prerequisites present; subprocess='"@ + st.subprocess_path@ + "', resources='"@
            + st.resources_dir@ + "', locales='"@ + st.locales_dir@ + "', remote_debugging_port="@
            + decimal(st.remote_debugging_port as nat)
    } else {
        "Live CEF prerequisites missing: "@ + joined(missing, ", "@)
    }
}

/// The readiness the live check reports for a probe.
pub open spec fn readiness_from_probe(r: RuntimeReadiness, st: EngineLaunchSettings, p: ReadinessProbe) -> bool {
    let missing = readiness_missing(st, p);
    &&& r.state == (if missing.len() == 0 {
        RuntimeReadinessState::LiveReady
    } else {
        RuntimeReadinessState::LiveUnavailable
    })
    &&& r.live_mvp_ready == (missing.len() == 0)
    &&& !r.simulated
    &&& r.summary@ == readiness_summary(st, missing)
    &&& r.missing_paths.deep_view() == missing
    &&& r.checked_paths.deep_view() == readiness_checked(st)
    &&& r.readiness_errors.deep_view() == readiness_dir_errors(st, p)
}

/// The launch settings a configuration gives.
pub open spec fn settings_from(st: EngineLaunchSettings, c: AppConfig) -> bool {
    &&& st.framework == BrowserFramework::Cef
    &&& st.distribution_root == c.cef.distribution_root
    &&& st.subprocess_path == c.subprocess.browser_subprocess_path
    &&& st.subprocess_args@ == c.subprocess.extra_args@
    &&& st.remote_debugging_port == c.startup.remote_debugging_port
    &&& st.resources_dir == c.cef.resources_dir
    &&& st.locales_dir == c.cef.locales_dir
    &&& st.data_dir == c.paths.data_dir
    &&& st.cache_dir == c.paths.cache_dir
    &&& st.log_dir == c.paths.log_dir
    &&& st.runtime_mode == c.startup.runtime_mode
}

pub open spec fn backend_for(mode: BrowserRuntimeMode) -> RuntimeBackend {
    match mode {
        BrowserRuntimeMode::RealCef => RuntimeBackend::Cef,
        BrowserRuntimeMode::Simulated => RuntimeBackend::Simulated,
    }
}

/// The readiness a readiness report leaves after a start.
pub open spec fn readiness_is(
    r: RuntimeReadiness,
    state: RuntimeReadinessState,
    live: bool,
    simulated: bool,
    summary: Seq<char>,
    checked: Seq<Seq<char>>,
) -> bool {
    &&& r.state == state
    &&& r.live_mvp_ready == live
    &&& r.simulated == simulated
    &&& r.summary@ == summary
    &&& r.missing_paths@.len() == 0
    &&& r.checked_paths.deep_view() == checked
    &&& r.readiness_errors@.len() == 0
}

pub open spec fn appended<T>(old: Seq<T>, new: Seq<T>, n: int) -> bool {
    new.len() == old.len() + n && new.take(old.len() as int) == old
}

pub(crate) fn push_text(v: &mut Vec<String>, t: String)
    ensures
        final(v)@ == old(v)@.push(t),
        final(v).deep_view() == old(v).deep_view().push(t@),
{
    v.push(t);
    proof {
        assert(v.deep_view() =~= old(v).deep_view().push(t@));
    }
}

fn make_readiness(
    state: RuntimeReadinessState,
    live: bool,
    simulated: bool,
    summary: String,
    checked_paths: Vec<String>,
) -> (r: RuntimeReadiness)
    ensures
        readiness_is(r, state, live, simulated, summary@, checked_paths.deep_view()),
        r.checked_paths@ == checked_paths@,
{
    RuntimeReadiness {
        state,
        live_mvp_ready: live,
        simulated,
        summary,
        missing_paths: Vec::new(),
        checked_paths,
        readiness_errors: Vec::new(),
    }
}


// ---------------------------------------------------------------------------
// What each operation does to an instance
// ---------------------------------------------------------------------------
pub open spec fn next_token(s: BrowserInstanceState) -> u64 {
    (s.surface.frame_token + 1) as u64
}

/// Navigation to `url`: the forward history is dropped and `url` appended.
pub open spec fn after_navigate(old: BrowserInstanceState, new: BrowserInstanceState, url: Seq<char>) -> bool {
    let hist = old.history.deep_view().take(old.history_index + 1).push(url);
    &&& new == BrowserInstanceState {
        url: new.url,
        title: new.title,
        is_loading: true,
        failure_state: None,
        history: new.history,
        history_index: (hist.len() - 1) as usize,
        can_go_back: hist.len() - 1 > 0,
        can_go_forward: false,
        status_text: new.status_text,
        surface: BrowserSurfaceState {
            frame_token: next_token(old),
            last_frame_label: new.surface.last_frame_label,
            render_evidence: new.surface.render_evidence,
            ..old.surface
        },
        ..old
    }
    &&& new.url@ == url
    &&& new.title@ == "Loading..."@
    &&& new.history.deep_view() == hist
    &&& new.status_text@ == "Navigating to "@ + url
    &&& new.surface.last_frame_label@ == "Loading "@ + url
    &&& match old.backend {
        RuntimeBackend::Cef => new.surface.render_evidence matches Some(e) && e@
            == "CEF navigation requested for "@ + url + "; awaiting renderer callback"@,
        RuntimeBackend::Simulated => new.surface.render_evidence is None,
    }
}

/// A simulated load that finished with `title`.
pub open spec fn after_finish(old: BrowserInstanceState, new: BrowserInstanceState, title: Seq<char>) -> bool {
    &&& new == BrowserInstanceState {
        title: new.title,
        is_loading: false,
        failure_state: None,
        status_text: new.status_text,
        surface: BrowserSurfaceState {
            frame_token: next_token(old),
            last_frame_label: new.surface.last_frame_label,
            render_evidence: new.surface.render_evidence,
            damage_events: (old.surface.damage_events + 1) as u64,
            ..old.surface
        },
        ..old
    }
    &&& new.title@ == title
    &&& new.status_text@ == "Loaded "@ + old.url@
    &&& new.surface.last_frame_label@ == title + " ("@ + old.url@ + ")"@
    &&& new.surface.render_evidence matches Some(e) && e@ == "Engine observed rendered state for '"@
        + old.url@ + "' at frame "@ + decimal(next_token(old) as nat)
}

/// A failure reported with `message`: `status` and `label` start the texts.
pub open spec fn after_failure(
    old: BrowserInstanceState,
    new: BrowserInstanceState,
    message: Seq<char>,
    status: Seq<char>,
    label: Seq<char>,
) -> bool {
    &&& new == BrowserInstanceState {
        is_loading: false,
        failure_state: new.failure_state,
        status_text: new.status_text,
        surface: BrowserSurfaceState {
            frame_token: next_token(old),
            last_frame_label: new.surface.last_frame_label,
            host_surface_failure: new.surface.host_surface_failure,
            ..old.surface
        },
        ..old
    }
    &&& new.failure_state matches Some(f) && f@ == message
    &&& new.surface.host_surface_failure matches Some(f) && f@ == message
    &&& new.status_text@ == status + message
    &&& new.surface.last_frame_label@ == label + message
}

/// The surface resized to `width` x `height`.
pub open spec fn after_resize(old: BrowserInstanceState, new: BrowserInstanceState, width: u32, height: u32) -> bool {
    &&& new == BrowserInstanceState {
        status_text: new.status_text,
        surface: BrowserSurfaceState {
            width: width,
            height: height,
            frame_token: next_token(old),
            last_frame_label: new.surface.last_frame_label,
            ..old.surface
        },
        ..old
    }
    &&& new.surface.last_frame_label@ == old.title@ + " ("@ + decimal(width as nat) + "x"@
        + decimal(height as nat) + ")"@
    &&& new.status_text@ == "Resized surface to "@ + decimal(width as nat) + "x"@ + decimal(
        height as nat,
    )
}

/// The surface focused or blurred.
pub open spec fn after_focus(old: BrowserInstanceState, new: BrowserInstanceState, focused: bool) -> bool {
    &&& new == BrowserInstanceState {
        status_text: new.status_text,
        surface: BrowserSurfaceState { focused: focused, ..old.surface },
        ..old
    }
    &&& new.status_text@ == (if focused {
        "Surface focused"@
    } else {
        "Surface blurred"@
    })
}

pub open spec fn indicator_label(indicator: Option<String>) -> Seq<char> {
    match indicator {
        Some(i) => i@,
        None => "normal"@,
    }
}

/// New memory figures recorded.
pub open spec fn after_memory(
    old: BrowserInstanceState,
    new: BrowserInstanceState,
    bytes: u64,
    indicator: Option<String>,
    failure: Option<String>,
    attribution: Option<String>,
) -> bool {
    &&& new == BrowserInstanceState {
        memory_usage_bytes: bytes,
        memory_indicator: indicator,
        failure_state: failure,
        memory_attribution: attribution,
        status_text: new.status_text,
        ..old
    }
    &&& new.status_text@ == "Observed memory state: "@ + decimal(bytes as nat) + " bytes ("@
        + indicator_label(indicator) + ")"@
}

/// A history step to `index`: the instance shows that entry.
pub open spec fn after_history_step(
    old: BrowserInstanceState,
    new: BrowserInstanceState,
    index: int,
    status: Seq<char>,
) -> bool {
    let url = old.history@[index];
    &&& new == BrowserInstanceState {
        url: url,
        title: url,
        is_loading: false,
        failure_state: None,
        history_index: index as usize,
        can_go_back: index > 0,
        can_go_forward: index + 1 < old.history@.len(),
        status_text: new.status_text,
        surface: BrowserSurfaceState {
            frame_token: next_token(old),
            last_frame_label: new.surface.last_frame_label,
            ..old.surface
        },
        ..old
    }
    &&& new.status_text@ == status + url@
    &&& new.surface.last_frame_label@ == "History: "@ + url@
}

/// A command forwarded to a live host: loading, with a status text.
pub open spec fn after_live_request(
    old: BrowserInstanceState,
    new: BrowserInstanceState,
    status: Seq<char>,
    clears_failure: bool,
) -> bool {
    &&& new == BrowserInstanceState {
        is_loading: true,
        failure_state: if clears_failure {
            None
        } else {
            old.failure_state
        },
        status_text: new.status_text,
        ..old
    }
    &&& new.status_text@ == status
}

/// The state a new instance starts in.
pub open spec fn fresh_instance(
    s: BrowserInstanceState,
    id: Seq<char>,
    surface_id: Seq<char>,
    url: Seq<char>,
    backend: RuntimeBackend,
) -> bool {
    &&& s.id@ == id
    &&& s.url@ == url
    &&& s.title@ == "Loading..."@
    &&& s.is_loading
    &&& s.backend == backend
    &&& s.memory_usage_bytes == 0
    &&& s.memory_indicator is None
    &&& s.failure_state is None
    &&& s.memory_attribution is None
    &&& s.history.deep_view() == seq![url]
    &&& s.history_index == 0
    &&& s.status_text@ == "Created live browser instance for "@ + url
    &&& !s.can_go_back
    &&& !s.can_go_forward
    &&& s.surface.surface_id@ == surface_id
    &&& s.surface.render_mode == (match backend {
        RuntimeBackend::Cef => BrowserSurfaceRenderMode::CefOffscreen,
        RuntimeBackend::Simulated => BrowserSurfaceRenderMode::Placeholder,
    })
    &&& s.surface.width == 1280
    &&& s.surface.height == 720
    &&& !s.surface.focused
    &&& s.surface.frame_token == 1
    &&& s.surface.last_frame_label@ == "Preparing "@ + url
    &&& match backend {
        RuntimeBackend::Cef => s.surface.render_evidence matches Some(e) && e@
            == "CEF browser host created for "@ + url + "; awaiting first paint"@,
        RuntimeBackend::Simulated => s.surface.render_evidence is None,
    }
    &&& s.surface.frame_buffer is None
    &&& s.surface.damage_events == 0
    &&& s.surface.host_surface_failure is None
}

pub open spec fn instance_id_text(n: nat) -> Seq<char> {
    "browser-instance-"@ + decimal(n)
}

pub open spec fn surface_id_text(n: nat) -> Seq<char> {
    "browser-surface-"@ + decimal(n)
}

/// Why a new instance cannot be created now, if it cannot.
pub open spec fn creation_block(e: &WeboxEngine) -> Option<Seq<char>> {
    if e.spec_state() != EngineState::Started {
        Some("Engine must be started before creating browser instances"@)
    } else if e.settings().runtime_mode == BrowserRuntimeMode::RealCef
        && !e.readiness().live_mvp_ready {
        Some("Live CEF browser instance cannot be created: "@ + e.readiness().summary@)
    } else {
        None
    }
}

/// `new` is `old` with `v` stored under its id: replacing an instance with
/// that id, or inserted where the ids stay sorted.
pub open spec fn stored(old: Seq<BrowserInstanceState>, new: Seq<BrowserInstanceState>, v: BrowserInstanceState) -> bool {
    &&& has_instance(old, v.id@) ==> new == old.update(instance_index(old, v.id@), v)
    &&& !has_instance(old, v.id@) ==> exists|j: int| 0 <= j <= old.len() && new == old.insert(j, v)
    &&& ids_sorted(new)
    &&& has_instance(new, v.id@) && new[instance_index(new, v.id@)] == v
}

/// There is room to advance the frame counter of `id`.
pub open spec fn frame_fits(s: Seq<BrowserInstanceState>, id: Seq<char>) -> bool {
    has_instance(s, id) ==> s[instance_index(s, id)].surface.frame_token < u64::MAX
}

/// There is room to advance the frame and damage counters of `id`.
pub open spec fn counters_fit(s: Seq<BrowserInstanceState>, id: Seq<char>) -> bool {
    has_instance(s, id) ==> s[instance_index(s, id)].surface.frame_token < u64::MAX
        && s[instance_index(s, id)].surface.damage_events < u64::MAX
}

/// What a start leaves: the backend, the readiness and the diagnostic `d`,
/// for the launch settings `st`, the readiness probe and whether CEF
/// initialized.
pub open spec fn start_outcome(
    st: EngineLaunchSettings,
    probe: ReadinessProbe,
    cef_initialized: bool,
    backend: RuntimeBackend,
    r: RuntimeReadiness,
    d: StartupDiagnostics,
) -> bool {
    let missing = readiness_missing(st, probe);
    match st.runtime_mode {
        BrowserRuntimeMode::Simulated => {
            &&& backend == RuntimeBackend::Simulated
            &&& readiness_is(
                r,
                RuntimeReadinessState::Simulated,
                false,
                true,
                "Explicit simulated runtime mode; not live-MVP-ready"@,
                Seq::empty(),
            )
            &&& diagnostic_is(
                d,
                "engine.bootstrap"@,
                "Initialized explicit simulated runtime bootstrap with subprocess '"@
                    + st.subprocess_path@ + "' on port "@ + decimal(
                    st.remote_debugging_port as nat,
                ) + "; not live-MVP-ready"@,
            )
        },
        BrowserRuntimeMode::RealCef => {
            &&& backend == RuntimeBackend::Cef
            &&& missing.len() > 0 ==> {
                &&& readiness_from_probe(r, st, probe)
                &&& diagnostic_is(
                    d,
                    "engine.readiness"@,
                    "Live CEF runtime unavailable; missing required paths: "@ + joined(
                        missing,
                        ", "@,
                    ),
                )
            }
            &&& missing.len() == 0 && cef_initialized ==> {
                &&& readiness_is(
                    r,
                    RuntimeReadinessState::LiveReady,
                    true,
                    false,
                    "Real CEF runtime initialized for live MVP mode"@,
                    readiness_checked(st),
                )
                &&& diagnostic_is(
                    d,
                    "engine.bootstrap"@,
                    "Initialized real CEF runtime with subprocess '"@ + st.subprocess_path@
                        + "' and resources '"@ + st.resources_dir@ + "'"@,
                )
            }
            &&& missing.len() == 0 && !cef_initialized ==> {
                &&& readiness_is(
                    r,
                    RuntimeReadinessState::InitializationFailed,
                    false,
                    false,
                    "CEF initialization failed; live browser mode unavailable"@,
                    readiness_checked(st),
                )
                &&& diagnostic_is(
                    d,
                    "engine.bootstrap"@,
                    "CEF initialization failed; live browser mode unavailable"@,
                )
            }
        },
    }
}

// ---------------------------------------------------------------------------
// Callbacks from live hosts
// ---------------------------------------------------------------------------
/// A painted dimension as the surface records it: negative values are 0.
pub open spec fn dim(v: i32) -> u32 {
    if v > 0 {
        v as u32
    } else {
        0
    }
}

pub open spec fn load_error_text(code: Seq<char>, text: Seq<char>, url: Seq<char>) -> Seq<char> {
    "CEF load error "@ + code + " for "@ + url + ": "@ + text
}

/// The kind of event a callback is reported as.
pub open spec fn callback_event_kind(k: LiveBrowserCallbackKind) -> BrowserInstanceEventKind {
    match k {
        LiveBrowserCallbackKind::AfterCreated { .. } => BrowserInstanceEventKind::Created,
        LiveBrowserCallbackKind::BeforeClose => BrowserInstanceEventKind::Closed,
        LiveBrowserCallbackKind::TitleChanged { .. } => BrowserInstanceEventKind::TitleChanged,
        LiveBrowserCallbackKind::AddressChanged { .. } => BrowserInstanceEventKind::HistoryChanged,
        LiveBrowserCallbackKind::LoadingStateChanged { .. } => BrowserInstanceEventKind::HistoryChanged,
        LiveBrowserCallbackKind::LoadStarted => BrowserInstanceEventKind::LoadStarted,
        LiveBrowserCallbackKind::LoadFinished { .. } => BrowserInstanceEventKind::LoadFinished,
        LiveBrowserCallbackKind::LoadError { .. } => BrowserInstanceEventKind::NavigationFailed,
        LiveBrowserCallbackKind::Painted { .. } => BrowserInstanceEventKind::SurfaceUpdated,
    }
}

/// The summary of the event a callback for `id` is reported as.
pub open spec fn callback_summary(id: Seq<char>, k: LiveBrowserCallbackKind) -> Seq<char> {
    match k {
        LiveBrowserCallbackKind::AfterCreated { .. } => "CEF browser host created for '"@ + id
            + "'"@,
        LiveBrowserCallbackKind::BeforeClose => "CEF browser host closing for '"@ + id + "'"@,
        LiveBrowserCallbackKind::TitleChanged { title } => "CEF title changed for '"@ + id
            + "' to '"@ + title@ + "'"@,
        LiveBrowserCallbackKind::AddressChanged { url } => "CEF address changed for '"@ + id
            + "' to '"@ + url@ + "'"@,
        LiveBrowserCallbackKind::LoadingStateChanged { .. } => "CEF loading state changed for '"@
            + id + "'"@,
        LiveBrowserCallbackKind::LoadStarted => "CEF load started for '"@ + id + "'"@,
        LiveBrowserCallbackKind::LoadFinished { .. } => "CEF load finished for '"@ + id + "'"@,
        LiveBrowserCallbackKind::LoadError { code, text, url } => load_error_text(
            code@,
            text@,
            url@,
        ),
        LiveBrowserCallbackKind::Painted { .. } => "CEF painted surface for '"@ + id + "'"@,
    }
}

/// The history after CEF reported the address `url`: a new address is
/// appended after the current entry, dropping the forward entries.
pub open spec fn address_history(old: BrowserInstanceState, url: Seq<char>) -> Seq<Seq<char>> {
    let h = old.history.deep_view();
    if h.len() > 0 && h.last() == url {
        h
    } else {
        h.take(old.history_index + 1).push(url)
    }
}

pub open spec fn address_index(old: BrowserInstanceState, url: Seq<char>) -> int {
    let h = old.history.deep_view();
    if h.len() > 0 && h.last() == url {
        old.history_index as int
    } else {
        address_history(old, url).len() - 1
    }
}

/// What a callback does to the instance it names.
pub open spec fn callback_applied(
    old: BrowserInstanceState,
    new: BrowserInstanceState,
    k: LiveBrowserCallbackKind,
) -> bool {
    match k {
        LiveBrowserCallbackKind::AfterCreated { cef_identifier } => {
            &&& new == BrowserInstanceState { status_text: new.status_text, ..old }
            &&& new.status_text@ == "CEF browser instance created with native id "@
                + signed_decimal(cef_identifier as int)
        },
        LiveBrowserCallbackKind::BeforeClose => new == old,
        LiveBrowserCallbackKind::TitleChanged { title } => {
            &&& new == BrowserInstanceState { title: title, status_text: new.status_text, ..old }
            &&& new.status_text@ == "Title updated by CEF: "@ + title@
        },
        LiveBrowserCallbackKind::AddressChanged { url } => {
            let hist = address_history(old, url@);
            let idx = address_index(old, url@);
            &&& new == BrowserInstanceState {
                url: url,
                history: new.history,
                history_index: idx as usize,
                can_go_back: idx > 0,
                can_go_forward: idx + 1 < hist.len(),
                status_text: new.status_text,
                ..old
            }
            &&& new.history.deep_view() == hist
            &&& new.status_text@ == "Address updated by CEF: "@ + url@
        },
        LiveBrowserCallbackKind::LoadingStateChanged { is_loading, can_go_back, can_go_forward } => {
            &&& new == BrowserInstanceState {
                is_loading: is_loading,
                can_go_back: can_go_back,
                can_go_forward: can_go_forward,
                status_text: new.status_text,
                ..old
            }
            &&& new.status_text@ == "CEF loading state changed: loading="@ + bool_text(is_loading)
                + ", back="@ + bool_text(can_go_back) + ", forward="@ + bool_text(can_go_forward)
        },
        LiveBrowserCallbackKind::LoadStarted => {
            &&& new == BrowserInstanceState { is_loading: true, status_text: new.status_text, ..old }
            &&& new.status_text@ == "CEF load started"@
        },
        LiveBrowserCallbackKind::LoadFinished { http_status_code } => {
            &&& new == BrowserInstanceState {
                is_loading: false,
                failure_state: None,
                status_text: new.status_text,
                surface: BrowserSurfaceState {
                    render_evidence: new.surface.render_evidence,
                    ..old.surface
                },
                ..old
            }
            &&& new.status_text@ == "CEF load finished with HTTP "@ + signed_decimal(
                http_status_code as int,
            )
            &&& new.surface.render_evidence matches Some(e) && e@ == "CEF load finished for "@
                + old.url@ + " with HTTP "@ + signed_decimal(http_status_code as int)
        },
        LiveBrowserCallbackKind::LoadError { code, text, url } => {
            let m = load_error_text(code@, text@, url@);
            &&& new == BrowserInstanceState {
                is_loading: false,
                failure_state: new.failure_state,
                status_text: new.status_text,
                surface: BrowserSurfaceState {
                    host_surface_failure: new.surface.host_surface_failure,
                    ..old.surface
                },
                ..old
            }
            &&& new.failure_state matches Some(f) && f@ == m
            &&& new.status_text@ == m
            &&& new.surface.host_surface_failure matches Some(f) && f@ == m
        },
        LiveBrowserCallbackKind::Painted { width, height, dirty_rects, buffer } => {
            &&& new == BrowserInstanceState {
                surface: BrowserSurfaceState {
                    width: dim(width),
                    height: dim(height),
                    frame_token: next_token(old),
                    damage_events: (old.surface.damage_events + dirty_rects) as u64,
                    render_evidence: new.surface.render_evidence,
                    last_frame_label: new.surface.last_frame_label,
                    frame_buffer: match buffer {
                        Some(b) => Some(
                            BrowserFrameBuffer { width: dim(width), height: dim(height), bgra: b },
                        ),
                        None => None,
                    },
                    ..old.surface
                },
                ..old
            }
            &&& new.surface.render_evidence matches Some(e) && e@ == "CEF painted frame "@
                + signed_decimal(width as int) + "x"@ + signed_decimal(height as int) + " with "@
                + decimal(dirty_rects as nat) + " dirty rect(s)"@
            &&& new.surface.last_frame_label@ == "Live CEF frame "@ + decimal(next_token(old) as nat)
                + " ("@ + signed_decimal(width as int) + "x"@ + signed_decimal(height as int) + ")"@
        },
    }
}

/// A paint leaves room in the frame and damage counters of the instance.
pub open spec fn callback_fits(s: Seq<BrowserInstanceState>, c: LiveBrowserCallbackEvent) -> bool {
    match c.kind {
        LiveBrowserCallbackKind::Painted { dirty_rects, .. } => has_instance(s, c.browser_id@) ==> {
            let inst = s[instance_index(s, c.browser_id@)];
            inst.surface.frame_token < u64::MAX && inst.surface.damage_events + dirty_rects
                <= u64::MAX
        },
        _ => true,
    }
}

fn callback_report(browser_id: &str, kind: &LiveBrowserCallbackKind) -> (r: (
    BrowserInstanceEventKind,
    String,
))
    ensures
        r.0 == callback_event_kind(*kind),
        r.1@ == callback_summary(browser_id@, *kind),
{
    match kind {
        LiveBrowserCallbackKind::AfterCreated { .. } => (
            BrowserInstanceEventKind::Created,
            String::from_str("CEF browser host created for '").concat(browser_id).concat("'"),
        ),
        LiveBrowserCallbackKind::BeforeClose => (
            BrowserInstanceEventKind::Closed,
            String::from_str("CEF browser host closing for '").concat(browser_id).concat("'"),
        ),
        LiveBrowserCallbackKind::TitleChanged { title } => (
            BrowserInstanceEventKind::TitleChanged,
            String::from_str("CEF title changed for '").concat(browser_id).concat("' to '").concat(
                title.as_str(),
            ).concat("'"),
        ),
        LiveBrowserCallbackKind::AddressChanged { url } => (
            BrowserInstanceEventKind::HistoryChanged,
            String::from_str("CEF address changed for '").concat(browser_id).concat("' to '").concat(
                url.as_str(),
            ).concat("'"),
        ),
        LiveBrowserCallbackKind::LoadingStateChanged { .. } => (
            BrowserInstanceEventKind::HistoryChanged,
            String::from_str("CEF loading state changed for '").concat(browser_id).concat("'"),
        ),
        LiveBrowserCallbackKind::LoadStarted => (
            BrowserInstanceEventKind::LoadStarted,
            String::from_str("CEF load started for '").concat(browser_id).concat("'"),
        ),
        LiveBrowserCallbackKind::LoadFinished { .. } => (
            BrowserInstanceEventKind::LoadFinished,
            String::from_str("CEF load finished for '").concat(browser_id).concat("'"),
        ),
        LiveBrowserCallbackKind::LoadError { code, text, url } => (
            BrowserInstanceEventKind::NavigationFailed,
            String::from_str("CEF load error ").concat(code.as_str()).concat(" for ").concat(
                url.as_str(),
            ).concat(": ").concat(text.as_str()),
        ),
        LiveBrowserCallbackKind::Painted { .. } => (
            BrowserInstanceEventKind::SurfaceUpdated,
            String::from_str("CEF painted surface for '").concat(browser_id).concat("'"),
        ),
    }
}

fn dim_of(v: i32) -> (r: u32)
    ensures
        r == dim(v),
{
    if v > 0 {
        v as u32
    } else {
        0
    }
}

/// Applies a callback to the instance it names.
fn apply_callback_to(inst: &mut BrowserInstanceState, kind: LiveBrowserCallbackKind)
    requires
        history_ok(*old(inst)),
        kind matches LiveBrowserCallbackKind::Painted { dirty_rects, .. } ==> old(
            inst,
        ).surface.frame_token < u64::MAX && old(inst).surface.damage_events + dirty_rects
            <= u64::MAX,
    ensures
        history_ok(*final(inst)),
        callback_applied(*old(inst), *final(inst), kind),
{
    match kind {
        LiveBrowserCallbackKind::AfterCreated { cef_identifier } => {
            inst.status_text = String::from_str("CEF browser instance created with native id ").concat(
                signed_text(cef_identifier as i64).as_str(),
            );
        },
        LiveBrowserCallbackKind::BeforeClose => {},
        LiveBrowserCallbackKind::TitleChanged { title } => {
            inst.status_text = String::from_str("Title updated by CEF: ").concat(title.as_str());
            inst.title = title;
        },
        LiveBrowserCallbackKind::AddressChanged { url } => {
            let ghost h = inst.history.deep_view();
            proof {
                assert(inst.history_index < inst.history.len());
            }
            let n: usize = inst.history.len();
            let same = n > 0 && text_eq(inst.history[n - 1].as_str(), url.as_str());
            if !same {
                inst.history.truncate(inst.history_index + 1);
                proof {
                    assert(inst.history.deep_view() =~= h.take(inst.history_index + 1));
                }
                push_text(&mut inst.history, url.clone());
                inst.history_index = inst.history.len() - 1;
            }
            proof {
                assert(inst.history.deep_view() == address_history(*old(inst), url@));
            }
            inst.can_go_back = inst.history_index > 0;
            inst.can_go_forward = inst.history_index + 1 < inst.history.len();
            inst.status_text = String::from_str("Address updated by CEF: ").concat(url.as_str());
            inst.url = url;
        },
        LiveBrowserCallbackKind::LoadingStateChanged { is_loading, can_go_back, can_go_forward } => {
            inst.is_loading = is_loading;
            inst.can_go_back = can_go_back;
            inst.can_go_forward = can_go_forward;
            inst.status_text = String::from_str("CEF loading state changed: loading=").concat(
                bool_word(is_loading),
            ).concat(", back=").concat(bool_word(can_go_back)).concat(", forward=").concat(
                bool_word(can_go_forward),
            );
        },
        LiveBrowserCallbackKind::LoadStarted => {
            inst.is_loading = true;
            inst.status_text = String::from_str("CEF load started");
        },
        LiveBrowserCallbackKind::LoadFinished { http_status_code } => {
            let code = signed_text(http_status_code as i64);
            inst.is_loading = false;
            inst.failure_state = None;
            inst.status_text = String::from_str("CEF load finished with HTTP ").concat(code.as_str());
            inst.surface.render_evidence = Some(
                String::from_str("CEF load finished for ").concat(inst.url.as_str()).concat(
                    " with HTTP ",
                ).concat(code.as_str()),
            );
        },
        LiveBrowserCallbackKind::LoadError { code, text, url } => {
            let message = String::from_str("CEF load error ").concat(code.as_str()).concat(
                " for ",
            ).concat(url.as_str()).concat(": ").concat(text.as_str());
            inst.is_loading = false;
            inst.failure_state = Some(message.clone());
            inst.status_text = message.clone();
            inst.surface.host_surface_failure = Some(message);
        },
        LiveBrowserCallbackKind::Painted { width, height, dirty_rects, buffer } => {
            let w: u32 = dim_of(width);
            let h: u32 = dim_of(height);
            let ws = signed_text(width as i64);
            let hs = signed_text(height as i64);
            inst.surface.width = w;
            inst.surface.height = h;
            inst.surface.frame_token = inst.surface.frame_token + 1;
            inst.surface.damage_events = inst.surface.damage_events + dirty_rects as u64;
            inst.surface.render_evidence = Some(
                String::from_str("CEF painted frame ").concat(ws.as_str()).concat("x").concat(
                    hs.as_str(),
                ).concat(" with ").concat(decimal_text(dirty_rects as u64).as_str()).concat(
                    " dirty rect(s)",
                ),
            );
            inst.surface.last_frame_label = String::from_str("Live CEF frame ").concat(
                decimal_text(inst.surface.frame_token).as_str(),
            ).concat(" (").concat(ws.as_str()).concat("x").concat(hs.as_str()).concat(")");
            inst.surface.frame_buffer = match buffer {
                Some(bgra) => Some(BrowserFrameBuffer { width: w, height: h, bgra }),
                None => None,
            };
        },
    }
}

/// The value of a successful result.
pub open spec fn result_ok<T, E>(r: Result<T, E>) -> Option<T> {
    match r {
        Ok(v) => Some(v),
        Err(_) => None,
    }
}

/// The message of a failed result.
pub open spec fn engine_err<T>(r: Result<T, EngineError>) -> Option<Seq<char>> {
    match r {
        Ok(_) => None,
        Err(e) => Some(e.message@),
    }
}

// ---------------------------------------------------------------------------
// The engine
// ---------------------------------------------------------------------------
pub struct WeboxEngine {
    state: EngineState,
    launch_settings: EngineLaunchSettings,
    diagnostics: Vec<StartupDiagnostics>,
    runtime_readiness: RuntimeReadiness,
    next_browser_instance: usize,
    runtime_backend: RuntimeBackend,
    browser_instances: Vec<BrowserInstanceState>,
    live_browser_ids: Vec<String>,
    pending_events: Vec<BrowserInstanceEvent>,
}

impl WeboxEngine {
    pub closed spec fn spec_state(&self) -> EngineState {
        self.state
    }

    pub closed spec fn settings(&self) -> EngineLaunchSettings {
        self.launch_settings
    }

    pub closed spec fn diags(&self) -> Seq<StartupDiagnostics> {
        self.diagnostics@
    }

    pub closed spec fn readiness(&self) -> RuntimeReadiness {
        self.runtime_readiness
    }

    pub closed spec fn next_id(&self) -> usize {
        self.next_browser_instance
    }

    pub closed spec fn backend(&self) -> RuntimeBackend {
        self.runtime_backend
    }

    pub closed spec fn instances(&self) -> Seq<BrowserInstanceState> {
        self.browser_instances@
    }

    pub closed spec fn live_ids(&self) -> Seq<Seq<char>> {
        self.live_browser_ids.deep_view()
    }

    pub closed spec fn events(&self) -> Seq<BrowserInstanceEvent> {
        self.pending_events@
    }

    /// Instance ids are sorted (so distinct) and every history is valid.
    pub open spec fn wf(&self) -> bool {
        &&& ids_sorted(self.instances())
        &&& forall|i: int|
            0 <= i < self.instances().len() ==> history_ok(#[trigger] self.instances()[i])
        &&& self.live_ids().no_duplicates()
    }

    /// The instance `id` has a live CEF browser host.
    pub open spec fn is_live(&self, id: Seq<char>) -> bool {
        self.live_ids().contains(id)
    }

    /// The instance with id `id`, as the engine holds it.
    pub open spec fn instance(&self, id: Seq<char>) -> BrowserInstanceState {
        self.instances()[instance_index(self.instances(), id)]
    }

    /// Everything but the instances, events and diagnostics is unchanged.
    pub open spec fn keeps_core(&self, old: &Self) -> bool {
        &&& self.spec_state() == old.spec_state()
        &&& self.settings() == old.settings()
        &&& self.readiness() == old.readiness()
        &&& self.next_id() == old.next_id()
        &&& self.backend() == old.backend()
        &&& self.live_ids() == old.live_ids()
    }

    /// A fresh engine for `config`: created, not started, no instances.
    pub fn new(config: &AppConfig) -> (r: Self)
        ensures
            r.wf(),
            r.spec_state() == EngineState::Created,
            settings_from(r.settings(), *config),
            r.diags().len() == 0,
            r.readiness().state == RuntimeReadinessState::NotStarted,
            !r.readiness().live_mvp_ready,
            !r.readiness().simulated,
            r.readiness().summary@ == "Engine has not started"@,
            r.readiness().missing_paths@.len() == 0,
            r.readiness().checked_paths@.len() == 0,
            r.next_id() == 1,
            r.backend() == backend_for(config.startup.runtime_mode),
            r.instances().len() == 0,
            r.live_ids().len() == 0,
            r.events().len() == 0,
    {
        let r = WeboxEngine {
            state: EngineState::Created,
            launch_settings: EngineLaunchSettings {
                framework: BrowserFramework::Cef,
                distribution_root: config.cef.distribution_root.clone(),
                subprocess_path: config.subprocess.browser_subprocess_path.clone(),
                subprocess_args: copy_texts(&config.subprocess.extra_args),
                remote_debugging_port: config.startup.remote_debugging_port,
                resources_dir: config.cef.resources_dir.clone(),
                locales_dir: config.cef.locales_dir.clone(),
                data_dir: config.paths.data_dir.clone(),
                cache_dir: config.paths.cache_dir.clone(),
                log_dir: config.paths.log_dir.clone(),
                runtime_mode: config.startup.runtime_mode,
            },
            diagnostics: Vec::new(),
            runtime_readiness: RuntimeReadiness {
                state: RuntimeReadinessState::NotStarted,
                live_mvp_ready: false,
                simulated: false,
                summary: String::from_str("Engine has not started"),
                missing_paths: Vec::new(),
                checked_paths: Vec::new(),
                readiness_errors: Vec::new(),
            },
            next_browser_instance: 1,
            runtime_backend: match config.startup.runtime_mode {
                BrowserRuntimeMode::RealCef => RuntimeBackend::Cef,
                BrowserRuntimeMode::Simulated => RuntimeBackend::Simulated,
            },
            browser_instances: Vec::new(),
            live_browser_ids: Vec::new(),
            pending_events: Vec::new(),
        };
        proof {
            assert(r.live_browser_ids.deep_view() =~= Seq::<Seq<char>>::empty());
        }
        r
    }

    /// The CEF runtime plan a configuration selects.
    pub fn runtime_plan(config: &AppConfig) -> (r: CefRuntimePlan)
        ensures
            r.selected_backend == backend_for(config.startup.runtime_mode),
            r.primary_target@ == "linux-x86_64"@,
            r.integration_crate@ == "cef (tauri-apps/cef-rs)"@,
            r.ui_host@ == "eframe/egui"@,
            r.distribution_root == config.cef.distribution_root,
            r.browser_subprocess_path == config.subprocess.browser_subprocess_path,
            r.resources_dir == config.cef.resources_dir,
            r.locales_dir == config.cef.locales_dir,
            r.settings_summary@ == "remote_debugging_port="@ + decimal(
                config.startup.remote_debugging_port as nat,
            ) + ", javascript_flags=--max-old-space-size=8192"@,
    {
        CefRuntimePlan {
            selected_backend: match config.startup.runtime_mode {
                BrowserRuntimeMode::RealCef => RuntimeBackend::Cef,
                BrowserRuntimeMode::Simulated => RuntimeBackend::Simulated,
            },
            primary_target: "linux-x86_64",
            integration_crate: "cef (tauri-apps/cef-rs)",
            ui_host: "eframe/egui",
            distribution_root: config.cef.distribution_root.clone(),
            browser_subprocess_path: config.subprocess.browser_subprocess_path.clone(),
            resources_dir: config.cef.resources_dir.clone(),
            locales_dir: config.cef.locales_dir.clone(),
            settings_summary: String::from_str("remote_debugging_port=").concat(
                decimal_text(config.startup.remote_debugging_port as u64).as_str(),
            ).concat(", javascript_flags=--max-old-space-size=8192"),
        }
    }

    fn find(&self, browser_id: &str) -> (r: Option<usize>)
        ensures
            r matches Some(i) ==> i == instance_index(self.instances(), browser_id@) && i
                < self.instances().len(),
            r is None ==> instance_index(self.instances(), browser_id@) == -1,
    {
        proof {
            lemma_instance_index_valid(self.instances(), browser_id@);
        }
        let mut k: usize = 0;
        while k < self.browser_instances.len()
            invariant
                k <= self.browser_instances@.len(),
                forall|j: int| 0 <= j < k ==> self.browser_instances@[j].id@ != browser_id@,
            decreases self.browser_instances.len() - k,
        {
            if text_eq(self.browser_instances[k].id.as_str(), browser_id) {
                proof {
                    lemma_instance_index_first(self.browser_instances@, browser_id@, k as int);
                }
                return Some(k);
            }
            k = k + 1;
        }
        None
    }

    /// The message of a lookup failure.
    fn not_found_error(browser_id: &str) -> (e: EngineError)
        ensures
            e.message@ == not_found(browser_id@),
    {
        EngineError {
            message: String::from_str("Browser instance '").concat(browser_id).concat(
                "' was not found",
            ),
        }
    }

    fn push_event(&mut self, browser_id: &str, kind: BrowserInstanceEventKind, summary: String)
        ensures
            final(self).keeps_core(old(self)),
            final(self).instances() == old(self).instances(),
            final(self).diags() == old(self).diags(),
            appended(old(self).events(), final(self).events(), 1),
            final(self).events() == old(self).events().push(final(self).events().last()),
            event_is(
                final(self).events().last(),
                browser_id@,
                kind,
                summary@,
                old(self).instances(),
            ),
    {
        let snapshot = match self.find(browser_id) {
            Some(i) => Some(copy_instance(&self.browser_instances[i])),
            None => None,
        };
        self.pending_events.push(
            BrowserInstanceEvent { browser_id: String::from_str(browser_id), kind, summary, snapshot },
        );
        proof {
            assert(self.pending_events@.take(old(self).pending_events@.len() as int)
                =~= old(self).pending_events@);
            assert(self.pending_events@ =~= old(self).pending_events@.push(
                self.pending_events@.last(),
            ));
        }
    }

    fn push_diagnostic(&mut self, component: &'static str, detail: String)
        ensures
            final(self).keeps_core(old(self)),
            final(self).instances() == old(self).instances(),
            final(self).events() == old(self).events(),
            appended(old(self).diags(), final(self).diags(), 1),
            diagnostic_is(final(self).diags().last(), component@, detail@),
    {
        self.diagnostics.push(StartupDiagnostics { component, detail });
        proof {
            assert(self.diagnostics@.take(old(self).diagnostics@.len() as int)
                =~= old(self).diagnostics@);
        }
    }

    /// What the live readiness check reports for the probe's findings.
    pub fn check_live_runtime_readiness(&self, probe: &ReadinessProbe) -> (r: RuntimeReadiness)
        ensures
            readiness_from_probe(r, self.settings(), *probe),
    {
        let st = &self.launch_settings;
        let icudtl = path_join(st.resources_dir.as_str(), "icudtl.dat");
        let checked = checked_paths_for(st, &icudtl);
        let errors = dir_errors_for(st, probe);
        let missing = missing_paths_for(st, probe, &icudtl, &errors);
        let ready = missing.len() == 0;
        let summary = if ready {
            String::from_str("Live CEF prerequisites present; subprocess='").concat(
                st.subprocess_path.as_str(),
            ).concat("', resources='").concat(st.resources_dir.as_str()).concat(
                "', locales='",
            ).concat(st.locales_dir.as_str()).concat("', remote_debugging_port=").concat(
                decimal_text(st.remote_debugging_port as u64).as_str(),
            )
        } else {
            String::from_str("Live CEF prerequisites missing: ").concat(
                join_texts(&missing, ", ").as_str(),
            )
        };
        RuntimeReadiness {
            state: if ready {
                RuntimeReadinessState::LiveReady
            } else {
                RuntimeReadinessState::LiveUnavailable
            },
            live_mvp_ready: ready,
            simulated: false,
            summary,
            missing_paths: missing,
            checked_paths: checked,
            readiness_errors: errors,
        }
    }

    /// Starts the engine. In live mode the readiness is taken from `probe`;
    /// when nothing is missing, `cef_initialized` tells whether CEF came up.
    /// In simulated mode neither is consulted.
    pub fn start(&mut self, probe: &ReadinessProbe, cef_initialized: bool) -> (d: StartupDiagnostics)
        ensures
            final(self).spec_state() == EngineState::Started,
            final(self).settings() == old(self).settings(),
            final(self).next_id() == old(self).next_id(),
            final(self).instances() == old(self).instances(),
            final(self).live_ids() == old(self).live_ids(),
            final(self).events() == old(self).events(),
            appended(old(self).diags(), final(self).diags(), 1),
            final(self).diags().last() == d,
            final(self).wf() == old(self).wf(),
            start_outcome(
                old(self).settings(),
                *probe,
                cef_initialized,
                final(self).backend(),
                final(self).readiness(),
                d,
            ),
    {
        let diagnostic = match self.launch_settings.runtime_mode {
            BrowserRuntimeMode::RealCef => {
                let readiness = self.check_live_runtime_readiness(probe);
                if readiness.missing_paths.len() > 0 {
                    let detail = String::from_str(
                        "Live CEF runtime unavailable; missing required paths: ",
                    ).concat(join_texts(&readiness.missing_paths, ", ").as_str());
                    self.runtime_backend = RuntimeBackend::Cef;
                    self.runtime_readiness = readiness;
                    StartupDiagnostics { component: "engine.readiness", detail }
                } else if cef_initialized {
                    self.runtime_backend = RuntimeBackend::Cef;
                    self.runtime_readiness = make_readiness(
                        RuntimeReadinessState::LiveReady,
                        true,
                        false,
                        String::from_str("Real CEF runtime initialized for live MVP mode"),
                        readiness.checked_paths,
                    );
                    StartupDiagnostics {
                        component: "engine.bootstrap",
                        detail: String::from_str("Initialized real CEF runtime with subprocess '").concat(
                            self.launch_settings.subprocess_path.as_str(),
                        ).concat("' and resources '").concat(
                            self.launch_settings.resources_dir.as_str(),
                        ).concat("'"),
                    }
                } else {
                    self.runtime_backend = RuntimeBackend::Cef;
                    self.runtime_readiness = make_readiness(
                        RuntimeReadinessState::InitializationFailed,
                        false,
                        false,
                        String::from_str("CEF initialization failed; live browser mode unavailable"),
                        readiness.checked_paths,
                    );
                    StartupDiagnostics {
                        component: "engine.bootstrap",
                        detail: String::from_str(
                            "CEF initialization failed; live browser mode unavailable",
                        ),
                    }
                }
            },
            BrowserRuntimeMode::Simulated => {
                self.runtime_backend = RuntimeBackend::Simulated;
                self.runtime_readiness = make_readiness(
                    RuntimeReadinessState::Simulated,
                    false,
                    true,
                    String::from_str("Explicit simulated runtime mode; not live-MVP-ready"),
                    Vec::new(),
                );
                proof {
                    assert(self.runtime_readiness.checked_paths.deep_view() =~= Seq::empty());
                }
                StartupDiagnostics {
                    component: "engine.bootstrap",
                    detail: String::from_str(
                        "Initialized explicit simulated runtime bootstrap with subprocess '",
                    ).concat(self.launch_settings.subprocess_path.as_str()).concat(
                        "' on port ",
                    ).concat(decimal_text(self.launch_settings.remote_debugging_port as u64).as_str()).concat(
                        "; not live-MVP-ready",
                    ),
                }
            },
        };
        self.state = EngineState::Started;
        let copy = StartupDiagnostics {
            component: diagnostic.component,
            detail: diagnostic.detail.clone(),
        };
        self.diagnostics.push(copy);
        proof {
            assert(self.diagnostics@.take(old(self).diagnostics@.len() as int)
                =~= old(self).diagnostics@);
        }
        diagnostic
    }

    /// Stops the engine: every open instance is reported closed (with its
    /// last state) and dropped.
    pub fn shutdown(&mut self) -> (d: StartupDiagnostics)
        requires
            old(self).wf(),
        ensures
            old(self).shut_down(final(self), d),
    {
        let ghost old_events = self.pending_events@;
        let mut events: Vec<BrowserInstanceEvent> = Vec::new();
        std::mem::swap(&mut events, &mut self.pending_events);
        let n: usize = self.browser_instances.len();
        let mut k: usize = 0;
        while k < n
            invariant
                n == self.browser_instances@.len(),
                self.browser_instances@ == old(self).browser_instances@,
                k <= n,
                events@.len() == old_events.len() + k,
                events@.take(old_events.len() as int) == old_events,
                forall|j: int|
                    0 <= j < k ==> {
                        let inst = #[trigger] old(self).browser_instances@[j];
                        let e = events@[old_events.len() + j];
                        &&& e.browser_id@ == inst.id@
                        &&& e.kind == BrowserInstanceEventKind::Closed
                        &&& e.summary@ == "Browser instance '"@ + inst.id@
                            + "' closed during engine shutdown"@
                        &&& e.snapshot matches Some(snap) && same_instance(snap, inst)
                    },
            decreases n - k,
        {
            let snapshot = copy_instance(&self.browser_instances[k]);
            let summary = String::from_str("Browser instance '").concat(
                self.browser_instances[k].id.as_str(),
            ).concat("' closed during engine shutdown");
            let id = self.browser_instances[k].id.clone();
            events.push(
                BrowserInstanceEvent {
                    browser_id: id,
                    kind: BrowserInstanceEventKind::Closed,
                    summary,
                    snapshot: Some(snapshot),
                },
            );
            proof {
                assert(events@.take(old_events.len() as int) =~= old_events);
            }
            k = k + 1;
        }
        self.pending_events = events;
        self.browser_instances = Vec::new();
        self.state = EngineState::Stopped;
        let detail = String::from_str("Engine shutdown requested and ").concat(
            self.runtime_backend.debug_name(),
        ).concat(" runtime cleanup completed");
        let diagnostic = StartupDiagnostics { component: "engine.shutdown", detail };
        let copy = StartupDiagnostics {
            component: diagnostic.component,
            detail: diagnostic.detail.clone(),
        };
        self.diagnostics.push(copy);
        proof {
            assert(self.diagnostics@.take(old(self).diagnostics@.len() as int)
                =~= old(self).diagnostics@);
        }
        diagnostic
    }

    pub fn browser_instance(&self, browser_id: &str) -> (r: Option<&BrowserInstanceState>)
        ensures
            has_instance(self.instances(), browser_id@) ==> r == Some(
                &self.instance(browser_id@),
            ),
            !has_instance(self.instances(), browser_id@) ==> r is None,
    {
        match self.find(browser_id) {
            Some(i) => Some(&self.browser_instances[i]),
            None => None,
        }
    }

    pub fn live_browser_instance_count(&self) -> (r: usize)
        ensures
            r == self.live_ids().len(),
    {
        self.live_browser_ids.len()
    }

    /// Whether the instance has a live CEF browser host.
    pub fn is_live_browser_instance(&self, browser_id: &str) -> (r: bool)
        ensures
            r == self.is_live(browser_id@),
    {
        let mut k: usize = 0;
        while k < self.live_browser_ids.len()
            invariant
                k <= self.live_browser_ids@.len(),
                forall|j: int| 0 <= j < k ==> self.live_ids()[j] != browser_id@,
                self.live_ids() == self.live_browser_ids.deep_view(),
            decreases self.live_browser_ids.len() - k,
        {
            if text_eq(self.live_browser_ids[k].as_str(), browser_id) {
                proof {
                    assert(self.live_ids()[k as int] == browser_id@);
                }
                return true;
            }
            k = k + 1;
        }
        false
    }

    pub fn state(&self) -> (r: EngineState)
        ensures
            r == self.spec_state(),
    {
        self.state
    }

    pub fn diagnostics(&self) -> (r: &[StartupDiagnostics])
        ensures
            r@ == self.diags(),
    {
        self.diagnostics.as_slice()
    }

    pub fn launch_settings(&self) -> (r: &EngineLaunchSettings)
        ensures
            *r == self.settings(),
    {
        &self.launch_settings
    }

    pub fn runtime_backend(&self) -> (r: RuntimeBackend)
        ensures
            r == self.backend(),
    {
        self.runtime_backend
    }

    pub fn runtime_readiness(&self) -> (r: &RuntimeReadiness)
        ensures
            *r == self.readiness(),
    {
        &self.runtime_readiness
    }

    pub fn live_mvp_ready(&self) -> (r: bool)
        ensures
            r == self.readiness().live_mvp_ready,
    {
        self.runtime_readiness.live_mvp_ready
    }


    /// `after` changed only the instance `id` (which exists) besides its
    /// events and diagnostics.
    pub open spec fn changes_only(&self, after: &Self, id: Seq<char>) -> bool {
        &&& after.keeps_core(self)
        &&& has_instance(self.instances(), id)
        &&& has_instance(after.instances(), id)
        &&& instance_index(after.instances(), id) == instance_index(self.instances(), id)
        &&& after.instances() == self.instances().update(
            instance_index(self.instances(), id),
            after.instance(id),
        )
    }

    /// The `k`-th event `after` recorded since `self`.
    pub open spec fn event_at(
        &self,
        after: &Self,
        k: int,
        id: Seq<char>,
        kind: BrowserInstanceEventKind,
        summary: Seq<char>,
    ) -> bool {
        event_is(after.events()[self.events().len() + k], id, kind, summary, after.instances())
    }

    /// `after` recorded one diagnostic with this component and detail.
    pub open spec fn diagnosed(&self, after: &Self, component: Seq<char>, detail: Seq<char>) -> bool {
        appended(self.diags(), after.diags(), 1) && diagnostic_is(
            after.diags().last(),
            component,
            detail,
        )
    }

    /// `after` is `self` with the instance `id` navigated to `url`.
    pub open spec fn navigated(&self, after: &Self, id: Seq<char>, url: Seq<char>) -> bool {
        &&& self.changes_only(after, id)
        &&& after_navigate(self.instance(id), after.instance(id), url)
        &&& self.diagnosed(
            after,
            "engine.navigation"@,
            "Queued "@ + backend_name(self.instance(id).backend) + " navigation for '"@ + id
                + "' to '"@ + url + "'"@,
        )
        &&& appended(
            self.events(),
            after.events(),
            if self.is_live(id) {
                1
            } else {
                3
            },
        )
        &&& self.event_at(
            after,
            0,
            id,
            BrowserInstanceEventKind::LoadStarted,
            "Navigation started for '"@ + id + "' to '"@ + url + "'"@,
        )
        &&& !self.is_live(id) ==> self.event_at(
            after,
            1,
            id,
            BrowserInstanceEventKind::HistoryChanged,
            "History updated for '"@ + id + "'"@,
        ) && self.event_at(
            after,
            2,
            id,
            BrowserInstanceEventKind::SurfaceUpdated,
            "Surface updated for '"@ + id + "' after navigation start"@,
        )
    }

    /// `after` is `self` with a request forwarded to the live host of
    /// `id`: the instance, where the engine holds it, is loading with
    /// status `status`, and one `LoadStarted` event says `summary`.
    pub open spec fn live_requested(
        &self,
        after: &Self,
        id: Seq<char>,
        status: Seq<char>,
        clears_failure: bool,
        summary: Seq<char>,
    ) -> bool {
        &&& if has_instance(self.instances(), id) {
            self.changes_only(after, id) && after_live_request(
                self.instance(id),
                after.instance(id),
                status,
                clears_failure,
            )
        } else {
            after.keeps_core(self) && after.instances() == self.instances()
        }
        &&& after.diags() == self.diags()
        &&& appended(self.events(), after.events(), 1)
        &&& self.event_at(after, 0, id, BrowserInstanceEventKind::LoadStarted, summary)
    }

    /// `after` is `self` with the instance `id` moved to history entry
    /// `index`, reported by a `HistoryChanged` and a `SurfaceUpdated` event.
    pub open spec fn stepped(
        &self,
        after: &Self,
        id: Seq<char>,
        index: int,
        status: Seq<char>,
        moved: Seq<char>,
        surface: Seq<char>,
    ) -> bool {
        &&& self.changes_only(after, id)
        &&& after_history_step(self.instance(id), after.instance(id), index, status)
        &&& after.diags() == self.diags()
        &&& appended(self.events(), after.events(), 2)
        &&& self.event_at(after, 0, id, BrowserInstanceEventKind::HistoryChanged, moved)
        &&& self.event_at(after, 1, id, BrowserInstanceEventKind::SurfaceUpdated, surface)
    }

    /// `after` is `self` after a request to create an instance showing
    /// `url`; `ok` is the descriptor handed back, `err` the message of the
    /// failure.
    pub open spec fn created(
        &self,
        after: &Self,
        url: Seq<char>,
        live_host_created: bool,
        ok: Option<BrowserInstanceDescriptor>,
        err: Option<Seq<char>>,
    ) -> bool {
        let n = self.next_id() as nat;
        let id = instance_id_text(n);
        &&& ok is Some <==> err is None
        &&& creation_block(self) matches Some(m) ==> err == Some(m) && *after == *self
        &&& creation_block(self) is None && self.backend() == RuntimeBackend::Cef
            && !live_host_created ==> {
            &&& err == Some("CEF failed to create live browser instance '"@ + id + "'"@)
            &&& after.next_id() == self.next_id() + 1
            &&& after.instances() == self.instances()
            &&& after.events() == self.events()
            &&& after.diags() == self.diags()
            &&& after.live_ids() == self.live_ids()
            &&& after.spec_state() == self.spec_state()
            &&& after.readiness() == self.readiness()
            &&& after.backend() == self.backend()
            &&& after.settings() == self.settings()
        }
        &&& creation_block(self) is None && (self.backend() == RuntimeBackend::Simulated
            || live_host_created) ==> {
            &&& ok matches Some(d) && d.id@ == id && d.initial_url@ == url && d.title@
                == "Loading..."@ && d.is_loading && d.backend == self.backend() && same_surface(
                d.surface,
                after.instance(id).surface,
            )
            &&& after.next_id() == self.next_id() + 1
            &&& stored(self.instances(), after.instances(), after.instance(id))
            &&& fresh_instance(after.instance(id), id, surface_id_text(n), url, self.backend())
            &&& after.live_ids() == (if self.backend() == RuntimeBackend::Cef && !self.is_live(
                id,
            ) {
                self.live_ids().push(id)
            } else {
                self.live_ids()
            })
            &&& after.spec_state() == self.spec_state()
            &&& after.readiness() == self.readiness()
            &&& after.backend() == self.backend()
            &&& after.settings() == self.settings()
            &&& self.diagnosed(
                after,
                "engine.browser-instance"@,
                "Prepared "@ + backend_name(self.backend()) + " browser initialization flow for '"@
                    + url + "' as "@ + id,
            )
            &&& appended(self.events(), after.events(), 1)
            &&& self.event_at(
                after,
                0,
                id,
                BrowserInstanceEventKind::Created,
                "Created browser instance '"@ + id + "'"@,
            )
        }
    }

    /// `after` is `self` after the simulated load of `id` finished with `title`.
    pub open spec fn finished(&self, after: &Self, id: Seq<char>, title: Seq<char>) -> bool {
        &&& self.changes_only(after, id)
        &&& after_finish(self.instance(id), after.instance(id), title)
        &&& self.diagnosed(
            after,
            "engine.navigation"@,
            "Browser instance '"@ + id + "' finished navigation with title '"@ + title
                + "'"@,
        )
        &&& appended(self.events(), after.events(), 3)
        &&& self.event_at(
            after,
            0,
            id,
            BrowserInstanceEventKind::TitleChanged,
            "Title updated for '"@ + id + "' to '"@ + title + "'"@,
        )
        &&& self.event_at(
            after,
            1,
            id,
            BrowserInstanceEventKind::LoadFinished,
            "Navigation finished for '"@ + id + "'"@,
        )
        &&& self.event_at(
            after,
            2,
            id,
            BrowserInstanceEventKind::SurfaceUpdated,
            "Surface updated for '"@ + id + "' after load finished"@,
        )
    }

    /// `after` is `self` after a simulated navigation failure of `id` with `message` was recorded.
    pub open spec fn nav_failed(&self, after: &Self, id: Seq<char>, message: Seq<char>) -> bool {
        &&& self.changes_only(after, id)
        &&& after_failure(
            self.instance(id),
            after.instance(id),
            message,
            "Navigation failed: "@,
            "Navigation failed: "@,
        )
        &&& after.diags() == self.diags()
        &&& appended(self.events(), after.events(), 2)
        &&& self.event_at(
            after,
            0,
            id,
            BrowserInstanceEventKind::NavigationFailed,
            "Navigation failed for '"@ + id + "': "@ + message,
        )
        &&& self.event_at(
            after,
            1,
            id,
            BrowserInstanceEventKind::SurfaceUpdated,
            "Surface updated for '"@ + id + "' after navigation failure"@,
        )
    }

    /// `after` is `self` after a crash of `id` with `message` was recorded.
    pub open spec fn crashed(&self, after: &Self, id: Seq<char>, message: Seq<char>) -> bool {
        &&& self.changes_only(after, id)
        &&& after_failure(
            self.instance(id),
            after.instance(id),
            message,
            "Browser instance crashed: "@,
            "Crash: "@,
        )
        &&& after.diags() == self.diags()
        &&& appended(self.events(), after.events(), 2)
        &&& self.event_at(
            after,
            0,
            id,
            BrowserInstanceEventKind::Crashed,
            "Browser instance '"@ + id + "' crashed: "@ + message,
        )
        &&& self.event_at(
            after,
            1,
            id,
            BrowserInstanceEventKind::SurfaceUpdated,
            "Surface updated for '"@ + id + "' after crash"@,
        )
    }

    /// `after` is `self` after the surface of `id` was resized to `width` x `height`.
    pub open spec fn resized(&self, after: &Self, id: Seq<char>, width: u32, height: u32) -> bool {
        &&& self.changes_only(after, id)
        &&& after_resize(self.instance(id), after.instance(id), width, height)
        &&& after.diags() == self.diags()
        &&& appended(self.events(), after.events(), 1)
        &&& self.event_at(
            after,
            0,
            id,
            BrowserInstanceEventKind::SurfaceUpdated,
            "Surface resized for '"@ + id + "' to "@ + decimal(width as nat) + "x"@
                + decimal(height as nat),
        )
    }

    /// `after` is `self` after the surface of `id` was focused or blurred.
    pub open spec fn focus_set(&self, after: &Self, id: Seq<char>, focused: bool) -> bool {
        &&& self.changes_only(after, id)
        &&& after_focus(self.instance(id), after.instance(id), focused)
        &&& after.diags() == self.diags()
        &&& appended(self.events(), after.events(), 1)
        &&& self.event_at(
            after,
            0,
            id,
            BrowserInstanceEventKind::FocusChanged,
            "Surface focus for '"@ + id + "' changed to "@ + bool_text(focused),
        )
    }

    /// `after` is `self` after the memory figures of `id` were recorded.
    pub open spec fn memory_updated(&self, after: &Self, id: Seq<char>, bytes: u64, indicator: Option<String>, failure: Option<String>, attribution: Option<String>) -> bool {
        &&& self.changes_only(after, id)
        &&& after_memory(
            self.instance(id),
            after.instance(id),
            bytes,
            indicator,
            failure,
            attribution,
        )
        &&& self.diagnosed(
            after,
            "engine.memory"@,
            "Updated memory state for '"@ + id + "' to "@ + decimal(
                bytes as nat,
            ) + " bytes ("@ + indicator_label(indicator) + ")"@,
        )
        &&& appended(self.events(), after.events(), 1)
        &&& self.event_at(
            after,
            0,
            id,
            BrowserInstanceEventKind::MemoryUpdated,
            "Memory updated for '"@ + id + "'"@,
        )
    }

    /// `after` is `self` after the instance `id` was disposed of.
    pub open spec fn closed(&self, after: &Self, id: Seq<char>) -> bool {
        &&& after.instances() == self.instances().remove(
            instance_index(self.instances(), id),
        )
        &&& !has_instance(after.instances(), id)
        &&& !after.is_live(id)
        &&& forall|x: Seq<char>| x != id ==> (after.is_live(x) == self.is_live(x))
        &&& after.spec_state() == self.spec_state()
        &&& after.settings() == self.settings()
        &&& after.readiness() == self.readiness()
        &&& after.next_id() == self.next_id()
        &&& after.backend() == self.backend()
        &&& self.diagnosed(
            after,
            "engine.browser-instance"@,
            "Disposed "@ + backend_name(self.instance(id).backend)
                + " browser instance '"@ + id + "'"@,
        )
        &&& appended(self.events(), after.events(), 1)
        &&& after.events().last().browser_id@ == id
        &&& after.events().last().kind == BrowserInstanceEventKind::Closed
        &&& after.events().last().summary@ == "Disposed browser instance '"@ + id
            + "'"@
        &&& after.events().last().snapshot is None
    }

    /// `after` is `self` after the input `event` was routed to `id`; `err`
    /// is the message of the failure.
    pub open spec fn dispatched(&self, after: &Self, id: Seq<char>, event: HostSurfaceInputEvent, err: Option<Seq<char>>) -> bool {
        &&& err matches Some(m) ==> m == not_found(id) && *after == *self
        &&& match event {
        HostSurfaceInputEvent::Resize { width, height } => {
            let id = id;
            &&& err is Some <==> !has_instance(self.instances(), id)
            &&& err is None ==> {
                &&& self.changes_only(after, id)
                &&& after_resize(self.instance(id), after.instance(id), width, height)
                &&& after.diags() == self.diags()
                &&& appended(self.events(), after.events(), 2)
                &&& self.event_at(
                    after,
                    0,
                    id,
                    BrowserInstanceEventKind::SurfaceUpdated,
                    "Surface resized for '"@ + id + "' to "@ + decimal(width as nat) + "x"@
                        + decimal(height as nat),
                )
                &&& self.event_at(
                    after,
                    1,
                    id,
                    BrowserInstanceEventKind::SurfaceUpdated,
                    "Surface resize input routed for '"@ + id + "'"@,
                )
            }
        },
        HostSurfaceInputEvent::Focus { focused } => {
            let id = id;
            &&& err is Some <==> !has_instance(self.instances(), id)
            &&& err is None ==> {
                &&& self.changes_only(after, id)
                &&& after_focus(self.instance(id), after.instance(id), focused)
                &&& after.diags() == self.diags()
                &&& appended(self.events(), after.events(), 2)
                &&& self.event_at(
                    after,
                    0,
                    id,
                    BrowserInstanceEventKind::FocusChanged,
                    "Surface focus for '"@ + id + "' changed to "@ + bool_text(focused),
                )
                &&& self.event_at(
                    after,
                    1,
                    id,
                    BrowserInstanceEventKind::SurfaceUpdated,
                    "Surface focus input routed for '"@ + id + "'"@,
                )
            }
        },
        _ => {
            let id = id;
            &&& err is None
            &&& if has_instance(self.instances(), id) {
                &&& self.changes_only(after, id)
                &&& after.instance(id) == BrowserInstanceState {
                    status_text: after.instance(id).status_text,
                    ..self.instance(id)
                }
                &&& after.instance(id).status_text@
                    == "Forwarded host surface input: "@ + input_debug(event)
            } else {
                after.keeps_core(self) && after.instances() == self.instances()
            }
            &&& after.diags() == self.diags()
            &&& appended(self.events(), after.events(), 1)
            &&& self.event_at(
                after,
                0,
                id,
                BrowserInstanceEventKind::SurfaceUpdated,
                input_label(event) + " routed for '"@ + id + "'"@,
            )
        },
    }
    }

    /// `after` is `self` stopped: every instance reported closed, with its
    /// last state, and dropped; `d` is the shutdown diagnostic.
    pub open spec fn shut_down(&self, after: &Self, d: StartupDiagnostics) -> bool {
        &&& after.spec_state() == EngineState::Stopped
        &&& after.settings() == self.settings()
        &&& after.readiness() == self.readiness()
        &&& after.next_id() == self.next_id()
        &&& after.backend() == self.backend()
        &&& after.live_ids() == self.live_ids()
        &&& after.instances().len() == 0
        &&& after.wf()
        &&& appended(self.events(), after.events(), self.instances().len() as int)
        &&& forall|k: int|
            0 <= k < self.instances().len() ==> {
                let inst = #[trigger] self.instances()[k];
                let e = after.events()[self.events().len() + k];
                &&& e.browser_id@ == inst.id@
                &&& e.kind == BrowserInstanceEventKind::Closed
                &&& e.summary@ == "Browser instance '"@ + inst.id@
                    + "' closed during engine shutdown"@
                &&& e.snapshot matches Some(snap) && same_instance(snap, inst)
            }
        &&& appended(self.diags(), after.diags(), 1)
        &&& after.diags().last() == d
        &&& diagnostic_is(
            d,
            "engine.shutdown"@,
            "Engine shutdown requested and "@ + backend_name(self.backend())
                + " runtime cleanup completed"@,
        )
    }

    /// `after` is `self` with the live callback `c` applied.
    pub open spec fn callback_done(&self, after: &Self, c: LiveBrowserCallbackEvent) -> bool {
        let id = c.browser_id@;
        &&& if has_instance(self.instances(), id) {
            self.changes_only(after, id) && callback_applied(
                self.instance(id),
                after.instance(id),
                c.kind,
            )
        } else {
            after.keeps_core(self) && after.instances() == self.instances()
        }
        &&& after.diags() == self.diags()
        &&& appended(self.events(), after.events(), 1)
        &&& self.event_at(after, 0, id, callback_event_kind(c.kind), callback_summary(id, c.kind))
    }

    /// `after` is `self` with the callback `c` applied when its counters
    /// fit, and unchanged otherwise.
    pub open spec fn callback_step(&self, after: &Self, c: LiveBrowserCallbackEvent) -> bool {
        if callback_fits(self.instances(), c) {
            self.callback_done(after, c)
        } else {
            *after == *self
        }
    }

    /// `after` is `self` with the callbacks `cs` applied in order.
    pub open spec fn callbacks_applied(&self, after: &Self, cs: Seq<LiveBrowserCallbackEvent>) -> bool
        decreases cs.len(),
    {
        if cs.len() == 0 {
            *after == *self
        } else {
            exists|mid: WeboxEngine|
                self.callbacks_applied(&mid, cs.drop_last()) && #[trigger] mid.callback_step(
                    after,
                    cs.last(),
                )
        }
    }

    /// `self` is `before` with its events handed out.
    pub open spec fn drained_from(&self, before: &Self) -> bool {
        &&& self.keeps_core(before)
        &&& self.instances() == before.instances()
        &&& self.diags() == before.diags()
        &&& self.events().len() == 0
    }

    /// `after` is `self` after a back navigation of `id`, which the engine has or forwards.
    pub open spec fn went_back(&self, after: &Self, id: Seq<char>) -> bool {
        &&& self.is_live(id) ==> self.live_requested(
            after,
            id,
            "CEF back navigation requested"@,
            false,
            "Back navigation requested for live browser instance '"@ + id + "'"@,
        )
        &&& !self.is_live(id) && has_instance(self.instances(), id) ==> {
            let index = self.instance(id).history_index;
            &&& index > 0 ==> self.stepped(
                after,
                id,
                index - 1,
                "Went back to "@,
                "Browser instance '"@ + id + "' moved back in history"@,
                "Surface updated for '"@ + id + "' after back navigation"@,
            )
            &&& index == 0 ==> *after == *self
        }
    }

    /// `after` is `self` after a forward navigation of `id`, which the engine has or forwards.
    pub open spec fn went_forward(&self, after: &Self, id: Seq<char>) -> bool {
        &&& self.is_live(id) ==> self.live_requested(
            after,
            id,
            "CEF forward navigation requested"@,
            false,
            "Forward navigation requested for live browser instance '"@ + id + "'"@,
        )
        &&& !self.is_live(id) && has_instance(self.instances(), id) ==> {
            let inst = self.instance(id);
            &&& inst.history_index + 1 < inst.history@.len() ==> self.stepped(
                after,
                id,
                inst.history_index + 1,
                "Went forward to "@,
                "Browser instance '"@ + id + "' moved forward in history"@,
                "Surface updated for '"@ + id + "' after forward navigation"@,
            )
            &&& inst.history_index + 1 >= inst.history@.len() ==> *after == *self
        }
    }

    /// `after` is `self` after a reload of `id`, which the engine has or forwards.
    pub open spec fn reloaded(&self, after: &Self, id: Seq<char>) -> bool {
        &&& self.is_live(id) ==> self.live_requested(
            after,
            id,
            "CEF reload requested"@,
            true,
            "Reload requested for live browser instance '"@ + id + "'"@,
        )
        &&& !self.is_live(id) && has_instance(self.instances(), id) ==> self.navigated(
            after,
            id,
            self.instance(id).url@,
        )
    }

    fn take_instance(&mut self, i: usize) -> (r: BrowserInstanceState)
        requires
            i < old(self).instances().len(),
        ensures
            r == old(self).instances()[i as int],
            final(self).instances() == old(self).instances().remove(i as int),
            final(self).keeps_core(old(self)),
            final(self).events() == old(self).events(),
            final(self).diags() == old(self).diags(),
    {
        self.browser_instances.remove(i)
    }

    fn put_instance(&mut self, i: usize, v: BrowserInstanceState)
        requires
            i <= old(self).instances().len(),
        ensures
            final(self).instances() == old(self).instances().insert(i as int, v),
            final(self).keeps_core(old(self)),
            final(self).events() == old(self).events(),
            final(self).diags() == old(self).diags(),
    {
        self.browser_instances.insert(i, v);
    }

    /// Puts back at `i` the instance taken from there, now `v`.
    fn restore_instance(&mut self, i: usize, v: BrowserInstanceState, Ghost(before): Ghost<Self>)
        requires
            i < before.instances().len(),
            old(self).instances() == before.instances().remove(i as int),
            old(self).keeps_core(&before),
            v.id == before.instances()[i as int].id,
            history_ok(v),
            before.wf(),
        ensures
            final(self).instances() == before.instances().update(i as int, v),
            final(self).keeps_core(&before),
            final(self).events() == old(self).events(),
            final(self).diags() == old(self).diags(),
            final(self).wf(),
            before.changes_only(final(self), v.id@),
            final(self).instance(v.id@) == v,
    {
        self.put_instance(i, v);
        proof {
            assert(self.instances() =~= before.instances().update(i as int, v));
            lemma_update_same_id(before.instances(), i as int, v);
            lemma_sorted_index_unique(before.instances(), v.id@, i as int);
            assert forall|j: int|
                0 <= j < self.instances().len() implies history_ok(
                #[trigger] self.instances()[j],
            ) by {
                if j != i {
                    assert(self.instances()[j] == before.instances()[j]);
                }
            }
        }
    }

    fn add_live_id(&mut self, browser_id: &str)
        requires
            old(self).live_ids().no_duplicates(),
        ensures
            final(self).live_ids() == (if old(self).is_live(browser_id@) {
                old(self).live_ids()
            } else {
                old(self).live_ids().push(browser_id@)
            }),
            final(self).live_ids().no_duplicates(),
            final(self).instances() == old(self).instances(),
            final(self).events() == old(self).events(),
            final(self).diags() == old(self).diags(),
            final(self).spec_state() == old(self).spec_state(),
            final(self).settings() == old(self).settings(),
            final(self).readiness() == old(self).readiness(),
            final(self).next_id() == old(self).next_id(),
            final(self).backend() == old(self).backend(),
    {
        if !self.is_live_browser_instance(browser_id) {
            self.live_browser_ids.push(String::from_str(browser_id));
            proof {
                assert(self.live_ids() =~= old(self).live_ids().push(browser_id@));
                let l = self.live_ids();
                assert forall|a: int, b: int|
                    0 <= a < l.len() && 0 <= b < l.len() && a != b implies l[a] != l[b] by {
                    if a == l.len() - 1 {
                        assert(!old(self).live_ids().contains(l[a]));
                        assert(old(self).live_ids()[b] == l[b]);
                    } else if b == l.len() - 1 {
                        assert(!old(self).live_ids().contains(l[b]));
                        assert(old(self).live_ids()[a] == l[a]);
                    }
                }
            }
        }
    }

    fn remove_live_id(&mut self, browser_id: &str)
        requires
            old(self).live_ids().no_duplicates(),
        ensures
            !final(self).is_live(browser_id@),
            final(self).live_ids().no_duplicates(),
            forall|x: Seq<char>| x != browser_id@ ==> (final(self).is_live(x) == old(self).is_live(x)),
            !old(self).is_live(browser_id@) ==> final(self).live_ids() == old(self).live_ids(),
            final(self).instances() == old(self).instances(),
            final(self).events() == old(self).events(),
            final(self).diags() == old(self).diags(),
            final(self).spec_state() == old(self).spec_state(),
            final(self).settings() == old(self).settings(),
            final(self).readiness() == old(self).readiness(),
            final(self).next_id() == old(self).next_id(),
            final(self).backend() == old(self).backend(),
    {
        let mut k: usize = 0;
        while k < self.live_browser_ids.len()
            invariant
                *self == *old(self),
                old(self).live_ids().no_duplicates(),
                k <= self.live_browser_ids@.len(),
                forall|j: int| 0 <= j < k ==> self.live_ids()[j] != browser_id@,
                self.live_ids() == self.live_browser_ids.deep_view(),
            decreases self.live_browser_ids.len() - k,
        {
            if text_eq(self.live_browser_ids[k].as_str(), browser_id) {
                let ghost l = self.live_ids();
                self.live_browser_ids.remove(k);
                proof {
                    assert(self.live_ids() =~= l.remove(k as int));
                    let m = self.live_ids();
                    assert forall|a: int, b: int|
                        0 <= a < m.len() && 0 <= b < m.len() && a != b implies m[a] != m[b] by {
                        let oa = if a < k { a } else { a + 1 };
                        let ob = if b < k { b } else { b + 1 };
                        assert(m[a] == l[oa]);
                        assert(m[b] == l[ob]);
                    }
                    assert forall|x: Seq<char>| x != browser_id@ implies (self.is_live(x) == old(
                        self,
                    ).is_live(x)) by {
                        if l.contains(x) {
                            let j = choose|j: int| 0 <= j < l.len() && l[j] == x;
                            assert(j != k);
                            let nj = if j < k { j } else { j - 1 };
                            assert(m[nj] == x);
                        }
                        if m.contains(x) {
                            let j = choose|j: int| 0 <= j < m.len() && m[j] == x;
                            let oj = if j < k { j } else { j + 1 };
                            assert(l[oj] == x);
                        }
                    }
                    if m.contains(browser_id@) {
                        let j = choose|j: int| 0 <= j < m.len() && m[j] == browser_id@;
                        let oj = if j < k { j } else { j + 1 };
                        assert(l[oj] == browser_id@);
                        assert(l[k as int] == browser_id@);
                    }
                    assert(l[k as int] == browser_id@);
                    assert(old(self).is_live(browser_id@));
                }
                return;
            }
            k = k + 1;
        }
    }

    /// Why a new instance cannot be created now, if it cannot.
    pub fn creation_error(&self) -> (r: Option<EngineError>)
        ensures
            creation_block(self) is None ==> r is None,
            creation_block(self) matches Some(m) ==> (r matches Some(e) && e.message@ == m),
    {
        if self.state != EngineState::Started {
            return Some(
                EngineError {
                    message: String::from_str(
                        "Engine must be started before creating browser instances",
                    ),
                },
            );
        }
        match self.launch_settings.runtime_mode {
            BrowserRuntimeMode::RealCef => {
                if !self.runtime_readiness.live_mvp_ready {
                    return Some(
                        EngineError {
                            message: String::from_str(
                                "Live CEF browser instance cannot be created: ",
                            ).concat(self.runtime_readiness.summary.as_str()),
                        },
                    );
                }
            },
            BrowserRuntimeMode::Simulated => {},
        }
        None
    }

    /// The id the next created instance gets.
    pub fn next_browser_instance_id(&self) -> (r: String)
        ensures
            r@ == instance_id_text(self.next_id() as nat),
    {
        String::from_str("browser-instance-").concat(
            decimal_text(self.next_browser_instance as u64).as_str(),
        )
    }

    fn store_instance(&mut self, v: BrowserInstanceState)
        requires
            old(self).wf(),
            history_ok(v),
        ensures
            final(self).wf(),
            final(self).keeps_core(old(self)),
            final(self).events() == old(self).events(),
            final(self).diags() == old(self).diags(),
            stored(old(self).instances(), final(self).instances(), v),
    {
        let ghost s = self.instances();
        let mut k: usize = 0;
        while k < self.browser_instances.len() && text_less(
            self.browser_instances[k].id.as_str(),
            v.id.as_str(),
        )
            invariant
                k <= s.len(),
                self.instances() == s,
                forall|j: int| 0 <= j < k ==> text_lt(#[trigger] s[j].id@, v.id@),
            decreases s.len() - k,
        {
            k = k + 1;
        }
        proof {
            lemma_instance_index_valid(s, v.id@);
        }
        if k < self.browser_instances.len() && text_eq(self.browser_instances[k].id.as_str(), v.id.as_str()) {
            proof {
                lemma_sorted_index_unique(s, v.id@, k as int);
            }
            let ghost before = *self;
            self.browser_instances.set(k, v);
            proof {
                assert(self.instances() == s.update(k as int, v));
                lemma_update_same_id_text(s, k as int, v);
                lemma_sorted_index_unique(self.instances(), v.id@, k as int);
                assert forall|j: int|
                    0 <= j < self.instances().len() implies history_ok(
                    #[trigger] self.instances()[j],
                ) by {
                    if j != k {
                        assert(self.instances()[j] == s[j]);
                    }
                }
            }
        } else {
            proof {
                if k < s.len() {
                    assert(s[k as int].id@ != v.id@);
                    lemma_text_lt_total(s[k as int].id@, v.id@);
                }
                if has_instance(s, v.id@) {
                    let m = instance_index(s, v.id@);
                    if m < k {
                        assert(text_lt(s[m].id@, v.id@));
                        lemma_text_lt_irreflexive(v.id@);
                    } else if m > k {
                        assert(text_lt(s[k as int].id@, s[m].id@));
                        assert(text_lt(v.id@, s[k as int].id@));
                        lemma_text_lt_transitive(v.id@, s[k as int].id@, s[m].id@);
                        lemma_text_lt_irreflexive(v.id@);
                    }
                }
            }
            self.browser_instances.insert(k, v);
            proof {
                let t = self.instances();
                assert(t == s.insert(k as int, v));
                assert forall|a: int, b: int| 0 <= a < b < t.len() implies text_lt(
                    #[trigger] t[a].id@,
                    #[trigger] t[b].id@,
                ) by {
                    if a < k && b < k {
                        assert(t[a] == s[a] && t[b] == s[b]);
                    } else if a < k && b == k {
                        assert(t[a] == s[a]);
                    } else if a < k && b > k {
                        assert(t[a] == s[a] && t[b] == s[b - 1]);
                        assert(text_lt(s[a].id@, v.id@));
                        assert(text_lt(v.id@, s[k as int].id@));
                        if b - 1 > k {
                            assert(text_lt(s[k as int].id@, s[b - 1].id@));
                            lemma_text_lt_transitive(v.id@, s[k as int].id@, s[b - 1].id@);
                        }
                        lemma_text_lt_transitive(s[a].id@, v.id@, s[b - 1].id@);
                    } else if a == k {
                        assert(t[b] == s[b - 1]);
                        assert(text_lt(v.id@, s[k as int].id@));
                        if b - 1 > k {
                            assert(text_lt(s[k as int].id@, s[b - 1].id@));
                            lemma_text_lt_transitive(v.id@, s[k as int].id@, s[b - 1].id@);
                        }
                    } else {
                        assert(t[a] == s[a - 1] && t[b] == s[b - 1]);
                    }
                }
                lemma_sorted_index_unique(t, v.id@, k as int);
                assert forall|j: int| 0 <= j < t.len() implies history_ok(#[trigger] t[j]) by {
                    if j < k {
                        assert(t[j] == s[j]);
                    } else if j > k {
                        assert(t[j] == s[j - 1]);
                    }
                }
            }
        }
    }

    /// Creates a browser instance showing `initial_url`. With the CEF
    /// backend, `live_host_created` reports whether the caller created the
    /// live CEF host for the id `next_browser_instance_id` gave.
    pub fn create_browser_instance(&mut self, initial_url: &str, live_host_created: bool) -> (r:
        Result<BrowserInstanceDescriptor, EngineError>)
        requires
            old(self).wf(),
            creation_block(old(self)) is None ==> old(self).next_id() < usize::MAX,
        ensures
            final(self).wf(),
            old(self).created(final(self), initial_url@, live_host_created, result_ok(r), engine_err(r)),
    {
        match self.creation_error() {
            Some(e) => {
                return Err(e);
            },
            None => {},
        }
        let n: usize = self.next_browser_instance;
        let browser_id = String::from_str("browser-instance-").concat(
            decimal_text(n as u64).as_str(),
        );
        let surface_id = String::from_str("browser-surface-").concat(
            decimal_text(n as u64).as_str(),
        );
        self.next_browser_instance = n + 1;
        let live = match self.runtime_backend {
            RuntimeBackend::Cef => true,
            RuntimeBackend::Simulated => false,
        };
        if live && !live_host_created {
            return Err(
                EngineError {
                    message: String::from_str("CEF failed to create live browser instance '").concat(
                        browser_id.as_str(),
                    ).concat("'"),
                },
            );
        }
        let surface = BrowserSurfaceState {
            surface_id,
            render_mode: if live {
                BrowserSurfaceRenderMode::CefOffscreen
            } else {
                BrowserSurfaceRenderMode::Placeholder
            },
            width: 1280,
            height: 720,
            focused: false,
            frame_token: 1,
            last_frame_label: String::from_str("Preparing ").concat(initial_url),
            render_evidence: if live {
                Some(
                    String::from_str("CEF browser host created for ").concat(initial_url).concat(
                        "; awaiting first paint",
                    ),
                )
            } else {
                None
            },
            frame_buffer: None,
            damage_events: 0,
            host_surface_failure: None,
        };
        let descriptor = BrowserInstanceDescriptor {
            id: browser_id.clone(),
            initial_url: String::from_str(initial_url),
            title: String::from_str("Loading..."),
            is_loading: true,
            backend: self.runtime_backend,
            surface: copy_surface(&surface),
        };
        let mut history: Vec<String> = Vec::new();
        push_text(&mut history, String::from_str(initial_url));
        proof {
            assert(history.deep_view() =~= seq![initial_url@]);
        }
        let state = BrowserInstanceState {
            id: browser_id.clone(),
            url: String::from_str(initial_url),
            title: String::from_str("Loading..."),
            is_loading: true,
            backend: self.runtime_backend,
            memory_usage_bytes: 0,
            memory_indicator: None,
            failure_state: None,
            memory_attribution: None,
            surface,
            history,
            history_index: 0,
            status_text: String::from_str("Created live browser instance for ").concat(initial_url),
            can_go_back: false,
            can_go_forward: false,
        };
        let ghost stored_state = state;
        self.store_instance(state);
        if live {
            self.add_live_id(browser_id.as_str());
        }
        let detail = String::from_str("Prepared ").concat(self.runtime_backend.debug_name()).concat(
            " browser initialization flow for '",
        ).concat(initial_url).concat("' as ").concat(browser_id.as_str());
        self.push_diagnostic("engine.browser-instance", detail);
        let summary = String::from_str("Created browser instance '").concat(browser_id.as_str()).concat(
            "'",
        );
        self.push_event(browser_id.as_str(), BrowserInstanceEventKind::Created, summary);
        proof {
            assert(self.instance(browser_id@) == stored_state);
        }
        Ok(descriptor)
    }


    /// Navigates the instance to `url`: the forward history is dropped.
    pub fn navigate_browser_instance(&mut self, browser_id: &str, url: &str) -> (r: Result<
        (),
        EngineError,
    >)
        requires
            old(self).wf(),
            frame_fits(old(self).instances(), browser_id@),
        ensures
            final(self).wf(),
            r is Err <==> !has_instance(old(self).instances(), browser_id@),
            r matches Err(e) ==> e.message@ == not_found(browser_id@) && *final(self) == *old(self),
            r is Ok ==> old(self).navigated(final(self), browser_id@, url@),
    {
        let is_live = self.is_live_browser_instance(browser_id);
        let i: usize = match self.find(browser_id) {
            Some(i) => i,
            None => {
                return Err(Self::not_found_error(browser_id));
            },
        };
        let ghost before = *self;
        proof {
            lemma_instance_index_valid(before.instances(), browser_id@);
            assert(history_ok(before.instances()[i as int]));
        }
        let mut inst = self.take_instance(i);
        proof {
            assert(inst.history_index < inst.history.len());
        }
        let ghost old_hist = inst.history.deep_view();
        inst.url = String::from_str(url);
        inst.title = String::from_str("Loading...");
        inst.is_loading = true;
        inst.failure_state = None;
        inst.history.truncate(inst.history_index + 1);
        proof {
            assert(inst.history.deep_view() =~= old_hist.take(inst.history_index + 1));
        }
        push_text(&mut inst.history, String::from_str(url));
        inst.history_index = inst.history.len() - 1;
        inst.can_go_back = inst.history_index > 0;
        inst.can_go_forward = false;
        inst.status_text = String::from_str("Navigating to ").concat(url);
        inst.surface.frame_token = inst.surface.frame_token + 1;
        inst.surface.last_frame_label = String::from_str("Loading ").concat(url);
        inst.surface.render_evidence = match inst.backend {
            RuntimeBackend::Cef => Some(
                String::from_str("CEF navigation requested for ").concat(url).concat(
                    "; awaiting renderer callback",
                ),
            ),
            RuntimeBackend::Simulated => None,
        };
        let backend = inst.backend;
        self.restore_instance(i, inst, Ghost(before));
        let detail = String::from_str("Queued ").concat(backend.debug_name()).concat(
            " navigation for '",
        ).concat(browser_id).concat("' to '").concat(url).concat("'");
        self.push_diagnostic("engine.navigation", detail);
        self.push_event(
            browser_id,
            BrowserInstanceEventKind::LoadStarted,
            String::from_str("Navigation started for '").concat(browser_id).concat("' to '").concat(
                url,
            ).concat("'"),
        );
        if !is_live {
            self.push_event(
                browser_id,
                BrowserInstanceEventKind::HistoryChanged,
                String::from_str("History updated for '").concat(browser_id).concat("'"),
            );
            self.push_event(
                browser_id,
                BrowserInstanceEventKind::SurfaceUpdated,
                String::from_str("Surface updated for '").concat(browser_id).concat(
                    "' after navigation start",
                ),
            );
        }
        proof {
            let n = before.events().len() as int;
            assert(self.events().take(n) =~= before.events());
            if !is_live {
                assert(self.events()[n] == self.events().take(n + 2)[n]);
                assert(self.events()[n + 1] == self.events().take(n + 2)[n + 1]);
            }
        }
        Ok(())
    }

    /// A simulated load of the instance finished with `title`; live
    /// instances learn this from CEF.
    pub fn finish_navigation(&mut self, browser_id: &str, title: &str) -> (r: Result<(), EngineError>)
        requires
            old(self).wf(),
            counters_fit(old(self).instances(), browser_id@),
        ensures
            final(self).wf(),
            r is Err <==> (old(self).is_live(browser_id@) || !has_instance(
                old(self).instances(),
                browser_id@,
            )),
            old(self).is_live(browser_id@) ==> (r matches Err(e) && e.message@
                == "Live browser instance '"@ + browser_id@
                + "' must finish navigation from CEF callbacks"@),
            !old(self).is_live(browser_id@) && !has_instance(old(self).instances(), browser_id@)
                ==> (r matches Err(e) && e.message@ == not_found(browser_id@)),
            r is Err ==> *final(self) == *old(self),
            r is Ok ==> old(self).finished(final(self), browser_id@, title@),
    {
        if self.is_live_browser_instance(browser_id) {
            return Err(
                EngineError {
                    message: String::from_str("Live browser instance '").concat(browser_id).concat(
                        "' must finish navigation from CEF callbacks",
                    ),
                },
            );
        }
        let i: usize = match self.find(browser_id) {
            Some(i) => i,
            None => {
                return Err(Self::not_found_error(browser_id));
            },
        };
        let ghost before = *self;
        proof {
            lemma_instance_index_valid(before.instances(), browser_id@);
        }
        let mut inst = self.take_instance(i);
        inst.title = String::from_str(title);
        inst.is_loading = false;
        inst.failure_state = None;
        inst.status_text = String::from_str("Loaded ").concat(inst.url.as_str());
        inst.surface.frame_token = inst.surface.frame_token + 1;
        inst.surface.last_frame_label = String::from_str(title).concat(" (").concat(
            inst.url.as_str(),
        ).concat(")");
        inst.surface.render_evidence = Some(
            String::from_str("Engine observed rendered state for '").concat(inst.url.as_str()).concat(
                "' at frame ",
            ).concat(decimal_text(inst.surface.frame_token).as_str()),
        );
        inst.surface.damage_events = inst.surface.damage_events + 1;
        self.restore_instance(i, inst, Ghost(before));
        self.push_diagnostic(
            "engine.navigation",
            String::from_str("Browser instance '").concat(browser_id).concat(
                "' finished navigation with title '",
            ).concat(title).concat("'"),
        );
        self.push_event(
            browser_id,
            BrowserInstanceEventKind::TitleChanged,
            String::from_str("Title updated for '").concat(browser_id).concat("' to '").concat(
                title,
            ).concat("'"),
        );
        self.push_event(
            browser_id,
            BrowserInstanceEventKind::LoadFinished,
            String::from_str("Navigation finished for '").concat(browser_id).concat("'"),
        );
        self.push_event(
            browser_id,
            BrowserInstanceEventKind::SurfaceUpdated,
            String::from_str("Surface updated for '").concat(browser_id).concat(
                "' after load finished",
            ),
        );
        proof {
            let n = before.events().len() as int;
            assert(self.events().take(n) =~= before.events());
            assert(self.events()[n] == self.events().take(n + 2)[n]);
            assert(self.events()[n] == self.events().take(n + 1)[n]);
            assert(self.events()[n + 1] == self.events().take(n + 2)[n + 1]);
        }
        Ok(())
    }

    /// A simulated navigation failure with `message`; live instances learn
    /// of failures from CEF.
    pub fn fail_navigation(&mut self, browser_id: &str, message: &str) -> (r: Result<(), EngineError>)
        requires
            old(self).wf(),
            frame_fits(old(self).instances(), browser_id@),
        ensures
            final(self).wf(),
            r is Err <==> (old(self).is_live(browser_id@) || !has_instance(
                old(self).instances(),
                browser_id@,
            )),
            old(self).is_live(browser_id@) ==> (r matches Err(e) && e.message@
                == "Live browser instance '"@ + browser_id@
                + "' must report navigation failure from CEF callbacks or engine diagnostics"@),
            !old(self).is_live(browser_id@) && !has_instance(old(self).instances(), browser_id@)
                ==> (r matches Err(e) && e.message@ == not_found(browser_id@)),
            r is Err ==> *final(self) == *old(self),
            r is Ok ==> old(self).nav_failed(final(self), browser_id@, message@),
    {
        if self.is_live_browser_instance(browser_id) {
            return Err(
                EngineError {
                    message: String::from_str("Live browser instance '").concat(browser_id).concat(
                        "' must report navigation failure from CEF callbacks or engine diagnostics",
                    ),
                },
            );
        }
        let i: usize = match self.find(browser_id) {
            Some(i) => i,
            None => {
                return Err(Self::not_found_error(browser_id));
            },
        };
        let ghost before = *self;
        proof {
            lemma_instance_index_valid(before.instances(), browser_id@);
        }
        let mut inst = self.take_instance(i);
        inst.is_loading = false;
        inst.failure_state = Some(String::from_str(message));
        inst.status_text = String::from_str("Navigation failed: ").concat(message);
        inst.surface.frame_token = inst.surface.frame_token + 1;
        inst.surface.last_frame_label = String::from_str("Navigation failed: ").concat(message);
        inst.surface.host_surface_failure = Some(String::from_str(message));
        self.restore_instance(i, inst, Ghost(before));
        self.push_event(
            browser_id,
            BrowserInstanceEventKind::NavigationFailed,
            String::from_str("Navigation failed for '").concat(browser_id).concat("': ").concat(
                message,
            ),
        );
        self.push_event(
            browser_id,
            BrowserInstanceEventKind::SurfaceUpdated,
            String::from_str("Surface updated for '").concat(browser_id).concat(
                "' after navigation failure",
            ),
        );
        proof {
            let n = before.events().len() as int;
            assert(self.events().take(n) =~= before.events());
            assert(self.events()[n] == self.events().take(n + 1)[n]);
        }
        Ok(())
    }

    /// Records that the instance's renderer crashed with `message`.
    pub fn crash_browser_instance(&mut self, browser_id: &str, message: &str) -> (r: Result<
        (),
        EngineError,
    >)
        requires
            old(self).wf(),
            frame_fits(old(self).instances(), browser_id@),
        ensures
            final(self).wf(),
            r is Err <==> !has_instance(old(self).instances(), browser_id@),
            r matches Err(e) ==> e.message@ == not_found(browser_id@) && *final(self) == *old(self),
            r is Ok ==> old(self).crashed(final(self), browser_id@, message@),
    {
        let i: usize = match self.find(browser_id) {
            Some(i) => i,
            None => {
                return Err(Self::not_found_error(browser_id));
            },
        };
        let ghost before = *self;
        proof {
            lemma_instance_index_valid(before.instances(), browser_id@);
        }
        let mut inst = self.take_instance(i);
        inst.is_loading = false;
        inst.failure_state = Some(String::from_str(message));
        inst.status_text = String::from_str("Browser instance crashed: ").concat(message);
        inst.surface.frame_token = inst.surface.frame_token + 1;
        inst.surface.last_frame_label = String::from_str("Crash: ").concat(message);
        inst.surface.host_surface_failure = Some(String::from_str(message));
        self.restore_instance(i, inst, Ghost(before));
        self.push_event(
            browser_id,
            BrowserInstanceEventKind::Crashed,
            String::from_str("Browser instance '").concat(browser_id).concat("' crashed: ").concat(
                message,
            ),
        );
        self.push_event(
            browser_id,
            BrowserInstanceEventKind::SurfaceUpdated,
            String::from_str("Surface updated for '").concat(browser_id).concat("' after crash"),
        );
        proof {
            let n = before.events().len() as int;
            assert(self.events().take(n) =~= before.events());
            assert(self.events()[n] == self.events().take(n + 1)[n]);
        }
        Ok(())
    }

    /// Resizes the instance's surface.
    pub fn resize_browser_surface(&mut self, browser_id: &str, width: u32, height: u32) -> (r:
        Result<(), EngineError>)
        requires
            old(self).wf(),
            frame_fits(old(self).instances(), browser_id@),
        ensures
            final(self).wf(),
            r is Err <==> !has_instance(old(self).instances(), browser_id@),
            r matches Err(e) ==> e.message@ == not_found(browser_id@) && *final(self) == *old(self),
            r is Ok ==> old(self).resized(final(self), browser_id@, width, height),
    {
        let i: usize = match self.find(browser_id) {
            Some(i) => i,
            None => {
                return Err(Self::not_found_error(browser_id));
            },
        };
        let ghost before = *self;
        proof {
            lemma_instance_index_valid(before.instances(), browser_id@);
        }
        let mut inst = self.take_instance(i);
        let w = decimal_text(width as u64);
        let h = decimal_text(height as u64);
        inst.surface.width = width;
        inst.surface.height = height;
        inst.surface.frame_token = inst.surface.frame_token + 1;
        inst.surface.last_frame_label = inst.title.clone().concat(" (").concat(w.as_str()).concat(
            "x",
        ).concat(h.as_str()).concat(")");
        inst.status_text = String::from_str("Resized surface to ").concat(w.as_str()).concat(
            "x",
        ).concat(h.as_str());
        self.restore_instance(i, inst, Ghost(before));
        self.push_event(
            browser_id,
            BrowserInstanceEventKind::SurfaceUpdated,
            String::from_str("Surface resized for '").concat(browser_id).concat("' to ").concat(
                w.as_str(),
            ).concat("x").concat(h.as_str()),
        );
        Ok(())
    }

    /// Focuses or blurs the instance's surface.
    pub fn set_surface_focus(&mut self, browser_id: &str, focused: bool) -> (r: Result<
        (),
        EngineError,
    >)
        requires
            old(self).wf(),
        ensures
            final(self).wf(),
            r is Err <==> !has_instance(old(self).instances(), browser_id@),
            r matches Err(e) ==> e.message@ == not_found(browser_id@) && *final(self) == *old(self),
            r is Ok ==> old(self).focus_set(final(self), browser_id@, focused),
    {
        let i: usize = match self.find(browser_id) {
            Some(i) => i,
            None => {
                return Err(Self::not_found_error(browser_id));
            },
        };
        let ghost before = *self;
        proof {
            lemma_instance_index_valid(before.instances(), browser_id@);
        }
        let mut inst = self.take_instance(i);
        inst.surface.focused = focused;
        inst.status_text = if focused {
            String::from_str("Surface focused")
        } else {
            String::from_str("Surface blurred")
        };
        self.restore_instance(i, inst, Ghost(before));
        self.push_event(
            browser_id,
            BrowserInstanceEventKind::FocusChanged,
            String::from_str("Surface focus for '").concat(browser_id).concat("' changed to ").concat(
                bool_word(focused),
            ),
        );
        Ok(())
    }

    /// Records the instance's memory figures, indicator, failure state and
    /// attribution label.
    pub fn update_browser_memory(
        &mut self,
        browser_id: &str,
        memory_usage_bytes: u64,
        memory_indicator: Option<String>,
        failure_state: Option<String>,
        attribution: Option<String>,
    ) -> (r: Result<(), EngineError>)
        requires
            old(self).wf(),
        ensures
            final(self).wf(),
            r is Err <==> !has_instance(old(self).instances(), browser_id@),
            r matches Err(e) ==> e.message@ == not_found(browser_id@) && *final(self) == *old(self),
            r is Ok ==> old(self).memory_updated(final(self), browser_id@, memory_usage_bytes, memory_indicator, failure_state, attribution),
    {
        let i: usize = match self.find(browser_id) {
            Some(i) => i,
            None => {
                return Err(Self::not_found_error(browser_id));
            },
        };
        let ghost before = *self;
        proof {
            lemma_instance_index_valid(before.instances(), browser_id@);
        }
        let label = match &memory_indicator {
            Some(m) => m.clone(),
            None => String::from_str("normal"),
        };
        let bytes = decimal_text(memory_usage_bytes);
        let mut inst = self.take_instance(i);
        inst.memory_usage_bytes = memory_usage_bytes;
        inst.memory_indicator = memory_indicator;
        inst.failure_state = failure_state;
        inst.memory_attribution = attribution;
        inst.status_text = String::from_str("Observed memory state: ").concat(bytes.as_str()).concat(
            " bytes (",
        ).concat(label.as_str()).concat(")");
        self.restore_instance(i, inst, Ghost(before));
        self.push_diagnostic(
            "engine.memory",
            String::from_str("Updated memory state for '").concat(browser_id).concat("' to ").concat(
                bytes.as_str(),
            ).concat(" bytes (").concat(label.as_str()).concat(")"),
        );
        self.push_event(
            browser_id,
            BrowserInstanceEventKind::MemoryUpdated,
            String::from_str("Memory updated for '").concat(browser_id).concat("'"),
        );
        Ok(())
    }

    /// Disposes of the instance; its live host, if any, is forgotten.
    pub fn close_browser_instance(&mut self, browser_id: &str) -> (r: Result<(), EngineError>)
        requires
            old(self).wf(),
        ensures
            final(self).wf(),
            r is Err <==> !has_instance(old(self).instances(), browser_id@),
            r matches Err(e) ==> e.message@ == not_found(browser_id@) && *final(self) == *old(self),
            r is Ok ==> old(self).closed(final(self), browser_id@),
    {
        let i: usize = match self.find(browser_id) {
            Some(i) => i,
            None => {
                return Err(Self::not_found_error(browser_id));
            },
        };
        let ghost before = *self;
        proof {
            lemma_instance_index_valid(before.instances(), browser_id@);
            lemma_remove_sorted(before.instances(), i as int);
        }
        let removed = self.take_instance(i);
        proof {
            assert forall|j: int|
                0 <= j < self.instances().len() implies history_ok(
                #[trigger] self.instances()[j],
            ) by {
                if j < i {
                    assert(self.instances()[j] == before.instances()[j]);
                } else {
                    assert(self.instances()[j] == before.instances()[j + 1]);
                }
            }
        }
        self.push_diagnostic(
            "engine.browser-instance",
            String::from_str("Disposed ").concat(removed.backend.debug_name()).concat(
                " browser instance '",
            ).concat(browser_id).concat("'"),
        );
        self.pending_events.push(
            BrowserInstanceEvent {
                browser_id: String::from_str(browser_id),
                kind: BrowserInstanceEventKind::Closed,
                summary: String::from_str("Disposed browser instance '").concat(browser_id).concat(
                    "'",
                ),
                snapshot: None,
            },
        );
        proof {
            assert(self.pending_events@.take(before.pending_events@.len() as int)
                =~= before.pending_events@);
        }
        self.remove_live_id(browser_id);
        Ok(())
    }

    /// Marks the instance, if held, as loading after a request that was
    /// forwarded to its live host.
    fn live_request(
        &mut self,
        browser_id: &str,
        status: &str,
        clears_failure: bool,
        summary: String,
    )
        requires
            old(self).wf(),
        ensures
            final(self).wf(),
            old(self).live_requested(final(self), browser_id@, status@, clears_failure, summary@),
    {
        match self.find(browser_id) {
            Some(i) => {
                let ghost before = *self;
                proof {
                    lemma_instance_index_valid(before.instances(), browser_id@);
                    assert(history_ok(before.instances()[i as int]));
                }
                let mut inst = self.take_instance(i);
                inst.is_loading = true;
                if clears_failure {
                    inst.failure_state = None;
                }
                inst.status_text = String::from_str(status);
                self.restore_instance(i, inst, Ghost(before));
            },
            None => {},
        }
        self.push_event(browser_id, BrowserInstanceEventKind::LoadStarted, summary);
    }

    /// Moves the instance at `i` (the one with id `browser_id`) to history
    /// entry `index`.
    fn step_history(
        &mut self,
        browser_id: &str,
        i: usize,
        index: usize,
        status: &str,
        moved: String,
        surface: String,
    )
        requires
            old(self).wf(),
            i < old(self).instances().len(),
            i == instance_index(old(self).instances(), browser_id@),
            index < old(self).instances()[i as int].history@.len(),
            old(self).instances()[i as int].surface.frame_token < u64::MAX,
        ensures
            final(self).wf(),
            old(self).stepped(final(self), browser_id@, index as int, status@, moved@, surface@),
    {
        let ghost before = *self;
        proof {
            lemma_instance_index_valid(before.instances(), browser_id@);
        }
        let mut inst = self.take_instance(i);
        proof {
            assert(index < inst.history.len());
        }
        inst.history_index = index;
        inst.url = inst.history[index].clone();
        inst.is_loading = false;
        inst.failure_state = None;
        inst.title = inst.url.clone();
        inst.can_go_back = index > 0;
        inst.can_go_forward = index + 1 < inst.history.len();
        inst.status_text = String::from_str(status).concat(inst.url.as_str());
        inst.surface.frame_token = inst.surface.frame_token + 1;
        inst.surface.last_frame_label = String::from_str("History: ").concat(inst.url.as_str());
        self.restore_instance(i, inst, Ghost(before));
        self.push_event(browser_id, BrowserInstanceEventKind::HistoryChanged, moved);
        self.push_event(browser_id, BrowserInstanceEventKind::SurfaceUpdated, surface);
        proof {
            let n = before.events().len() as int;
            assert(self.events().take(n) =~= before.events());
            assert(self.events()[n] == self.events().take(n + 1)[n]);
        }
    }

    /// Goes one entry back in the instance's history. A live instance
    /// forwards this to CEF and reports that loading started; a simulated
    /// one at its first entry stays as it is.
    pub fn go_back_browser_instance(&mut self, browser_id: &str) -> (r: Result<(), EngineError>)
        requires
            old(self).wf(),
            frame_fits(old(self).instances(), browser_id@),
        ensures
            final(self).wf(),
            r is Err <==> (!old(self).is_live(browser_id@) && !has_instance(
                old(self).instances(),
                browser_id@,
            )),
            r matches Err(e) ==> e.message@ == not_found(browser_id@) && *final(self) == *old(self),
            r is Ok ==> old(self).went_back(final(self), browser_id@),
    {
        if self.is_live_browser_instance(browser_id) {
            self.live_request(
                browser_id,
                "CEF back navigation requested",
                false,
                String::from_str("Back navigation requested for live browser instance '").concat(
                    browser_id,
                ).concat("'"),
            );
            return Ok(());
        }
        let i: usize = match self.find(browser_id) {
            Some(i) => i,
            None => {
                return Err(Self::not_found_error(browser_id));
            },
        };
        proof {
            lemma_instance_index_valid(self.instances(), browser_id@);
            assert(history_ok(self.instances()[i as int]));
        }
        let index: usize = self.browser_instances[i].history_index;
        if index > 0 {
            self.step_history(
                browser_id,
                i,
                index - 1,
                "Went back to ",
                String::from_str("Browser instance '").concat(browser_id).concat(
                    "' moved back in history",
                ),
                String::from_str("Surface updated for '").concat(browser_id).concat(
                    "' after back navigation",
                ),
            );
        }
        Ok(())
    }

    /// Goes one entry forward in the instance's history. A live instance
    /// forwards this to CEF and reports that loading started; a simulated
    /// one at its last entry stays as it is.
    pub fn go_forward_browser_instance(&mut self, browser_id: &str) -> (r: Result<(), EngineError>)
        requires
            old(self).wf(),
            frame_fits(old(self).instances(), browser_id@),
        ensures
            final(self).wf(),
            r is Err <==> (!old(self).is_live(browser_id@) && !has_instance(
                old(self).instances(),
                browser_id@,
            )),
            r matches Err(e) ==> e.message@ == not_found(browser_id@) && *final(self) == *old(self),
            r is Ok ==> old(self).went_forward(final(self), browser_id@),
    {
        if self.is_live_browser_instance(browser_id) {
            self.live_request(
                browser_id,
                "CEF forward navigation requested",
                false,
                String::from_str("Forward navigation requested for live browser instance '").concat(
                    browser_id,
                ).concat("'"),
            );
            return Ok(());
        }
        let i: usize = match self.find(browser_id) {
            Some(i) => i,
            None => {
                return Err(Self::not_found_error(browser_id));
            },
        };
        proof {
            lemma_instance_index_valid(self.instances(), browser_id@);
            assert(history_ok(self.instances()[i as int]));
        }
        let index: usize = self.browser_instances[i].history_index;
        proof {
            assert(index < self.browser_instances@[i as int].history.len());
        }
        if index + 1 < self.browser_instances[i].history.len() {
            self.step_history(
                browser_id,
                i,
                index + 1,
                "Went forward to ",
                String::from_str("Browser instance '").concat(browser_id).concat(
                    "' moved forward in history",
                ),
                String::from_str("Surface updated for '").concat(browser_id).concat(
                    "' after forward navigation",
                ),
            );
        }
        Ok(())
    }

    /// Reloads the instance: a live one asks CEF, a simulated one navigates
    /// again to its current URL.
    pub fn reload_browser_instance(&mut self, browser_id: &str) -> (r: Result<(), EngineError>)
        requires
            old(self).wf(),
            frame_fits(old(self).instances(), browser_id@),
        ensures
            final(self).wf(),
            r is Err <==> (!old(self).is_live(browser_id@) && !has_instance(
                old(self).instances(),
                browser_id@,
            )),
            r matches Err(e) ==> e.message@ == not_found(browser_id@) && *final(self) == *old(self),
            r is Ok ==> old(self).reloaded(final(self), browser_id@),
    {
        if self.is_live_browser_instance(browser_id) {
            self.live_request(
                browser_id,
                "CEF reload requested",
                true,
                String::from_str("Reload requested for live browser instance '").concat(
                    browser_id,
                ).concat("'"),
            );
            return Ok(());
        }
        let i: usize = match self.find(browser_id) {
            Some(i) => i,
            None => {
                return Err(Self::not_found_error(browser_id));
            },
        };
        let current_url = self.browser_instances[i].url.clone();
        self.navigate_browser_instance(browser_id, current_url.as_str())
    }

    /// Routes a host input event to the instance. Resize and focus change
    /// the surface; other input is forwarded to a live host by the caller
    /// and only noted in the status text.
    pub fn dispatch_surface_input(&mut self, browser_id: &str, event: HostSurfaceInputEvent) -> (r:
        Result<(), EngineError>)
        requires
            old(self).wf(),
            event is Resize ==> frame_fits(old(self).instances(), browser_id@),
        ensures
            final(self).wf(),
            r matches Err(e) ==> e.message@ == not_found(browser_id@) && *final(self) == *old(self),
            old(self).dispatched(final(self), browser_id@, event, engine_err(r)),
    {
        let ghost before = *self;
        match &event {
            HostSurfaceInputEvent::Resize { width, height } => {
                match self.resize_browser_surface(browser_id, *width, *height) {
                    Ok(()) => {},
                    Err(e) => {
                        return Err(e);
                    },
                }
                self.push_event(
                    browser_id,
                    BrowserInstanceEventKind::SurfaceUpdated,
                    String::from_str("Surface resize input routed for '").concat(browser_id).concat(
                        "'",
                    ),
                );
            },
            HostSurfaceInputEvent::Focus { focused } => {
                match self.set_surface_focus(browser_id, *focused) {
                    Ok(()) => {},
                    Err(e) => {
                        return Err(e);
                    },
                }
                self.push_event(
                    browser_id,
                    BrowserInstanceEventKind::SurfaceUpdated,
                    String::from_str("Surface focus input routed for '").concat(browser_id).concat(
                        "'",
                    ),
                );
            },
            _ => {
                match self.find(browser_id) {
                    Some(i) => {
                        let ghost mid = *self;
                        proof {
                            lemma_instance_index_valid(mid.instances(), browser_id@);
                            assert(history_ok(mid.instances()[i as int]));
                        }
                        let status = String::from_str("Forwarded host surface input: ").concat(
                            event.debug_text().as_str(),
                        );
                        let mut inst = self.take_instance(i);
                        inst.status_text = status;
                        self.restore_instance(i, inst, Ghost(mid));
                    },
                    None => {},
                }
                self.push_event(
                    browser_id,
                    BrowserInstanceEventKind::SurfaceUpdated,
                    String::from_str(input_event_label(&event)).concat(" routed for '").concat(
                        browser_id,
                    ).concat("'"),
                );
            },
        }
        proof {
            let n = before.events().len() as int;
            assert(self.events().take(n) =~= before.events());
        }
        Ok(())
    }

    /// Applies a callback CEF delivered for a live host: the instance it
    /// names, when the engine holds it, takes the reported state, and one
    /// event reports the callback.
    pub fn apply_live_callback(&mut self, callback: LiveBrowserCallbackEvent)
        requires
            old(self).wf(),
            callback_fits(old(self).instances(), callback),
        ensures
            final(self).wf(),
            old(self).callback_done(final(self), callback),
    {
        let LiveBrowserCallbackEvent { browser_id, kind } = callback;
        let (event_kind, summary) = callback_report(browser_id.as_str(), &kind);
        match self.find(browser_id.as_str()) {
            Some(i) => {
                let ghost before = *self;
                proof {
                    lemma_instance_index_valid(before.instances(), browser_id@);
                    assert(history_ok(before.instances()[i as int]));
                }
                let mut inst = self.take_instance(i);
                apply_callback_to(&mut inst, kind);
                self.restore_instance(i, inst, Ghost(before));
            },
            None => {},
        }
        self.push_event(browser_id.as_str(), event_kind, summary);
    }

    /// Whether the frame counter of `id` can still advance.
    pub fn frame_counter_fits(&self, id: &str) -> (r: bool)
        ensures
            r == frame_fits(self.instances(), id@),
    {
        match self.find(id) {
            Some(i) => self.browser_instances[i].surface.frame_token < u64::MAX,
            None => true,
        }
    }

    /// Whether the frame and damage counters of `id` can still advance.
    pub fn surface_counters_fit(&self, id: &str) -> (r: bool)
        ensures
            r == counters_fit(self.instances(), id@),
    {
        match self.find(id) {
            Some(i) => {
                let s = &self.browser_instances[i].surface;
                s.frame_token < u64::MAX && s.damage_events < u64::MAX
            },
            None => true,
        }
    }

    /// Whether the callback's counters fit, so that it can be applied.
    pub fn callback_fits_now(&self, c: &LiveBrowserCallbackEvent) -> (r: bool)
        ensures
            r == callback_fits(self.instances(), *c),
    {
        match &c.kind {
            LiveBrowserCallbackKind::Painted { dirty_rects, .. } => {
                match self.find(c.browser_id.as_str()) {
                    Some(i) => {
                        let s = &self.browser_instances[i].surface;
                        s.frame_token < u64::MAX && (*dirty_rects as u64) <= u64::MAX
                            - s.damage_events
                    },
                    None => true,
                }
            },
            _ => true,
        }
    }

    /// One turn of the engine: applies, in order, the callbacks CEF
    /// delivered while the host ran its message loop. A paint whose frame
    /// or damage counter would pass `u64::MAX` is dropped.
    pub fn tick(&mut self, callbacks: Vec<LiveBrowserCallbackEvent>)
        requires
            old(self).wf(),
        ensures
            final(self).wf(),
            old(self).callbacks_applied(final(self), callbacks@),
    {
        let ghost e0 = *self;
        let ghost cs = callbacks@;
        let mut rest = callbacks;
        let mut k: usize = 0;
        proof {
            assert(cs.take(0) =~= Seq::<LiveBrowserCallbackEvent>::empty());
            assert(cs.len() == rest.len());
        }
        while rest.len() > 0
            invariant
                cs.len() <= usize::MAX,
                k + rest@.len() == cs.len(),
                rest@ == cs.skip(k as int),
                self.wf(),
                e0.callbacks_applied(self, cs.take(k as int)),
            decreases rest.len(),
        {
            let ghost before = *self;
            let c = rest.remove(0);
            proof {
                assert(c == cs[k as int]);
            }
            if self.callback_fits_now(&c) {
                self.apply_live_callback(c);
            }
            proof {
                let t = cs.take(k + 1);
                assert(t.drop_last() =~= cs.take(k as int));
                assert(t.last() == cs[k as int]);
                assert(e0.callbacks_applied(&before, t.drop_last()) && before.callback_step(
                    self,
                    t.last(),
                ));
                assert(rest@ =~= cs.skip(k + 1));
            }
            k = k + 1;
        }
        proof {
            assert(cs.take(k as int) =~= cs);
        }
    }

    /// Every instance, ordered by id.
    pub fn browser_instances(&self) -> (r: Vec<BrowserInstanceState>)
        ensures
            r@.len() == self.instances().len(),
            forall|k: int| 0 <= k < r@.len() ==> same_instance(#[trigger] r@[k], self.instances()[k]),
    {
        let mut out: Vec<BrowserInstanceState> = Vec::new();
        let mut k: usize = 0;
        while k < self.browser_instances.len()
            invariant
                k <= self.instances().len(),
                out@.len() == k,
                forall|j: int| 0 <= j < k ==> same_instance(#[trigger] out@[j], self.instances()[j]),
            decreases self.browser_instances.len() - k,
        {
            out.push(copy_instance(&self.browser_instances[k]));
            k = k + 1;
        }
        out
    }

    /// Hands out the events recorded since the last drain, oldest first.
    pub fn drain_events(&mut self) -> (r: Vec<BrowserInstanceEvent>)
        ensures
            r@ == old(self).events(),
            final(self).events().len() == 0,
            final(self).keeps_core(old(self)),
            final(self).instances() == old(self).instances(),
            final(self).diags() == old(self).diags(),
    {
        let mut out: Vec<BrowserInstanceEvent> = Vec::new();
        std::mem::swap(&mut out, &mut self.pending_events);
        out
    }
}

/// The labelled paths the readiness check looks at, with `icudtl` the
/// path of CEF's `icudtl.dat`.
pub fn checked_paths_for(st: &EngineLaunchSettings, icudtl: &str) -> (r: Vec<String>)
    ensures
        r.deep_view() == checked_with(*st, icudtl@),
{
    let mut checked: Vec<String> = Vec::new();
    push_text(
        &mut checked,
        String::from_str("CEF distribution root: ").concat(st.distribution_root.as_str()),
    );
    push_text(&mut checked, String::from_str("CEF locales: ").concat(st.locales_dir.as_str()));
    push_text(
        &mut checked,
        String::from_str("CEF resources (icudtl.dat): ").concat(icudtl),
    );
    push_text(&mut checked, String::from_str("CEF subprocess: ").concat(st.subprocess_path.as_str()));
    push_text(&mut checked, String::from_str("runtime dir: ").concat(st.data_dir.as_str()));
    push_text(&mut checked, String::from_str("runtime dir: ").concat(st.cache_dir.as_str()));
    push_text(&mut checked, String::from_str("runtime dir: ").concat(st.log_dir.as_str()));
    proof {
        assert(checked.deep_view() =~= checked_with(*st, icudtl@));
    }
    checked
}

fn push_dir_error(v: &mut Vec<String>, dir: &String, e: &Option<String>)
    ensures
        final(v).deep_view() == old(v).deep_view() + dir_error_item(dir@, *e),
{
    match e {
        Some(m) => {
            push_text(
                v,
                String::from_str("runtime dir ").concat(dir.as_str()).concat(": ").concat(
                    m.as_str(),
                ),
            );
            proof {
                assert(v.deep_view() =~= old(v).deep_view() + dir_error_item(dir@, *e));
            }
        },
        None => {
            proof {
                assert(v.deep_view() =~= old(v).deep_view() + dir_error_item(dir@, *e));
            }
        },
    }
}

/// The runtime directories of `st` the probe could not create, with the
/// error.
pub fn dir_errors_for(st: &EngineLaunchSettings, probe: &ReadinessProbe) -> (r: Vec<String>)
    ensures
        r.deep_view() == readiness_dir_errors(*st, *probe),
{
    let mut errors: Vec<String> = Vec::new();
    proof {
        assert(errors.deep_view() =~= Seq::empty());
    }
    push_dir_error(&mut errors, &st.data_dir, &probe.data_dir_error);
    push_dir_error(&mut errors, &st.cache_dir, &probe.cache_dir_error);
    push_dir_error(&mut errors, &st.log_dir, &probe.log_dir_error);
    proof {
        assert(errors.deep_view() =~= readiness_dir_errors(*st, *probe));
    }
    errors
}

/// What the probe found missing, with `icudtl` the path of CEF's
/// `icudtl.dat` and `errors` what `dir_errors_for` gives for the probe.
pub fn missing_paths_for(
    st: &EngineLaunchSettings,
    probe: &ReadinessProbe,
    icudtl: &str,
    errors: &Vec<String>,
) -> (r: Vec<String>)
    requires
        errors.deep_view() == readiness_dir_errors(*st, *probe),
    ensures
        r.deep_view() == missing_with(*st, *probe, icudtl@),
{
    let mut missing: Vec<String> = Vec::new();
    let ghost m0 = missing.deep_view();
    if !probe.distribution_root_exists {
        push_text(
            &mut missing,
            String::from_str("CEF distribution root (").concat(st.distribution_root.as_str()).concat(
                ")",
            ),
        );
    }
    let ghost m1 = missing.deep_view();
    proof {
        assert(m1 =~= item_if(
            !probe.distribution_root_exists,
            "CEF distribution root ("@ + st.distribution_root@ + ")"@,
        ));
    }
    if !probe.locales_dir_exists {
        push_text(
            &mut missing,
            String::from_str("CEF locales (").concat(st.locales_dir.as_str()).concat(")"),
        );
    }
    let ghost m2 = missing.deep_view();
    proof {
        assert(m2 =~= m1 + item_if(
            !probe.locales_dir_exists,
            "CEF locales ("@ + st.locales_dir@ + ")"@,
        ));
    }
    if !probe.icudtl_exists {
        push_text(
            &mut missing,
            String::from_str("CEF resources (").concat(icudtl).concat(
                ") \u{2014} icudtl.dat not found; resources_dir may be wrong",
            ),
        );
    }
    let ghost m3 = missing.deep_view();
    proof {
        assert(m3 =~= m2 + item_if(
            !probe.icudtl_exists,
            "CEF resources ("@ + icudtl@
                + ") \u{2014} icudtl.dat not found; resources_dir may be wrong"@,
        ));
    }
    if !probe.subprocess_exists {
        push_text(
            &mut missing,
            String::from_str("CEF subprocess (").concat(st.subprocess_path.as_str()).concat(")"),
        );
    }
    let ghost m4 = missing.deep_view();
    proof {
        assert(m4 =~= m3 + item_if(
            !probe.subprocess_exists,
            "CEF subprocess ("@ + st.subprocess_path@ + ")"@,
        ));
    }
    let mut k: usize = 0;
    while k < errors.len()
        invariant
            k <= errors@.len(),
            errors.deep_view() == readiness_dir_errors(*st, *probe),
            missing.deep_view() == m4 + errors.deep_view().take(k as int),
        decreases errors.len() - k,
    {
        push_text(&mut missing, errors[k].clone());
        proof {
            assert(missing.deep_view() =~= m4 + errors.deep_view().take(k + 1));
        }
        k = k + 1;
    }
    proof {
        assert(errors.deep_view().take(k as int) =~= errors.deep_view());
        assert(missing.deep_view() =~= missing_with(*st, *probe, icudtl@));
    }
    missing
}

/// Replacing the instance at `k` by one with the same id text keeps the ids
/// sorted.
proof fn lemma_update_same_id_text(s: Seq<BrowserInstanceState>, k: int, v: BrowserInstanceState)
    requires
        ids_sorted(s),
        0 <= k < s.len(),
        v.id@ == s[k].id@,
    ensures
        ids_sorted(s.update(k, v)),
{
    let t = s.update(k, v);
    assert forall|a: int, b: int| 0 <= a < b < t.len() implies text_lt(
        #[trigger] t[a].id@,
        #[trigger] t[b].id@,
    ) by {
        assert(t[a].id@ == s[a].id@);
        assert(t[b].id@ == s[b].id@);
    }
}

/// Removing the instance at `i` keeps the ids sorted and leaves no
/// instance with its id.
proof fn lemma_remove_sorted(s: Seq<BrowserInstanceState>, i: int)
    requires
        ids_sorted(s),
        0 <= i < s.len(),
    ensures
        ids_sorted(s.remove(i)),
        !has_instance(s.remove(i), s[i].id@),
{
    let t = s.remove(i);
    assert forall|a: int, b: int| 0 <= a < b < t.len() implies text_lt(
        #[trigger] t[a].id@,
        #[trigger] t[b].id@,
    ) by {
        let oa = if a < i { a } else { a + 1 };
        let ob = if b < i { b } else { b + 1 };
        assert(t[a] == s[oa] && t[b] == s[ob]);
    }
    lemma_instance_index_valid(t, s[i].id@);
    if has_instance(t, s[i].id@) {
        let k = instance_index(t, s[i].id@);
        let ok = if k < i { k } else { k + 1 };
        assert(t[k] == s[ok]);
        if ok < i {
            assert(text_lt(s[ok].id@, s[i].id@));
        } else {
            assert(text_lt(s[i].id@, s[ok].id@));
        }
        lemma_text_lt_irreflexive(s[i].id@);
    }
}

proof fn lemma_instance_index_first(s: Seq<BrowserInstanceState>, id: Seq<char>, k: int)
    requires
        0 <= k < s.len(),
        s[k].id@ == id,
        forall|j: int| 0 <= j < k ==> s[j].id@ != id,
    ensures
        instance_index(s, id) == k,
    decreases s.len(),
{
    if k < s.len() - 1 {
        lemma_instance_index_first(s.drop_last(), id, k);
    } else {
        lemma_instance_index_valid(s.drop_last(), id);
        if instance_index(s.drop_last(), id) >= 0 {
            let j = instance_index(s.drop_last(), id);
            assert(s[j] == s.drop_last()[j]);
        }
    }
}

/// The instance shows its current history entry.
pub open spec fn shows_current_entry(s: BrowserInstanceState) -> bool {
    &&& history_ok(s)
    &&& s.history.deep_view()[s.history_index as int] == s.url@
}

/// A navigation leaves the instance showing the entry it appended, at the
/// end of its history, with nothing to go forward to.
pub proof fn lemma_navigation_shows_current_entry(
    e0: WeboxEngine,
    e1: WeboxEngine,
    id: Seq<char>,
    url: Seq<char>,
)
    requires
        e0.wf(),
        e1.wf(),
        e0.navigated(&e1, id, url),
    ensures
        shows_current_entry(e1.instance(id)),
        e1.instance(id).history_index == e1.instance(id).history@.len() - 1,
        !e1.instance(id).can_go_forward,
{
    let h = e1.instance(id).history;
    let h0 = e0.instance(id).history;
    assert(h0.len() == h0@.len());
    assert(h.len() == h@.len());
    assert(h.deep_view().len() == h@.len());
    assert(h.deep_view()[h.deep_view().len() - 1] == url);
}

/// A step through the history leaves the instance showing the entry it
/// stepped to.
pub proof fn lemma_history_step_shows_current_entry(
    e0: WeboxEngine,
    e1: WeboxEngine,
    id: Seq<char>,
    index: int,
    status: Seq<char>,
    moved: Seq<char>,
    surface: Seq<char>,
)
    requires
        e0.wf(),
        has_instance(e0.instances(), id),
        0 <= index < e0.instance(id).history@.len(),
        e1.wf(),
        e0.stepped(&e1, id, index, status, moved, surface),
    ensures
        shows_current_entry(e1.instance(id)),
        e1.instance(id).history@ == e0.instance(id).history@,
{
    let h = e1.instance(id).history;
    assert(h.len() == h@.len());
    assert(h.deep_view()[index] == h@[index]@);
}

/// Going back right after navigating a simulated instance to `url` returns
/// it to the history entry it showed before, and keeps `url` as the entry
/// to go forward to.
pub proof fn lemma_back_after_navigate(
    e0: WeboxEngine,
    e1: WeboxEngine,
    e2: WeboxEngine,
    id: Seq<char>,
    url: Seq<char>,
)
    requires
        e0.wf(),
        !e0.is_live(id),
        has_instance(e0.instances(), id),
        e1.wf(),
        e2.wf(),
        e0.navigated(&e1, id, url),
        e1.went_back(&e2, id),
    ensures
        has_instance(e2.instances(), id),
        e2.instance(id).history_index == e0.instance(id).history_index,
        e2.instance(id).url@ == e0.instance(id).history.deep_view()[e0.instance(id).history_index as int],
        e2.instance(id).history.deep_view() == e0.instance(id).history.deep_view().take(
            e0.instance(id).history_index + 1,
        ).push(url),
        e2.instance(id).can_go_forward,
{
    let i0 = e0.instance(id);
    let i1 = e1.instance(id);
    let k = i0.history_index as int;
    lemma_instance_index_valid(e0.instances(), id);
    assert(history_ok(i0));
    assert(i0.history.len() == i0.history@.len());
    assert(!e1.is_live(id));
    assert(i1.history.len() == i1.history@.len());
    assert(i1.history.deep_view().len() == i1.history@.len());
    assert(i1.history_index == k + 1);
    let h1 = i1.history;
    assert(h1.deep_view().len() == h1@.len());
    assert(h1.deep_view()[k] == h1@[k]@);
    assert(i0.history.deep_view()[k] == i0.history@[k]@);
    let i2 = e2.instance(id);
    assert(i2.url == i1.history@[k]);
}

/// Going forward right after going back returns a simulated instance to
/// the entry it showed before going back.
pub proof fn lemma_forward_after_back(e0: WeboxEngine, e1: WeboxEngine, e2: WeboxEngine, id: Seq<char>)
    requires
        e0.wf(),
        !e0.is_live(id),
        has_instance(e0.instances(), id),
        e0.instance(id).history_index > 0,
        e1.wf(),
        e2.wf(),
        e0.went_back(&e1, id),
        e1.went_forward(&e2, id),
    ensures
        has_instance(e2.instances(), id),
        e2.instance(id).history_index == e0.instance(id).history_index,
        e2.instance(id).history@ == e0.instance(id).history@,
        e2.instance(id).url == e0.instance(id).history@[e0.instance(id).history_index as int],
        e2.instance(id).can_go_back,
{
    lemma_instance_index_valid(e0.instances(), id);
    assert(history_ok(e0.instance(id)));
    assert(e0.instance(id).history.len() == e0.instance(id).history@.len());
    assert(!e1.is_live(id));
}

/// A simulated start is never ready for live validation, and says so.
pub proof fn lemma_simulated_start_not_live(
    st: EngineLaunchSettings,
    probe: ReadinessProbe,
    cef_initialized: bool,
    backend: RuntimeBackend,
    r: RuntimeReadiness,
    d: StartupDiagnostics,
)
    requires
        st.runtime_mode == BrowserRuntimeMode::Simulated,
        start_outcome(st, probe, cef_initialized, backend, r, d),
    ensures
        !r.live_mvp_ready,
        r.simulated,
        r.state == RuntimeReadinessState::Simulated,
        backend == RuntimeBackend::Simulated,
{
}

/// A live start that finds CEF assets missing is not ready, lists what is
/// missing, and refuses to create browser instances.
pub proof fn lemma_missing_assets_block_creation(e: WeboxEngine)
    requires
        e.spec_state() == EngineState::Started,
        e.settings().runtime_mode == BrowserRuntimeMode::RealCef,
        exists|probe: ReadinessProbe, cef: bool, d: StartupDiagnostics|
            #[trigger] start_outcome(e.settings(), probe, cef, e.backend(), e.readiness(), d)
                && readiness_missing(e.settings(), probe).len() > 0,
    ensures
        !e.readiness().live_mvp_ready,
        e.readiness().state == RuntimeReadinessState::LiveUnavailable,
        e.readiness().missing_paths@.len() > 0,
        creation_block(&e) == Some(
            "Live CEF browser instance cannot be created: "@ + e.readiness().summary@,
        ),
{
    let (probe, cef, d) = choose|probe: ReadinessProbe, cef: bool, d: StartupDiagnostics|
        #[trigger] start_outcome(e.settings(), probe, cef, e.backend(), e.readiness(), d)
            && readiness_missing(e.settings(), probe).len() > 0;
    assert(e.readiness().missing_paths.deep_view().len() == e.readiness().missing_paths@.len());
}

/// Closing an instance makes every later lookup of its id fail.
pub proof fn lemma_closed_instance_not_found(e0: WeboxEngine, e1: WeboxEngine, id: Seq<char>)
    requires
        has_instance(e0.instances(), id),
        e0.closed(&e1, id),
    ensures
        !has_instance(e1.instances(), id),
        !e1.is_live(id),
        e1.instances().len() + 1 == e0.instances().len(),
{
    lemma_instance_index_valid(e0.instances(), id);
}

/// CEF reporting an address: the instance shows it either way. When it is
/// the last history entry already, history, position and the back flag
/// stay as they were (back is possible exactly when the position is past
/// the first entry); otherwise the entries after the current one are
/// dropped, the address is appended and becomes current, back is possible
/// and forward is not.
pub proof fn lemma_address_change_history(
    old: BrowserInstanceState,
    new: BrowserInstanceState,
    url: String,
)
    requires
        history_ok(old),
        callback_applied(old, new, LiveBrowserCallbackKind::AddressChanged { url }),
    ensures
        new.url == url,
        old.history.deep_view().last() == url@ ==> {
            &&& new.history.deep_view() == old.history.deep_view()
            &&& new.history_index == old.history_index
            &&& new.can_go_back == (old.history_index > 0)
        },
        old.history.deep_view().last() != url@ ==> {
            &&& new.history.deep_view() == old.history.deep_view().take(old.history_index + 1).push(
                url@,
            )
            &&& new.history_index == old.history_index + 1
            &&& new.can_go_back
            &&& !new.can_go_forward
        },
{
    let h = old.history.deep_view();
    assert(h.len() == old.history@.len());
    assert(old.history@.len() == old.history.len());
    if h.last() != url@ {
        assert(h.take(old.history_index + 1).len() == old.history_index + 1);
        assert(new.history.deep_view().len() == old.history_index + 2);
    }
}

} // verus!
