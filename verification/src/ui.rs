//! The browser window model: the tabs a window shows, which one is active,
//! and the per-tab view state the shell mirrors from the engine.
use crate::text::text_eq;
use vstd::prelude::*;

verus! {

pub type WindowId = String;

pub type TabId = String;

#[derive(Clone, Debug, PartialEq, Eq)]
pub struct SurfaceViewState {
    pub surface_id: String,
    pub width: u32,
    pub height: u32,
    pub focused: bool,
    pub frame_token: u64,
    pub frame_label: String,
    pub render_evidence: Option<String>,
    pub frame_buffer: Option<SurfaceFrameBuffer>,
    pub damage_events: u64,
    pub host_surface_failure: Option<String>,
}

#[derive(Clone, Debug, PartialEq, Eq)]
pub struct SurfaceFrameBuffer {
    pub width: u32,
    pub height: u32,
    pub bgra: Vec<u8>,
}

#[derive(Clone, Debug, PartialEq, Eq)]
pub struct TabViewState {
    pub id: TabId,
    pub title: String,
    pub url: String,
    pub is_loading: bool,
    pub memory_indicator: Option<String>,
    pub failure_state: Option<String>,
    pub memory_attribution: Option<String>,
    pub status_text: String,
    pub can_go_back: bool,
    pub can_go_forward: bool,
    pub surface: SurfaceViewState,
}

#[derive(Clone, Debug, PartialEq, Eq)]
pub struct BrowserWindowModel {
    pub id: WindowId,
    pub tabs: Vec<TabViewState>,
    pub active_tab_id: Option<TabId>,
}

#[derive(Clone, Debug, PartialEq, Eq)]
pub enum BrowserCommand {
    Navigate { tab_id: TabId, url: String },
    Reload { tab_id: TabId },
    Back { tab_id: TabId },
    Forward { tab_id: TabId },
    ActivateTab { tab_id: TabId },
    CloseTab { tab_id: TabId },
}

#[derive(Clone, Copy, Debug, PartialEq, Eq, Structural)]
pub enum SurfaceMouseButton {
    Left,
    Middle,
    Right,
}

#[derive(Clone, Debug, PartialEq, Eq)]
pub enum SurfaceInputEvent {
    PointerMove { x: i32, y: i32 },
    PointerButton { x: i32, y: i32, button: SurfaceMouseButton, pressed: bool, click_count: i32 },
    Wheel { x: i32, y: i32, delta_x: i32, delta_y: i32 },
    Key { key_code: i32, pressed: bool },
    Text { text: String },
    Focus { focused: bool },
    Resize { width: u32, height: u32 },
}

/// The view of an optional string.
pub open spec fn opt_view(o: Option<String>) -> Option<Seq<char>> {
    match o {
        Some(s) => Some(s@),
        None => None,
    }
}

/// Index of the first tab with id `id`, or -1 when there is none.
pub open spec fn first_index(tabs: Seq<TabViewState>, id: Seq<char>) -> int
    decreases tabs.len(),
{
    if tabs.len() == 0 {
        -1
    } else if first_index(tabs.drop_last(), id) >= 0 {
        first_index(tabs.drop_last(), id)
    } else if tabs.last().id@ == id {
        tabs.len() - 1
    } else {
        -1
    }
}

/// Some tab has id `id`.
pub open spec fn has_tab(tabs: Seq<TabViewState>, id: Seq<char>) -> bool {
    exists|i: int| 0 <= i < tabs.len() && #[trigger] tabs[i].id@ == id
}

/// The tabs without any tab whose id is `id`, in their order.
pub open spec fn without_tab(tabs: Seq<TabViewState>, id: Seq<char>) -> Seq<TabViewState>
    decreases tabs.len(),
{
    if tabs.len() == 0 {
        Seq::empty()
    } else if tabs.last().id@ == id {
        without_tab(tabs.drop_last(), id)
    } else {
        without_tab(tabs.drop_last(), id).push(tabs.last())
    }
}

/// The tab with its surface focused exactly when it is the tab `id`.
pub open spec fn focus_to(t: TabViewState, id: Seq<char>) -> TabViewState {
    TabViewState { surface: SurfaceViewState { focused: t.id@ == id, ..t.surface }, ..t }
}

/// The tab a window shows as active after closing `tab_id`: none when no
/// tab is left; the neighbour at the closed position when the closed tab
/// was active; otherwise the previous active tab if it is still open, else
/// the last tab.
pub open spec fn close_choice(w: BrowserWindowModel, tab_id: Seq<char>) -> Option<Seq<char>> {
    let kept = without_tab(w.tabs@, tab_id);
    if kept.len() == 0 {
        None
    } else if opt_view(w.active_tab_id) == Some(tab_id) {
        let removed = if first_index(w.tabs@, tab_id) >= 0 {
            first_index(w.tabs@, tab_id)
        } else {
            0
        };
        let next = if removed < kept.len() - 1 {
            removed
        } else {
            kept.len() - 1
        };
        Some(kept[next].id@)
    } else if w.active_tab_id is Some && has_tab(kept, w.active_tab_id->0@) {
        Some(w.active_tab_id->0@)
    } else {
        Some(kept.last().id@)
    }
}

/// The fresh tab a window adds for `id` at `url`.
pub open spec fn new_tab_state(t: TabViewState, id: Seq<char>, url: Seq<char>) -> bool {
    &&& t.id@ == id
    &&& t.title@ == "New Tab"@
    &&& t.url@ == url
    &&& t.is_loading
    &&& t.memory_indicator is None
    &&& t.failure_state is None
    &&& t.memory_attribution is None
    &&& t.status_text@ == "Preparing "@ + url
    &&& !t.can_go_back
    &&& !t.can_go_forward
    &&& t.surface.surface_id@ == "surface-"@ + id
    &&& t.surface.width == 1280
    &&& t.surface.height == 720
    &&& !t.surface.focused
    &&& t.surface.frame_token == 0
    &&& t.surface.frame_label@ == "Preparing "@ + url
    &&& t.surface.render_evidence is None
    &&& t.surface.frame_buffer is None
    &&& t.surface.damage_events == 0
    &&& t.surface.host_surface_failure is None
}

impl BrowserWindowModel {
    /// The active tab, when there is one, is a tab of the window.
    pub open spec fn wf(&self) -> bool {
        self.active_tab_id matches Some(a) ==> has_tab(self.tabs@, a@)
    }

    pub fn new(id: &str) -> (r: Self)
        ensures
            r.id@ == id@,
            r.tabs@.len() == 0,
            r.active_tab_id is None,
            r.wf(),
    {
        BrowserWindowModel { id: String::from_str(id), tabs: Vec::new(), active_tab_id: None }
    }

    /// Index of the first tab with id `tab_id`, if any.
    pub fn tab_position(&self, tab_id: &str) -> (r: Option<usize>)
        ensures
            r matches Some(i) ==> i == first_index(self.tabs@, tab_id@),
            r is None ==> first_index(self.tabs@, tab_id@) == -1,
            r is None <==> !has_tab(self.tabs@, tab_id@),
    {
        let mut k: usize = 0;
        while k < self.tabs.len()
            invariant
                k <= self.tabs@.len(),
                first_index(self.tabs@.take(k as int), tab_id@) == -1,
                forall|j: int| 0 <= j < k ==> self.tabs@[j].id@ != tab_id@,
            decreases self.tabs.len() - k,
        {
            proof {
                assert(self.tabs@.take(k + 1).drop_last() =~= self.tabs@.take(k as int));
            }
            if text_eq(self.tabs[k].id.as_str(), tab_id) {
                proof {
                    lemma_first_index_prefix(self.tabs@, k + 1, tab_id@);
                }
                return Some(k);
            }
            k = k + 1;
        }
        proof {
            assert(self.tabs@.take(k as int) =~= self.tabs@);
        }
        None
    }

    /// Adds a loading tab for `id` at `url` and makes it active.
    pub fn add_tab(&mut self, id: &str, url: &str) -> (r: TabId)
        ensures
            r@ == id@,
            final(self).id == old(self).id,
            final(self).tabs@.len() == old(self).tabs@.len() + 1,
            final(self).tabs@.drop_last() == old(self).tabs@,
            new_tab_state(final(self).tabs@.last(), id@, url@),
            opt_view(final(self).active_tab_id) == Some(id@),
            final(self).wf(),
    {
        let tab_id = String::from_str(id);
        let tab = TabViewState {
            id: tab_id.clone(),
            title: String::from_str("New Tab"),
            url: String::from_str(url),
            is_loading: true,
            memory_indicator: None,
            failure_state: None,
            memory_attribution: None,
            status_text: String::from_str("Preparing ").concat(url),
            can_go_back: false,
            can_go_forward: false,
            surface: SurfaceViewState {
                surface_id: String::from_str("surface-").concat(id),
                width: 1280,
                height: 720,
                focused: false,
                frame_token: 0,
                frame_label: String::from_str("Preparing ").concat(url),
                render_evidence: None,
                frame_buffer: None,
                damage_events: 0,
                host_surface_failure: None,
            },
        };
        self.tabs.push(tab);
        self.active_tab_id = Some(tab_id.clone());
        proof {
            assert(self.tabs@.drop_last() =~= old(self).tabs@);
            let n = self.tabs@.len() - 1;
            assert(self.tabs@[n].id@ == id@);
        }
        tab_id
    }

    /// Makes `tab_id` active when the window has it, and focuses exactly the
    /// surfaces of tabs with that id.
    pub fn set_active_tab(&mut self, tab_id: &str)
        ensures
            final(self).id == old(self).id,
            has_tab(old(self).tabs@, tab_id@) ==> opt_view(final(self).active_tab_id) == Some(
                tab_id@,
            ),
            !has_tab(old(self).tabs@, tab_id@) ==> final(self).active_tab_id == old(self).active_tab_id,
            final(self).tabs@ == old(self).tabs@.map_values(|t: TabViewState| focus_to(t, tab_id@)),
            old(self).wf() ==> final(self).wf(),
    {
        if self.tab_position(tab_id).is_some() {
            self.active_tab_id = Some(String::from_str(tab_id));
        }
        let ghost before = self.tabs@;
        let ghost active = self.active_tab_id;
        proof {
            if old(self).wf() && active is Some {
                assert(has_tab(before, active->0@));
            }
        }
        let mut k: usize = 0;
        while k < self.tabs.len()
            invariant
                k <= self.tabs@.len(),
                self.tabs@.len() == before.len(),
                self.id == old(self).id,
                self.active_tab_id == active,
                forall|j: int| 0 <= j < k ==> self.tabs@[j] == focus_to(before[j], tab_id@),
                forall|j: int| k <= j < before.len() ==> self.tabs@[j] == before[j],
            decreases self.tabs.len() - k,
        {
            let focused = text_eq(self.tabs[k].id.as_str(), tab_id);
            self.tabs[k].surface.focused = focused;
            k = k + 1;
        }
        proof {
            assert(self.tabs@ =~= before.map_values(|t: TabViewState| focus_to(t, tab_id@)));
            if old(self).wf() && self.active_tab_id is Some {
                let a = self.active_tab_id->0@;
                let i = choose|i: int| 0 <= i < before.len() && #[trigger] before[i].id@ == a;
                assert(self.tabs@[i].id@ == a);
            }
        }
    }

    /// Removes every tab with id `tab_id` and picks the next active tab.
    pub fn close_tab(&mut self, tab_id: &str)
        ensures
            final(self).id == old(self).id,
            opt_view(final(self).active_tab_id) == close_choice(*old(self), tab_id@),
            close_choice(*old(self), tab_id@) is None ==> final(self).tabs@.len() == 0,
            close_choice(*old(self), tab_id@) matches Some(c) ==> final(self).tabs@ == without_tab(
                old(self).tabs@,
                tab_id@,
            ).map_values(|t: TabViewState| focus_to(t, c)),
            final(self).wf(),
    {
        let ghost w0 = *self;
        let removed_index = self.tab_position(tab_id);
        let was_active = match &self.active_tab_id {
            Some(a) => text_eq(a.as_str(), tab_id),
            None => false,
        };
        let mut rest: Vec<TabViewState> = Vec::new();
        std::mem::swap(&mut rest, &mut self.tabs);
        let ghost orig = rest@;
        let mut kept: Vec<TabViewState> = Vec::new();
        let ghost mut k: int = 0;
        while rest.len() > 0
            invariant
                0 <= k <= orig.len(),
                rest@ == orig.subrange(k, orig.len() as int),
                kept@ == without_tab(orig.take(k), tab_id@),
            decreases rest.len(),
        {
            let t = rest.remove(0);
            proof {
                assert(t == orig[k]);
                assert(orig.take(k + 1).drop_last() =~= orig.take(k));
                assert(orig.take(k + 1).last() == orig[k]);
            }
            if !text_eq(t.id.as_str(), tab_id) {
                kept.push(t);
            }
            proof {
                k = k + 1;
                assert(rest@ =~= orig.subrange(k, orig.len() as int));
            }
        }
        proof {
            assert(orig.take(k) =~= orig);
        }
        self.tabs = kept;
        let len: usize = self.tabs.len();
        let next_active: Option<String> = if len == 0 {
            None
        } else if was_active {
            let removed: usize = match removed_index {
                Some(i) => i,
                None => 0,
            };
            let next: usize = if removed < len - 1 {
                removed
            } else {
                len - 1
            };
            Some(self.tabs[next].id.clone())
        } else {
            let still_open = match &self.active_tab_id {
                Some(a) => self.tab_position(a.as_str()).is_some(),
                None => false,
            };
            if still_open {
                self.active_tab_id.clone()
            } else {
                Some(self.tabs[len - 1].id.clone())
            }
        };
        self.active_tab_id = next_active;
        proof {
            assert(opt_view(self.active_tab_id) == close_choice(w0, tab_id@));
        }
        match self.active_tab_id.clone() {
            Some(active) => {
                proof {
                    lemma_choice_is_kept(w0, tab_id@);
                }
                self.set_active_tab(active.as_str());
            },
            None => {},
        }
    }

    /// Replaces the first tab with the same id as `next`, or appends `next`.
    pub fn update_from_engine(&mut self, next: TabViewState)
        ensures
            final(self).id == old(self).id,
            final(self).active_tab_id == old(self).active_tab_id,
            has_tab(old(self).tabs@, next.id@) ==> final(self).tabs@ == old(self).tabs@.update(
                first_index(old(self).tabs@, next.id@),
                next,
            ),
            !has_tab(old(self).tabs@, next.id@) ==> final(self).tabs@ == old(self).tabs@.push(next),
            old(self).wf() ==> final(self).wf(),
    {
        let ghost next0 = next;
        match self.tab_position(next.id.as_str()) {
            Some(i) => {
                proof {
                    lemma_first_index_valid(self.tabs@, next.id@);
                }
                self.tabs.set(i, next);
                proof {
                    if old(self).wf() && self.active_tab_id is Some {
                        let a = self.active_tab_id->0@;
                        let j = choose|j: int|
                            0 <= j < old(self).tabs@.len() && #[trigger] old(self).tabs@[j].id@ == a;
                        assert(self.tabs@[j].id@ == a);
                    }
                }
            },
            None => {
                self.tabs.push(next);
                proof {
                    if old(self).wf() && self.active_tab_id is Some {
                        let a = self.active_tab_id->0@;
                        let j = choose|j: int|
                            0 <= j < old(self).tabs@.len() && #[trigger] old(self).tabs@[j].id@ == a;
                        assert(self.tabs@[j].id@ == a);
                    }
                }
            },
        }
    }

    /// Sets the memory indicator and attribution of the first tab `tab_id`.
    pub fn set_memory_indicator(
        &mut self,
        tab_id: &str,
        memory_indicator: Option<String>,
        attribution: Option<String>,
    )
        ensures
            final(self).id == old(self).id,
            final(self).active_tab_id == old(self).active_tab_id,
            has_tab(old(self).tabs@, tab_id@) ==> final(self).tabs@ == old(self).tabs@.update(
                first_index(old(self).tabs@, tab_id@),
                TabViewState {
                    memory_indicator: memory_indicator,
                    memory_attribution: attribution,
                    ..old(self).tabs@[first_index(old(self).tabs@, tab_id@)]
                },
            ),
            !has_tab(old(self).tabs@, tab_id@) ==> final(self).tabs@ == old(self).tabs@,
            old(self).wf() ==> final(self).wf(),
    {
        match self.tab_position(tab_id) {
            Some(i) => {
                proof {
                    lemma_first_index_valid(self.tabs@, tab_id@);
                }
                self.tabs[i].memory_indicator = memory_indicator;
                self.tabs[i].memory_attribution = attribution;
                proof {
                    assert(self.tabs@ =~= old(self).tabs@.update(
                        i as int,
                        TabViewState {
                            memory_indicator: memory_indicator,
                            memory_attribution: attribution,
                            ..old(self).tabs@[i as int]
                        },
                    ));
                    lemma_same_ids_keep_wf(*old(self), *self);
                }
            },
            None => {},
        }
    }

    /// Sets the failure state of the first tab `tab_id`.
    pub fn set_failure_state(&mut self, tab_id: &str, message: Option<String>)
        ensures
            final(self).id == old(self).id,
            final(self).active_tab_id == old(self).active_tab_id,
            has_tab(old(self).tabs@, tab_id@) ==> final(self).tabs@ == old(self).tabs@.update(
                first_index(old(self).tabs@, tab_id@),
                TabViewState {
                    failure_state: message,
                    ..old(self).tabs@[first_index(old(self).tabs@, tab_id@)]
                },
            ),
            !has_tab(old(self).tabs@, tab_id@) ==> final(self).tabs@ == old(self).tabs@,
            old(self).wf() ==> final(self).wf(),
    {
        match self.tab_position(tab_id) {
            Some(i) => {
                proof {
                    lemma_first_index_valid(self.tabs@, tab_id@);
                }
                self.tabs[i].failure_state = message;
                proof {
                    assert(self.tabs@ =~= old(self).tabs@.update(
                        i as int,
                        TabViewState { failure_state: message, ..old(self).tabs@[i as int] },
                    ));
                    lemma_same_ids_keep_wf(*old(self), *self);
                }
            },
            None => {},
        }
    }

    /// Sets the surface size of the first tab `tab_id`.
    pub fn set_surface_size(&mut self, tab_id: &str, width: u32, height: u32)
        ensures
            final(self).id == old(self).id,
            final(self).active_tab_id == old(self).active_tab_id,
            has_tab(old(self).tabs@, tab_id@) ==> final(self).tabs@ == old(self).tabs@.update(
                first_index(old(self).tabs@, tab_id@),
                TabViewState {
                    surface: SurfaceViewState {
                        width: width,
                        height: height,
                        ..old(self).tabs@[first_index(old(self).tabs@, tab_id@)].surface
                    },
                    ..old(self).tabs@[first_index(old(self).tabs@, tab_id@)]
                },
            ),
            !has_tab(old(self).tabs@, tab_id@) ==> final(self).tabs@ == old(self).tabs@,
            old(self).wf() ==> final(self).wf(),
    {
        match self.tab_position(tab_id) {
            Some(i) => {
                proof {
                    lemma_first_index_valid(self.tabs@, tab_id@);
                }
                self.tabs[i].surface.width = width;
                self.tabs[i].surface.height = height;
                proof {
                    assert(self.tabs@ =~= old(self).tabs@.update(
                        i as int,
                        TabViewState {
                            surface: SurfaceViewState {
                                width: width,
                                height: height,
                                ..old(self).tabs@[i as int].surface
                            },
                            ..old(self).tabs@[i as int]
                        },
                    ));
                    lemma_same_ids_keep_wf(*old(self), *self);
                }
            },
            None => {},
        }
    }
}

// ---------------------------------------------------------------------------
// Lemmas
// ---------------------------------------------------------------------------
proof fn lemma_first_index_prefix(tabs: Seq<TabViewState>, k: int, id: Seq<char>)
    requires
        1 <= k <= tabs.len(),
        tabs[k - 1].id@ == id,
        first_index(tabs.take(k - 1), id) == -1,
    ensures
        first_index(tabs, id) == k - 1,
    decreases tabs.len() - k,
{
    assert(tabs.take(k).drop_last() =~= tabs.take(k - 1));
    if k < tabs.len() {
        lemma_first_index_extend(tabs, k, id);
    } else {
        assert(tabs.take(k) =~= tabs);
    }
}

proof fn lemma_first_index_extend(tabs: Seq<TabViewState>, k: int, id: Seq<char>)
    requires
        1 <= k <= tabs.len(),
        first_index(tabs.take(k), id) >= 0,
    ensures
        first_index(tabs, id) == first_index(tabs.take(k), id),
    decreases tabs.len() - k,
{
    if k < tabs.len() {
        assert(tabs.take(k + 1).drop_last() =~= tabs.take(k));
        lemma_first_index_extend(tabs, k + 1, id);
    } else {
        assert(tabs.take(k) =~= tabs);
    }
}

/// The first index, when there is one, names a tab with that id.
pub proof fn lemma_first_index_valid(tabs: Seq<TabViewState>, id: Seq<char>)
    ensures
        first_index(tabs, id) >= 0 ==> first_index(tabs, id) < tabs.len() && tabs[first_index(
            tabs,
            id,
        )].id@ == id,
        first_index(tabs, id) >= -1,
        first_index(tabs, id) >= 0 <==> has_tab(tabs, id),
    decreases tabs.len(),
{
    if tabs.len() > 0 {
        lemma_first_index_valid(tabs.drop_last(), id);
        if has_tab(tabs, id) {
            let i = choose|i: int| 0 <= i < tabs.len() && #[trigger] tabs[i].id@ == id;
            if i < tabs.len() - 1 {
                assert(tabs.drop_last()[i].id@ == id);
            }
        }
        if has_tab(tabs.drop_last(), id) {
            let i = choose|i: int|
                0 <= i < tabs.drop_last().len() && #[trigger] tabs.drop_last()[i].id@ == id;
            assert(tabs[i].id@ == id);
        }
    }
}

/// A tab is kept by `without_tab` exactly when its id differs.
pub proof fn lemma_without_tab_members(tabs: Seq<TabViewState>, id: Seq<char>, other: Seq<char>)
    ensures
        has_tab(without_tab(tabs, id), other) <==> (other != id && has_tab(tabs, other)),
        forall|i: int|
            0 <= i < without_tab(tabs, id).len() ==> #[trigger] without_tab(tabs, id)[i].id@ != id,
    decreases tabs.len(),
{
    if tabs.len() > 0 {
        let rest = tabs.drop_last();
        let last = tabs.last();
        lemma_without_tab_members(rest, id, other);
        let inner = without_tab(rest, id);
        let kept = without_tab(tabs, id);
        if last.id@ == id {
            assert(kept == inner);
        } else {
            assert(kept == inner.push(last));
        }
        assert forall|i: int| 0 <= i < kept.len() implies #[trigger] kept[i].id@ != id by {
            if last.id@ != id && i == kept.len() - 1 {
            } else {
                assert(kept[i] == inner[i]);
            }
        }
        if other != id && has_tab(tabs, other) {
            let i = choose|i: int| 0 <= i < tabs.len() && #[trigger] tabs[i].id@ == other;
            if i < tabs.len() - 1 {
                assert(rest[i].id@ == other);
                assert(has_tab(rest, other));
                let j = choose|j: int| 0 <= j < inner.len() && #[trigger] inner[j].id@ == other;
                assert(kept[j].id@ == other);
            } else {
                assert(last.id@ == other);
                assert(kept[kept.len() - 1].id@ == other);
            }
            assert(has_tab(kept, other));
        }
        if has_tab(kept, other) {
            let i = choose|i: int| 0 <= i < kept.len() && #[trigger] kept[i].id@ == other;
            assert(kept[i].id@ != id);
            if last.id@ != id && i == kept.len() - 1 {
                assert(tabs[tabs.len() - 1].id@ == other);
            } else {
                assert(inner[i].id@ == other);
                assert(has_tab(inner, other));
                let j = choose|j: int| 0 <= j < rest.len() && #[trigger] rest[j].id@ == other;
                assert(tabs[j].id@ == other);
            }
            assert(has_tab(tabs, other));
        }
    }
}

proof fn lemma_choice_is_kept(w: BrowserWindowModel, tab_id: Seq<char>)
    ensures
        close_choice(w, tab_id) matches Some(c) ==> has_tab(without_tab(w.tabs@, tab_id), c),
{
    let kept = without_tab(w.tabs@, tab_id);
    if kept.len() > 0 {
        if opt_view(w.active_tab_id) == Some(tab_id) {
            let removed = if first_index(w.tabs@, tab_id) >= 0 {
                first_index(w.tabs@, tab_id)
            } else {
                0
            };
            lemma_first_index_valid(w.tabs@, tab_id);
            let next = if removed < kept.len() - 1 {
                removed
            } else {
                kept.len() - 1
            };
            assert(kept[next].id@ == close_choice(w, tab_id)->0);
        } else if w.active_tab_id is Some && has_tab(kept, w.active_tab_id->0@) {
        } else {
            assert(kept[kept.len() - 1].id@ == close_choice(w, tab_id)->0);
        }
    }
}

proof fn lemma_same_ids_keep_wf(a: BrowserWindowModel, b: BrowserWindowModel)
    requires
        a.active_tab_id == b.active_tab_id,
        a.tabs@.len() == b.tabs@.len(),
        forall|i: int| 0 <= i < a.tabs@.len() ==> a.tabs@[i].id == b.tabs@[i].id,
    ensures
        a.wf() ==> b.wf(),
{
    if a.wf() && b.active_tab_id is Some {
        let x = b.active_tab_id->0@;
        let i = choose|i: int| 0 <= i < a.tabs@.len() && #[trigger] a.tabs@[i].id@ == x;
        assert(b.tabs@[i].id@ == x);
    }
}

/// Closing a background tab keeps the active tab: when the active tab is
/// open and is not the closed one, it stays active.
pub proof fn lemma_close_background_keeps_active(w: BrowserWindowModel, tab_id: Seq<char>)
    requires
        w.wf(),
        w.active_tab_id is Some,
        w.active_tab_id->0@ != tab_id,
    ensures
        close_choice(w, tab_id) == Some(w.active_tab_id->0@),
{
    let a = w.active_tab_id->0@;
    lemma_without_tab_members(w.tabs@, tab_id, a);
    let kept = without_tab(w.tabs@, tab_id);
    let i = choose|i: int| 0 <= i < kept.len() && #[trigger] kept[i].id@ == a;
    assert(kept.len() > 0);
}

/// After a close, no tab with the closed id remains and the window stays
/// well formed.
pub proof fn lemma_close_removes_tab(w: BrowserWindowModel, tab_id: Seq<char>)
    ensures
        !has_tab(without_tab(w.tabs@, tab_id), tab_id),
{
    lemma_without_tab_members(w.tabs@, tab_id, tab_id);
}

/// `without_tab` keeps a sequence that has no tab with the id unchanged.
proof fn lemma_without_absent(tabs: Seq<TabViewState>, id: Seq<char>)
    requires
        forall|j: int| 0 <= j < tabs.len() ==> #[trigger] tabs[j].id@ != id,
    ensures
        without_tab(tabs, id) == tabs,
    decreases tabs.len(),
{
    if tabs.len() > 0 {
        let rest = tabs.drop_last();
        assert forall|j: int| 0 <= j < rest.len() implies #[trigger] rest[j].id@ != id by {
            assert(rest[j] == tabs[j]);
        }
        lemma_without_absent(rest, id);
        assert(tabs.last().id@ != id);
        assert(rest.push(tabs.last()) =~= tabs);
    }
}

/// When exactly one tab, at position `i`, has the id, closing it removes
/// that position and nothing else: the other tabs stay, in their order.
pub proof fn lemma_without_single(tabs: Seq<TabViewState>, id: Seq<char>, i: int)
    requires
        0 <= i < tabs.len(),
        tabs[i].id@ == id,
        forall|j: int| 0 <= j < tabs.len() && j != i ==> #[trigger] tabs[j].id@ != id,
    ensures
        without_tab(tabs, id) == tabs.remove(i),
    decreases tabs.len(),
{
    let rest = tabs.drop_last();
    if i == tabs.len() - 1 {
        assert forall|j: int| 0 <= j < rest.len() implies #[trigger] rest[j].id@ != id by {
            assert(rest[j] == tabs[j]);
        }
        lemma_without_absent(rest, id);
        assert(tabs.remove(i) =~= rest);
    } else {
        assert(rest[i] == tabs[i]);
        assert forall|j: int| 0 <= j < rest.len() && j != i implies #[trigger] rest[j].id@ != id by {
            assert(rest[j] == tabs[j]);
        }
        lemma_without_single(rest, id, i);
        assert(tabs.last().id@ != id);
        assert(rest.remove(i).push(tabs.last()) =~= tabs.remove(i));
    }
}

/// Closing the active tab hands activity to its neighbour: with the active
/// tab at position `i` (its id held by no other tab), the tab right after
/// it becomes active; when it was the last tab, the one right before it;
/// when it was the only tab, none.
pub proof fn lemma_close_active_falls_forward(w: BrowserWindowModel, tab_id: Seq<char>, i: int)
    requires
        opt_view(w.active_tab_id) == Some(tab_id),
        0 <= i < w.tabs@.len(),
        w.tabs@[i].id@ == tab_id,
        forall|j: int| 0 <= j < w.tabs@.len() && j != i ==> #[trigger] w.tabs@[j].id@ != tab_id,
    ensures
        i + 1 < w.tabs@.len() ==> close_choice(w, tab_id) == Some(w.tabs@[i + 1].id@),
        i + 1 == w.tabs@.len() && i > 0 ==> close_choice(w, tab_id) == Some(w.tabs@[i - 1].id@),
        w.tabs@.len() == 1 ==> close_choice(w, tab_id) is None,
{
    let tabs = w.tabs@;
    lemma_without_single(tabs, tab_id, i);
    lemma_first_index_valid(tabs, tab_id);
    assert(has_tab(tabs, tab_id)) by {
        assert(tabs[i].id@ == tab_id);
    }
    let f = first_index(tabs, tab_id);
    assert(f == i);
    let kept = without_tab(tabs, tab_id);
    assert(kept.len() == tabs.len() - 1);
    if i + 1 < tabs.len() {
        assert(kept[i] == tabs[i + 1]);
    } else if i > 0 {
        assert(kept[i - 1] == tabs[i - 1]);
    }
}

/// Closing a tab when no tab is active makes the last remaining tab
/// active: with the closed id held only by the tab at position `i`, that is
/// the last tab of the window, or the one before it when the closed tab was
/// the last.
pub proof fn lemma_close_without_active_picks_last(
    w: BrowserWindowModel,
    tab_id: Seq<char>,
    i: int,
)
    requires
        w.active_tab_id is None,
        0 <= i < w.tabs@.len(),
        w.tabs@.len() >= 2,
        w.tabs@[i].id@ == tab_id,
        forall|j: int| 0 <= j < w.tabs@.len() && j != i ==> #[trigger] w.tabs@[j].id@ != tab_id,
    ensures
        i + 1 < w.tabs@.len() ==> close_choice(w, tab_id) == Some(w.tabs@.last().id@),
        i + 1 == w.tabs@.len() ==> close_choice(w, tab_id) == Some(
            w.tabs@[w.tabs@.len() - 2].id@,
        ),
{
    let tabs = w.tabs@;
    lemma_without_single(tabs, tab_id, i);
    let kept = without_tab(tabs, tab_id);
    assert(kept.len() == tabs.len() - 1);
    if i + 1 < tabs.len() {
        assert(kept[kept.len() - 1] == tabs[tabs.len() - 1]);
    } else {
        assert(kept[kept.len() - 1] == tabs[tabs.len() - 2]);
    }
}

} // verus!
