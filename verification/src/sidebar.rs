//! The sidebar: its ordered components and which has focus, the
//! similar-songs list, and how keys, clicks and the wheel reach the
//! component under them.
use vstd::prelude::*;

use crate::geometry::Rect;
use crate::keys::Action;
use crate::layout::SidebarComponent;
use crate::lyrics::{clamp_int, LyricsAction, LyricsViewState, PlaybackCommand};

verus! {

/// Runtime sidebar component ids, mapped from the configured components.
#[derive(Debug, Clone, Copy, PartialEq, Eq, Structural)]
pub enum SidebarComponentId {
    Lyrics,
    SimilarSongs,
}

/// The runtime id of a configured component.
pub open spec fn component_id(c: SidebarComponent) -> SidebarComponentId {
    match c {
        SidebarComponent::Lyrics => SidebarComponentId::Lyrics,
        SidebarComponent::SimilarSongs => SidebarComponentId::SimilarSongs,
    }
}

impl From<SidebarComponent> for SidebarComponentId {
    fn from(c: SidebarComponent) -> (r: Self) {
        match c {
            SidebarComponent::Lyrics => SidebarComponentId::Lyrics,
            SidebarComponent::SimilarSongs => SidebarComponentId::SimilarSongs,
        }
    }
}

impl vstd::std_specs::convert::FromSpecImpl<SidebarComponent> for SidebarComponentId {
    open spec fn obeys_from_spec() -> bool {
        true
    }

    open spec fn from_spec(v: SidebarComponent) -> Self {
        component_id(v)
    }
}

/// The sidebar component order and which component has keyboard focus.
pub struct SidebarState {
    pub order: Vec<SidebarComponentId>,
    pub focused_component: usize,
}

/// The runtime order of configured components.
pub open spec fn order_of(components: Seq<SidebarComponent>) -> Seq<SidebarComponentId> {
    components.map_values(|c: SidebarComponent| component_id(c))
}

/// The runtime order of the configured components.
fn map_order(components: &Vec<SidebarComponent>) -> (r: Vec<SidebarComponentId>)
    ensures
        r@ == order_of(components@),
{
    let mut r: Vec<SidebarComponentId> = Vec::new();
    let mut i: usize = 0;
    while i < components.len()
        invariant
            i <= components.len(),
            r@ == order_of(components@.take(i as int)),
        decreases components.len() - i,
    {
        r.push(SidebarComponentId::from(components[i]));
        assert(order_of(components@.take(i + 1)) =~= order_of(components@.take(i as int)).push(
            component_id(components@[i as int])));
        i = i + 1;
    }
    assert(components@.take(components.len() as int) =~= components@);
    r
}

impl SidebarState {
    /// Builds the runtime order from the configured components, focusing the
    /// first.
    pub fn from_config(components: &Vec<SidebarComponent>) -> (r: Self)
        ensures
            r.order@ == order_of(components@),
            r.focused_component == 0,
    {
        SidebarState { order: map_order(components), focused_component: 0 }
    }

    /// Rebuilds the order from the configured components, keeping the
    /// focused index within the new order so focus doesn't drift past the
    /// end.
    pub fn update_from_config(&mut self, components: &Vec<SidebarComponent>)
        ensures
            final(self).order@ == order_of(components@),
            final(self).focused_component == (if components@.len() == 0 {
                0
            } else if old(self).focused_component <= components@.len() - 1 {
                old(self).focused_component as int
            } else {
                components@.len() - 1
            }),
    {
        let order = map_order(components);
        if order.len() == 0 {
            self.focused_component = 0;
        } else if self.focused_component > order.len() - 1 {
            self.focused_component = order.len() - 1;
        }
        self.order = order;
    }

    /// Whether the sidebar has any components.
    pub fn is_empty(&self) -> (b: bool)
        ensures
            b == (self.order@.len() == 0),
    {
        self.order.len() == 0
    }

    /// Whether the similar-songs list is one of the components.
    pub fn similar_songs_enabled(&self) -> (b: bool)
        ensures
            b == self.order@.contains(SidebarComponentId::SimilarSongs),
    {
        let mut i: usize = 0;
        while i < self.order.len()
            invariant
                i <= self.order.len(),
                forall|k: int| 0 <= k < i ==> self.order@[k] != SidebarComponentId::SimilarSongs,
            decreases self.order.len() - i,
        {
            if self.order[i] == SidebarComponentId::SimilarSongs {
                return true;
            }
            i = i + 1;
        }
        false
    }

    /// The focused component, if the focus index names one.
    pub fn focused(&self) -> (r: Option<SidebarComponentId>)
        ensures
            self.focused_component < self.order@.len() ==> r == Some(self.order@[self.focused_component as int]),
            self.focused_component >= self.order@.len() ==> r is None,
    {
        if self.focused_component < self.order.len() {
            Some(self.order[self.focused_component])
        } else {
            None
        }
    }
}

// ── Similar songs ────────────────────────────────────────────────────────

/// One entry of a similar-songs reply: its id, and whether it is a
/// directory rather than a track.
pub struct SimilarEntry {
    pub id: String,
    pub is_dir: bool,
}

/// A similar-songs reply: the track it is for, and the entries.
pub struct SimilarSongsData {
    pub track_id: String,
    pub similar: Vec<SimilarEntry>,
}

/// The similar-songs list: the track ids, the track they were fetched for,
/// the keyboard selection, whether a fetch is in flight, the scroll
/// position and viewport height, and a click waiting for mouse-up
/// (`(x, y, index)`) with the row where a drag began.
pub struct SimilarSongsState {
    pub results: Vec<String>,
    pub track_id: Option<String>,
    pub selected_index: usize,
    pub loading: bool,
    pub scroll_line: usize,
    pub visible_height: usize,
    pub click_pending: Option<(u16, u16, usize)>,
    pub drag_last_y: Option<u16>,
}

/// The track ids of the entries that are not directories, in order.
pub open spec fn playable_ids(entries: Seq<SimilarEntry>) -> Seq<Seq<char>>
    decreases entries.len(),
{
    if entries.len() == 0 {
        Seq::empty()
    } else {
        let prev = playable_ids(entries.drop_last());
        if entries.last().is_dir { prev } else { prev.push(entries.last().id@) }
    }
}

/// The ids held, as values.
pub open spec fn ids(v: Seq<String>) -> Seq<Seq<char>> {
    v.map_values(|t: String| t@)
}

impl SimilarSongsState {
    /// An empty list, not fetched.
    pub fn new() -> (r: Self)
        ensures
            r.results@.len() == 0,
            r.track_id is None,
            r.selected_index == 0,
            !r.loading,
            r.scroll_line == 0,
            r.visible_height == 0,
            r.click_pending is None,
            r.drag_last_y is None,
    {
        SimilarSongsState {
            results: Vec::new(),
            track_id: None,
            selected_index: 0,
            loading: false,
            scroll_line: 0,
            visible_height: 0,
            click_pending: None,
            drag_last_y: None,
        }
    }

    /// Resets all state for a new track.
    pub fn reset(&mut self)
        ensures
            final(self).results@.len() == 0,
            final(self).track_id is None,
            final(self).selected_index == 0,
            !final(self).loading,
            final(self).scroll_line == 0,
            final(self).visible_height == 0,
            final(self).click_pending is None,
            final(self).drag_last_y is None,
    {
        self.results = Vec::new();
        self.track_id = None;
        self.selected_index = 0;
        self.loading = false;
        self.scroll_line = 0;
        self.visible_height = 0;
        self.click_pending = None;
        self.drag_last_y = None;
    }

    /// Marks a fetch as in flight for `track_id`: no results yet, selection
    /// at the top.
    pub fn on_fetch_started(&mut self, track_id: &String)
        ensures
            final(self).track_id matches Some(t) && t@ == track_id@,
            final(self).loading,
            final(self).results@.len() == 0,
            final(self).selected_index == 0,
            final(self).scroll_line == old(self).scroll_line,
            final(self).visible_height == old(self).visible_height,
            final(self).click_pending == old(self).click_pending,
            final(self).drag_last_y == old(self).drag_last_y,
    {
        self.track_id = Some(track_id.clone());
        self.loading = true;
        self.results = Vec::new();
        self.selected_index = 0;
    }

    /// Takes a reply: the list is for its track, no longer loading, and
    /// holds its entries that are tracks (directories are dropped), with the
    /// selection moved to the top if it fell off the end.
    pub fn on_loaded(&mut self, data: &SimilarSongsData)
        ensures
            final(self).track_id matches Some(t) && t@ == data.track_id@,
            !final(self).loading,
            ids(final(self).results@) == playable_ids(data.similar@),
            final(self).selected_index == (if old(self).selected_index >= playable_ids(data.similar@).len() {
                0
            } else {
                old(self).selected_index
            }),
            final(self).scroll_line == old(self).scroll_line,
            final(self).visible_height == old(self).visible_height,
            final(self).click_pending == old(self).click_pending,
            final(self).drag_last_y == old(self).drag_last_y,
    {
        self.track_id = Some(data.track_id.clone());
        self.loading = false;
        let mut results: Vec<String> = Vec::new();
        let mut i: usize = 0;
        assert(data.similar@.take(0) =~= Seq::<SimilarEntry>::empty());
        while i < data.similar.len()
            invariant
                i <= data.similar.len(),
                ids(results@) == playable_ids(data.similar@.take(i as int)),
            decreases data.similar.len() - i,
        {
            let ghost t = data.similar@.take(i + 1);
            assert(t.drop_last() =~= data.similar@.take(i as int));
            assert(t.last() == data.similar@[i as int]);
            if !data.similar[i].is_dir {
                let ghost before = ids(results@);
                results.push(data.similar[i].id.clone());
                assert(ids(results@) =~= before.push(data.similar@[i as int].id@));
            }
            i = i + 1;
        }
        assert(data.similar@.take(data.similar.len() as int) =~= data.similar@);
        self.results = results;
        if self.selected_index >= self.results.len() {
            self.selected_index = 0;
        }
    }

    /// Scrolls so the selected row is inside the viewport (nothing changes
    /// for an empty viewport).
    pub fn ensure_selection_visible(&mut self)
        requires
            old(self).scroll_line + old(self).visible_height <= usize::MAX,
            old(self).selected_index < usize::MAX,
        ensures
            final(self).scroll_line == visible_line(old(self).selected_index, old(self).scroll_line,
                old(self).visible_height),
            final(self).selected_index == old(self).selected_index,
            final(self).results == old(self).results,
            final(self).track_id == old(self).track_id,
            final(self).loading == old(self).loading,
            final(self).visible_height == old(self).visible_height,
            final(self).click_pending == old(self).click_pending,
            final(self).drag_last_y == old(self).drag_last_y,
    {
        let visible_height = self.visible_height;
        if visible_height == 0 {
            return;
        }
        if self.selected_index < self.scroll_line {
            self.scroll_line = self.selected_index;
        } else if self.selected_index >= self.scroll_line + visible_height {
            self.scroll_line = self.selected_index + 1 - visible_height;
        }
    }
}

/// The first visible line that keeps line `selected` in a viewport of
/// `height` lines now starting at `line`.
pub open spec fn visible_line(selected: usize, line: usize, height: usize) -> int {
    if height == 0 {
        line as int
    } else if selected < line {
        selected as int
    } else if selected >= line + height {
        selected + 1 - height
    } else {
        line as int
    }
}

/// Moves the selection by `delta` rows within the results (nothing happens
/// when there are none) and keeps it visible.
pub fn move_selection_by(state: &mut SimilarSongsState, delta: i32)
    requires
        old(state).results@.len() <= i32::MAX,
        i32::MIN <= (old(state).selected_index as i32) + delta <= i32::MAX,
        old(state).scroll_line + old(state).visible_height <= usize::MAX,
    ensures
        old(state).results@.len() == 0 ==> *final(state) == *old(state),
        old(state).results@.len() > 0 ==> {
            let n = clamp_int((old(state).selected_index as i32) + delta, 0, (old(state).results@.len() as i32) - 1);
            &&& final(state).selected_index == n
            &&& final(state).scroll_line == visible_line(n as usize, old(state).scroll_line, old(state).visible_height)
            &&& final(state).results == old(state).results
        },
{
    if state.results.len() == 0 {
        return;
    }
    let v = state.selected_index as i32 + delta;
    let hi = state.results.len() as i32 - 1;
    let new_index: i32 = if v < 0 { 0 } else if v > hi { hi } else { v };
    state.selected_index = new_index as usize;
    state.ensure_selection_visible();
}

/// The results area inside the similar-songs block's border.
pub open spec fn results_area_spec(area: Rect) -> Rect {
    Rect {
        x: (area.x + 1) as u16,
        y: (area.y + 1) as u16,
        width: crate::geometry::sat_sub(area.width as int, 2) as u16,
        height: crate::geometry::sat_sub(area.height as int, 2) as u16,
    }
}

/// The rect covering the similar-songs results list (inside the border).
pub fn results_area(area: Rect) -> (r: Rect)
    requires
        area.x < u16::MAX,
        area.y < u16::MAX,
    ensures
        r == results_area_spec(area),
{
    Rect { x: area.x + 1, y: area.y + 1, width: area.width.saturating_sub(2), height: area.height.saturating_sub(2) }
}

impl SimilarSongsState {
    /// A mouse-down on the list's rows (not its scrollbar) in `area`:
    /// selects the clicked result and holds the click until mouse-up.
    /// Clicks outside the rows, below the last result, or on an empty list
    /// do nothing.
    pub fn handle_content_click(&mut self, area: Rect, x: u16, y: u16)
        requires
            area.x < u16::MAX,
            area.y < u16::MAX,
            results_area_spec(area).wf(),
            old(self).scroll_line + u16::MAX <= usize::MAX,
        ensures
            ({
                let r = results_area_spec(area);
                let idx = old(self).scroll_line + (y - r.y);
                if y < r.y || y >= r.y + r.height || old(self).results@.len() == 0 || idx >= old(self).results@.len() {
                    *final(self) == *old(self)
                } else {
                    &&& final(self).selected_index == idx
                    &&& final(self).click_pending == Some((x, y, idx as usize))
                    &&& final(self).drag_last_y == Some(y)
                    &&& final(self).results == old(self).results
                    &&& final(self).scroll_line == old(self).scroll_line
                }
            }),
    {
        let results = results_area(area);
        if y < results.y || y >= results.y + results.height || self.results.len() == 0 {
            return;
        }
        let row_in_list = (y - results.y) as usize;
        let clicked_index = self.scroll_line + row_in_list;
        if clicked_index < self.results.len() {
            self.selected_index = clicked_index;
            self.click_pending = Some((x, y, clicked_index));
            self.drag_last_y = Some(y);
        }
    }

    /// A mouse-up: the held click (taken either way) plays its result when
    /// the viewport's drag ended idle (no drag or fling happened).
    pub fn handle_mouse_up(&mut self, drag_was_idle: bool) -> (r: Option<String>)
        ensures
            final(self).click_pending is None,
            final(self).results == old(self).results,
            final(self).selected_index == old(self).selected_index,
            !drag_was_idle || old(self).click_pending is None ==> r is None,
            drag_was_idle && old(self).click_pending is Some ==> {
                let idx = old(self).click_pending.unwrap().2;
                &&& idx < old(self).results@.len() ==> (r matches Some(t) && t@ == old(self).results@[idx as int]@)
                &&& idx >= old(self).results@.len() ==> r is None
            },
    {
        let pending = self.click_pending;
        self.click_pending = None;
        if !drag_was_idle {
            return None;
        }
        match pending {
            Some((_, _, index)) => {
                if index < self.results.len() {
                    Some(self.results[index].clone())
                } else {
                    None
                }
            },
            None => None,
        }
    }

    /// A key in the similar-songs list: the arrows move the selection by a
    /// row (stopping at the ends), the page keys by 20, Enter plays the
    /// selected result, the transport keys become commands. Returns the
    /// command and the track to play.
    pub fn handle_key(&mut self, action: Action) -> (r: (Option<PlaybackCommand>, Option<String>))
        requires
            old(self).results@.len() <= i32::MAX,
            old(self).selected_index <= i32::MAX - 20,
            old(self).scroll_line + old(self).visible_height <= usize::MAX,
        ensures
            match action {
                Action::MoveUp => r == (None::<PlaybackCommand>, None::<String>) && if old(self).selected_index > 0 {
                    final(self).selected_index == old(self).selected_index - 1
                        && final(self).scroll_line == visible_line((old(self).selected_index - 1) as usize,
                            old(self).scroll_line, old(self).visible_height)
                } else {
                    *final(self) == *old(self)
                },
                Action::MoveDown => r == (None::<PlaybackCommand>, None::<String>)
                    && if old(self).results@.len() > 0 && old(self).selected_index < old(self).results@.len() - 1 {
                    final(self).selected_index == old(self).selected_index + 1
                        && final(self).scroll_line == visible_line((old(self).selected_index + 1) as usize,
                            old(self).scroll_line, old(self).visible_height)
                } else {
                    *final(self) == *old(self)
                },
                Action::PageUp | Action::PageDown => r == (None::<PlaybackCommand>, None::<String>)
                    && (old(self).results@.len() == 0 ==> *final(self) == *old(self))
                    && (old(self).results@.len() > 0 ==> final(self).selected_index == clamp_int(
                        (old(self).selected_index as i32) + (if action is PageUp { -20i32 } else { 20i32 }), 0,
                        (old(self).results@.len() as i32) - 1)),
                Action::Select => r.0 is None && *final(self) == *old(self) && if old(self).selected_index < old(self).results@.len() {
                    r.1 matches Some(t) && t@ == old(self).results@[old(self).selected_index as int]@
                } else {
                    r.1 is None
                },
                Action::PlayPause => r == (Some(PlaybackCommand::TogglePlayback), None::<String>) && *final(self) == *old(self),
                Action::Next => r == (Some(PlaybackCommand::Next), None::<String>) && *final(self) == *old(self),
                Action::Previous => r == (Some(PlaybackCommand::Previous), None::<String>) && *final(self) == *old(self),
                Action::NextGroup => r == (Some(PlaybackCommand::NextGroup), None::<String>) && *final(self) == *old(self),
                Action::PreviousGroup => r == (Some(PlaybackCommand::PreviousGroup), None::<String>)
                    && *final(self) == *old(self),
                _ => r == (None::<PlaybackCommand>, None::<String>) && *final(self) == *old(self),
            },
    {
        match action {
            Action::MoveUp => {
                if self.selected_index > 0 {
                    self.selected_index = self.selected_index - 1;
                    self.ensure_selection_visible();
                }
                (None, None)
            },
            Action::MoveDown => {
                if self.results.len() > 0 && self.selected_index < self.results.len() - 1 {
                    self.selected_index = self.selected_index + 1;
                    self.ensure_selection_visible();
                }
                (None, None)
            },
            Action::PageUp => {
                move_selection_by(self, -(crate::layout::PAGE_SCROLL_SIZE as i32));
                (None, None)
            },
            Action::PageDown => {
                move_selection_by(self, crate::layout::PAGE_SCROLL_SIZE as i32);
                (None, None)
            },
            Action::Select => {
                if self.selected_index < self.results.len() {
                    (None, Some(self.results[self.selected_index].clone()))
                } else {
                    (None, None)
                }
            },
            Action::PlayPause => (Some(PlaybackCommand::TogglePlayback), None),
            Action::Next => (Some(PlaybackCommand::Next), None),
            Action::Previous => (Some(PlaybackCommand::Previous), None),
            Action::NextGroup => (Some(PlaybackCommand::NextGroup), None),
            Action::PreviousGroup => (Some(PlaybackCommand::PreviousGroup), None),
            _ => (None, None),
        }
    }
}

/// What the similar-songs component shows in its inner area.
#[derive(Debug, Clone, Copy, PartialEq, Eq, Structural)]
pub enum SimilarPanel {
    /// No room.
    Nothing,
    /// "Loading similar songs..."
    Loading,
    /// "No similar songs available for this track."
    NoneFound,
    /// "Not supported by server." (nothing was ever fetched)
    Unsupported,
    /// The results.
    Results,
}

/// What the similar-songs component shows in `inner`.
pub fn similar_panel(state: &SimilarSongsState, inner: Rect) -> (r: SimilarPanel)
    ensures
        r == (if inner.height == 0 || inner.width == 0 {
            SimilarPanel::Nothing
        } else if state.loading {
            SimilarPanel::Loading
        } else if state.results@.len() == 0 {
            if state.track_id is Some { SimilarPanel::NoneFound } else { SimilarPanel::Unsupported }
        } else {
            SimilarPanel::Results
        }),
{
    if inner.height == 0 || inner.width == 0 {
        SimilarPanel::Nothing
    } else if state.loading {
        SimilarPanel::Loading
    } else if state.results.len() == 0 {
        if state.track_id.is_some() { SimilarPanel::NoneFound } else { SimilarPanel::Unsupported }
    } else {
        SimilarPanel::Results
    }
}

/// How each similar-songs row is drawn: whether it is the keyboard
/// selection (shown only while the list has focus) and whether it is
/// underlined (the hovered row, unless it is the selection).
pub fn similar_row_marks(state: &SimilarSongsState, focused: bool, hovered: Option<usize>) -> (r: Vec<(bool, bool)>)
    ensures
        r@.len() == state.results@.len(),
        forall|i: int| 0 <= i < r@.len() ==> #[trigger] r@[i] == ({
            let selected = focused && i == state.selected_index;
            (selected, hovered == Some(i as usize) && !selected)
        }),
{
    let mut r: Vec<(bool, bool)> = Vec::new();
    let mut i: usize = 0;
    while i < state.results.len()
        invariant
            i <= state.results.len(),
            r@.len() == i,
            forall|k: int| 0 <= k < i ==> #[trigger] r@[k] == ({
                let selected = focused && k == state.selected_index;
                (selected, hovered == Some(k as usize) && !selected)
            }),
        decreases state.results.len() - i,
    {
        let selected = focused && i == state.selected_index;
        r.push((selected, hovered == Some(i) && !selected));
        i = i + 1;
    }
    r
}

// ── Routing within the sidebar ───────────────────────────────────────────

/// Actions the sidebar key handler returns to the application.
#[derive(Debug, Clone, Copy, PartialEq, Eq, Structural)]
pub enum SidebarKeyAction {
    TogglePanel,
    Quit,
    SeekRelative(i64),
}

/// A key in the sidebar goes to the focused component: the lyrics view
/// handles it as its own (its Back toggles the panel); the similar-songs
/// list toggles the panel on Back, seeks by the step on the seek keys and
/// handles the rest itself. Without a focused component nothing happens.
/// Returns the action, a playback command, and a track to play.
pub fn handle_key(
    sidebar: &SidebarState,
    lyrics: &mut LyricsViewState,
    similar: &mut SimilarSongsState,
    action: Action,
    current_line: usize,
    seek_step: i64,
) -> (r: (Option<SidebarKeyAction>, Option<PlaybackCommand>, Option<String>))
    requires
        seek_step != i64::MIN,
        crate::lyrics::move_delta(action) matches Some(d) ==> crate::lyrics::move_fits(*old(lyrics), current_line, d),
        old(similar).results@.len() <= i32::MAX,
        old(similar).selected_index <= i32::MAX - 20,
        old(similar).scroll_line + old(similar).visible_height <= usize::MAX,
    ensures
        sidebar.focused_component >= sidebar.order@.len() ==> r == (None::<SidebarKeyAction>, None::<PlaybackCommand>,
            None::<String>) && *final(lyrics) == *old(lyrics) && *final(similar) == *old(similar),
        sidebar.focused_component < sidebar.order@.len() && sidebar.order@[sidebar.focused_component as int]
            == SidebarComponentId::SimilarSongs ==> {
            &&& *final(lyrics) == *old(lyrics)
            &&& action is Back ==> r.0 == Some(SidebarKeyAction::TogglePanel) && *final(similar) == *old(similar)
            &&& action is SeekForward ==> r.0 == Some(SidebarKeyAction::SeekRelative(seek_step)) && *final(similar) == *old(similar)
            &&& action is SeekBackward ==> r.0 == Some(SidebarKeyAction::SeekRelative((-seek_step) as i64))
                && *final(similar) == *old(similar)
        },
        sidebar.focused_component < sidebar.order@.len() && sidebar.order@[sidebar.focused_component as int]
            == SidebarComponentId::Lyrics ==> *final(similar) == *old(similar) && r.2 is None,
{
    let component = match sidebar.focused() {
        Some(c) => c,
        None => {
            return (None, None, None);
        },
    };
    match component {
        SidebarComponentId::Lyrics => {
            let (la, cmd) = crate::lyrics::handle_key(lyrics, action, current_line, seek_step);
            let sa = match la {
                Some(LyricsAction::ToggleLyrics) => Some(SidebarKeyAction::TogglePanel),
                Some(LyricsAction::Quit) => Some(SidebarKeyAction::Quit),
                Some(LyricsAction::SeekRelative(secs)) => Some(SidebarKeyAction::SeekRelative(secs)),
                None => None,
            };
            (sa, cmd, None)
        },
        SidebarComponentId::SimilarSongs => {
            match action {
                Action::Back => (Some(SidebarKeyAction::TogglePanel), None, None),
                Action::SeekForward => (Some(SidebarKeyAction::SeekRelative(seek_step)), None, None),
                Action::SeekBackward => (Some(SidebarKeyAction::SeekRelative(-seek_step)), None, None),
                _ => {
                    let (cmd, track) = similar.handle_key(action);
                    (None, cmd, track)
                },
            }
        },
    }
}

/// The component a wheel event scrolls: the focused one. Scrolling the
/// lyrics (when they have rows) stops their auto-follow. Returns the
/// component to scroll, if any.
pub fn scroll_target(sidebar: &SidebarState, lyrics: &mut LyricsViewState) -> (r: Option<SidebarComponentId>)
    ensures
        sidebar.focused_component >= sidebar.order@.len() ==> r is None && *final(lyrics) == *old(lyrics),
        sidebar.focused_component < sidebar.order@.len() ==> {
            let c = sidebar.order@[sidebar.focused_component as int];
            &&& c == SidebarComponentId::SimilarSongs ==> r == Some(c) && *final(lyrics) == *old(lyrics)
            &&& c == SidebarComponentId::Lyrics && old(lyrics).total_rows == 0 ==> r is None && *final(lyrics) == *old(lyrics)
            &&& c == SidebarComponentId::Lyrics && old(lyrics).total_rows > 0 ==> r == Some(c) && final(lyrics).user_scrolled
                && final(lyrics).scroll_line == old(lyrics).scroll_line
                && final(lyrics).selected_index == old(lyrics).selected_index
        },
{
    match sidebar.focused() {
        None => None,
        Some(SidebarComponentId::Lyrics) => {
            if lyrics.total_rows > 0 {
                lyrics.user_scrolled = true;
                Some(SidebarComponentId::Lyrics)
            } else {
                None
            }
        },
        Some(SidebarComponentId::SimilarSongs) => Some(SidebarComponentId::SimilarSongs),
    }
}

/// The first component whose rows (border included) hold row `y`.
pub open spec fn hit_component(rects: Seq<Rect>, n: int, y: u16) -> Option<int>
    decreases n,
{
    if n <= 0 {
        None
    } else {
        match hit_component(rects, n - 1, y) {
            Some(i) => Some(i),
            None => if n - 1 < rects.len() && rects[n - 1].y <= y < rects[n - 1].y + rects[n - 1].height {
                Some(n - 1)
            } else {
                None
            },
        }
    }
}

/// A component found is one of the first `n` rects.
pub proof fn lemma_hit_component_range(rects: Seq<Rect>, n: int, y: u16)
    ensures
        hit_component(rects, n, y) matches Some(i) ==> 0 <= i < n && i < rects.len(),
    decreases n,
{
    if n > 0 {
        lemma_hit_component_range(rects, n - 1, y);
    }
}

/// Finds the component under row `y` among the first `n` rects.
fn find_component(rects: &Vec<Rect>, n: usize, y: u16) -> (r: Option<usize>)
    requires
        forall|i: int| 0 <= i < rects@.len() ==> (#[trigger] rects@[i]).wf(),
    ensures
        r == (match hit_component(rects@, n as int, y) {
            Some(i) => Some(i as usize),
            None => None::<usize>,
        }),
        r matches Some(i) ==> i < n && i < rects@.len(),
{
    let mut i: usize = 0;
    while i < n
        invariant
            i <= n,
            forall|k: int| 0 <= k < rects@.len() ==> (#[trigger] rects@[k]).wf(),
            hit_component(rects@, i as int, y) is None,
        decreases n - i,
    {
        if i < rects.len() && y >= rects[i].y && y < rects[i].y + rects[i].height {
            proof {
                lemma_hit_component_grows(rects@, i as int + 1, n as int, y);
            }
            return Some(i);
        }
        i = i + 1;
    }
    None
}

/// Once a prefix of the rects holds `y`, more rects give the same component.
pub proof fn lemma_hit_component_grows(rects: Seq<Rect>, m: int, n: int, y: u16)
    requires
        0 <= m <= n,
        hit_component(rects, m, y) is Some,
    ensures
        hit_component(rects, n, y) == hit_component(rects, m, y),
    decreases n - m,
{
    if m < n {
        lemma_hit_component_grows(rects, m, n - 1, y);
    }
}

/// A click in the sidebar at row `y` focuses the component under it (its
/// border included) and returns its index, id and rect; clicks below the
/// components, or in an empty sidebar, do nothing. `rects` are the
/// components' rects in order.
pub fn handle_mouse_click(sidebar: &mut SidebarState, rects: &Vec<Rect>, y: u16)
    -> (r: Option<(usize, SidebarComponentId, Rect)>)
    requires
        forall|i: int| 0 <= i < rects@.len() ==> (#[trigger] rects@[i]).wf(),
    ensures
        final(sidebar).order == old(sidebar).order,
        hit_component(rects@, old(sidebar).order@.len() as int, y) is None ==> r is None
            && final(sidebar).focused_component == old(sidebar).focused_component,
        hit_component(rects@, old(sidebar).order@.len() as int, y) matches Some(i) ==> {
            &&& r == Some((i as usize, old(sidebar).order@[i], rects@[i]))
            &&& final(sidebar).focused_component == i
        },
{
    proof {
        lemma_hit_component_range(rects@, sidebar.order@.len() as int, y);
    }
    match find_component(rects, sidebar.order.len(), y) {
        Some(i) => {
            sidebar.focused_component = i;
            Some((i, sidebar.order[i], rects[i]))
        },
        None => None,
    }
}

/// A drag in the sidebar at row `y` reaches the similar-songs list when it
/// is the component under the row: returns its rect.
pub fn drag_target(sidebar: &SidebarState, rects: &Vec<Rect>, y: u16) -> (r: Option<Rect>)
    requires
        forall|i: int| 0 <= i < rects@.len() ==> (#[trigger] rects@[i]).wf(),
    ensures
        r == (match hit_component(rects@, sidebar.order@.len() as int, y) {
            Some(i) => if sidebar.order@[i] == SidebarComponentId::SimilarSongs { Some(rects@[i]) } else { None },
            None => None,
        }),
{
    proof {
        lemma_hit_component_range(rects@, sidebar.order@.len() as int, y);
    }
    match find_component(rects, sidebar.order.len(), y) {
        Some(i) => if sidebar.order[i] == SidebarComponentId::SimilarSongs { Some(rects[i]) } else { None },
        None => None,
    }
}

/// The boundary a drag at row `y` grabs: the boundary between components
/// `i - 1` and `i` sits on the top row of component `i`, grabbable one row
/// above it too. The first such boundary wins.
pub open spec fn boundary_spec(rects: Seq<Rect>, k: int, y: u16) -> Option<int>
    decreases k,
{
    if k <= 1 {
        None
    } else {
        match boundary_spec(rects, k - 1, y) {
            Some(b) => Some(b),
            None => {
                let top = rects[k - 1].y;
                if crate::geometry::sat_sub(top as int, 1) <= y <= top { Some(k - 2) } else { None }
            },
        }
    }
}

/// Returns the component boundary whose dividing row is under `y` (with a
/// one-row tolerance), or `None`. `rects` are the components' rects.
pub fn boundary_at_y(rects: &Vec<Rect>, y: u16) -> (r: Option<usize>)
    ensures
        r == (match boundary_spec(rects@, rects@.len() as int, y) {
            Some(b) => Some(b as usize),
            None => None::<usize>,
        }),
{
    let mut i: usize = 1;
    while i < rects.len()
        invariant
            1 <= i,
            i <= rects.len() || rects.len() == 0,
            boundary_spec(rects@, i as int, y) is None,
        decreases rects.len() - i,
    {
        let top = rects[i].y;
        if y >= top.saturating_sub(1) && y <= top {
            proof {
                lemma_boundary_grows(rects@, i as int + 1, rects@.len() as int, y);
            }
            return Some(i - 1);
        }
        i = i + 1;
    }
    proof {
        if rects@.len() > 1 {
            assert(i == rects@.len());
        }
    }
    None
}

/// Once a prefix finds a boundary, more rects find the same one.
pub proof fn lemma_boundary_grows(rects: Seq<Rect>, m: int, n: int, y: u16)
    requires
        m <= n,
        boundary_spec(rects, m, y) is Some,
    ensures
        boundary_spec(rects, n, y) == boundary_spec(rects, m, y),
    decreases n - m,
{
    if m < n {
        lemma_boundary_grows(rects, m, n - 1, y);
    }
}

} // verus!
