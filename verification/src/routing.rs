//! Input routing: which part of the application a key, a click, a drag, a
//! help-bar click or a wheel turn goes to. The event loop asks these
//! functions what to do and performs it.
use vstd::prelude::*;

use crate::app_state::FocusedPanel;
use crate::geometry::{max_u16, sat_sub, Rect};
use crate::layout::{
    content_layout_spec, lemma_screen_plan_composes, lemma_settings_width, plannable, screen_layout_spec,
    settings_width, settings_width_spec, LayoutInput, MainLayout, ScreenLayout, SidebarPosition,
    LYRICS_SIDEBAR_MIN_WIDTH,
};
use crate::lyrics::{compute_sidebar_width_from_drag, drag_width};
use crate::sidebar::{boundary_at_y, boundary_spec};
use crate::keys::{
    album_art_overlay_action, album_art_overlay_action_spec, lyrics_action, lyrics_action_spec, logs_action,
    logs_action_spec, library_action, library_action_spec, playback_mode_dropdown_action,
    playback_mode_dropdown_action_spec, queue_action, queue_action_spec, quit_confirm_action, search_action,
    search_action_spec, settings_action, settings_action_spec, volume_action, volume_action_spec, Action,
    Direction, KeyCode, KeyEvent, KEY_CONFIRM_YES,
};
use crate::layout::SCROLL_WHEEL_STEPS;
use crate::panel::ScrollRegion;

verus! {

// ── Keys ─────────────────────────────────────────────────────────────────

/// What decides where a key goes: the modal layers on top of the panels
/// (album art overlay, quit confirmation, playback-mode dropdown, volume
/// editing), the focused panel, and whether a settings row is being edited.
#[derive(Debug, Clone, Copy, PartialEq, Eq, Structural)]
pub struct KeyContext {
    pub overlay_open: bool,
    pub quit_confirming: bool,
    pub dropdown_open: bool,
    pub volume_editing: bool,
    pub focused_panel: FocusedPanel,
    pub settings_editing: bool,
}

/// Where a key goes.
#[derive(Debug, Clone, Copy, PartialEq, Eq, Structural)]
pub enum KeyRoute {
    /// The key does nothing.
    Ignore,
    /// Close the album art overlay.
    CloseOverlay,
    /// Quit the application.
    Quit,
    /// Dismiss the quit confirmation.
    CancelQuit,
    /// Close the playback-mode dropdown.
    CloseDropdown,
    /// Switch to the playback mode at this index of the mode list.
    SetPlaybackMode(usize),
    /// Step the volume up or down.
    AdjustVolume { up: bool },
    /// Leave volume editing.
    StopVolumeEditing,
    /// Show or hide the sidebar.
    ToggleSidebar,
    /// Hand the action to the key handler of this panel.
    Panel(FocusedPanel, Action),
}

/// The index before `idx` in a cycle of `count` entries.
pub open spec fn prev_index(idx: usize, count: usize) -> usize {
    if idx == 0 { (count - 1) as usize } else { (idx - 1) as usize }
}

/// The index after `idx` in a cycle of `count` entries.
pub open spec fn next_index(idx: usize, count: usize) -> usize {
    ((idx + 1) % (count as int)) as usize
}

/// A panel's action, if its key map gives one.
pub open spec fn to_panel(panel: FocusedPanel, a: Option<Action>) -> KeyRoute {
    match a {
        Some(action) => KeyRoute::Panel(panel, action),
        None => KeyRoute::Ignore,
    }
}

/// Where a key goes. The album art overlay takes every key (Esc, `q` and
/// Enter close it); then the quit confirmation (`y`/Enter quit, anything
/// else cancels); then the playback-mode dropdown (Esc/`q`/Enter close it,
/// the arrows step through the modes, wrapping around, from the current
/// mode or the first); then volume editing. Otherwise the focused panel's
/// key map decides; in the lyrics view the sidebar key toggles the sidebar.
/// `current_mode` is the current playback mode's index among `mode_count`.
pub open spec fn route_key_spec(ctx: KeyContext, key: KeyEvent, current_mode: Option<usize>, mode_count: usize)
    -> KeyRoute {
    if ctx.overlay_open {
        if album_art_overlay_action_spec(key.code) is Some { KeyRoute::CloseOverlay } else { KeyRoute::Ignore }
    } else if ctx.quit_confirming {
        if key.code == KeyCode::Char(KEY_CONFIRM_YES) || key.code == KeyCode::Enter {
            KeyRoute::Quit
        } else {
            KeyRoute::CancelQuit
        }
    } else if ctx.dropdown_open {
        let idx = match current_mode {
            Some(i) => i,
            None => 0,
        };
        match playback_mode_dropdown_action_spec(key.code) {
            Some(Action::Back) | Some(Action::Select) => KeyRoute::CloseDropdown,
            Some(Action::MoveUp) => KeyRoute::SetPlaybackMode(prev_index(idx, mode_count)),
            Some(Action::MoveDown) => KeyRoute::SetPlaybackMode(next_index(idx, mode_count)),
            _ => KeyRoute::Ignore,
        }
    } else if ctx.volume_editing {
        match volume_action_spec(key.code) {
            Some(Action::VolumeUp) => KeyRoute::AdjustVolume { up: true },
            Some(Action::VolumeDown) => KeyRoute::AdjustVolume { up: false },
            Some(Action::Back) => KeyRoute::StopVolumeEditing,
            _ => KeyRoute::Ignore,
        }
    } else {
        match ctx.focused_panel {
            FocusedPanel::Library => to_panel(FocusedPanel::Library, library_action_spec(key.code)),
            FocusedPanel::Search => to_panel(FocusedPanel::Search, search_action_spec(key)),
            FocusedPanel::Lyrics => match lyrics_action_spec(key.code) {
                Some(Action::ToggleSidebar) => KeyRoute::ToggleSidebar,
                a => to_panel(FocusedPanel::Lyrics, a),
            },
            FocusedPanel::Logs => to_panel(FocusedPanel::Logs, logs_action_spec(key.code)),
            FocusedPanel::Queue => to_panel(FocusedPanel::Queue, queue_action_spec(key.code)),
            FocusedPanel::Settings => to_panel(FocusedPanel::Settings,
                settings_action_spec(key.code, ctx.settings_editing)),
        }
    }
}

/// Decides where a key goes; see [`route_key_spec`].
pub fn route_key(ctx: &KeyContext, key: &KeyEvent, current_mode: Option<usize>, mode_count: usize) -> (r: KeyRoute)
    requires
        mode_count > 0,
        current_mode matches Some(i) ==> i < mode_count,
    ensures
        r == route_key_spec(*ctx, *key, current_mode, mode_count),
        r matches KeyRoute::SetPlaybackMode(i) ==> i < mode_count,
{
    if ctx.overlay_open {
        return if album_art_overlay_action(key).is_some() { KeyRoute::CloseOverlay } else { KeyRoute::Ignore };
    }
    if ctx.quit_confirming {
        return match quit_confirm_action(key) {
            Action::Select => KeyRoute::Quit,
            _ => KeyRoute::CancelQuit,
        };
    }
    if ctx.dropdown_open {
        let idx = match current_mode {
            Some(i) => i,
            None => 0,
        };
        return match playback_mode_dropdown_action(key) {
            Some(Action::Back) | Some(Action::Select) => KeyRoute::CloseDropdown,
            Some(Action::MoveUp) => KeyRoute::SetPlaybackMode(if idx == 0 { mode_count - 1 } else { idx - 1 }),
            Some(Action::MoveDown) => KeyRoute::SetPlaybackMode((idx + 1) % mode_count),
            _ => KeyRoute::Ignore,
        };
    }
    if ctx.volume_editing {
        return match volume_action(key) {
            Some(Action::VolumeUp) => KeyRoute::AdjustVolume { up: true },
            Some(Action::VolumeDown) => KeyRoute::AdjustVolume { up: false },
            Some(Action::Back) => KeyRoute::StopVolumeEditing,
            _ => KeyRoute::Ignore,
        };
    }
    let (panel, a) = match ctx.focused_panel {
        FocusedPanel::Library => (FocusedPanel::Library, library_action(key)),
        FocusedPanel::Search => (FocusedPanel::Search, search_action(key)),
        FocusedPanel::Lyrics => {
            let a = lyrics_action(key);
            if a == Some(Action::ToggleSidebar) {
                return KeyRoute::ToggleSidebar;
            }
            (FocusedPanel::Lyrics, a)
        },
        FocusedPanel::Logs => (FocusedPanel::Logs, logs_action(key)),
        FocusedPanel::Queue => (FocusedPanel::Queue, queue_action(key)),
        FocusedPanel::Settings => (FocusedPanel::Settings, settings_action(key, ctx.settings_editing)),
    };
    match a {
        Some(action) => KeyRoute::Panel(panel, action),
        None => KeyRoute::Ignore,
    }
}

/// The entry `direction` of entry `current` in a cycle of `count` entries
/// (from the first entry when `current` is unknown), as the playback-mode
/// and sort-order keys step through their lists.
pub open spec fn cycle_spec(current: Option<usize>, count: usize, direction: Direction) -> usize {
    let idx = match current {
        Some(i) => i,
        None => 0,
    };
    match direction {
        Direction::Forward => next_index(idx, count),
        Direction::Backward => prev_index(idx, count),
    }
}

/// Steps through a list of `count` entries from entry `current`, wrapping
/// around; see [`cycle_spec`].
pub fn cycle_index(current: Option<usize>, count: usize, direction: Direction) -> (r: usize)
    requires
        count > 0,
        current matches Some(i) ==> i < count,
    ensures
        r == cycle_spec(current, count, direction),
        r < count,
{
    let idx = match current {
        Some(i) => i,
        None => 0,
    };
    proof {
        lemma_mode_steps_undo(idx, count);
    }
    match direction {
        Direction::Forward => (idx + 1) % count,
        Direction::Backward => if idx == 0 { count - 1 } else { idx - 1 },
    }
}

/// The modal layers come first: while the album art overlay is open, no key
/// reaches the panels, the dropdown, or the quit confirmation; while the quit
/// confirmation shows, every key either quits or dismisses it.
pub proof fn lemma_modal_layers_capture_keys(ctx: KeyContext, key: KeyEvent, current_mode: Option<usize>, mode_count: usize)
    ensures
        ctx.overlay_open ==> (route_key_spec(ctx, key, current_mode, mode_count) == KeyRoute::CloseOverlay
            || route_key_spec(ctx, key, current_mode, mode_count) == KeyRoute::Ignore),
        !ctx.overlay_open && ctx.quit_confirming ==> (route_key_spec(ctx, key, current_mode, mode_count)
            == KeyRoute::Quit || route_key_spec(ctx, key, current_mode, mode_count) == KeyRoute::CancelQuit),
{
}

/// Stepping down then up through the playback modes returns to the mode
/// started from.
pub proof fn lemma_mode_steps_undo(idx: usize, count: usize)
    requires
        idx < count,
    ensures
        prev_index(next_index(idx, count), count) == idx,
        next_index(prev_index(idx, count), count) == idx,
        next_index(idx, count) < count,
        prev_index(idx, count) < count,
{
    if idx + 1 < count {
        assert((idx + 1) % (count as int) == idx + 1) by (nonlinear_arith)
            requires idx + 1 < count;
    } else {
        assert((idx + 1) % (count as int) == 0) by (nonlinear_arith)
            requires idx + 1 == count;
    }
    if idx == 0 {
        assert((count as int) % (count as int) == 0) by (nonlinear_arith)
            requires count > 0;
    } else {
        assert((idx as int) % (count as int) == idx) by (nonlinear_arith)
            requires 0 < idx < count;
    }
}

// ── Clicks ───────────────────────────────────────────────────────────────

/// The album art overlay as a click sees it: its rectangle, and whether the
/// click is on its close button.
#[derive(Debug, Clone, Copy, PartialEq, Eq, Structural)]
pub struct OverlayHit {
    pub rect: Rect,
    pub on_close_button: bool,
}

/// What decides where a click goes besides the screen layout: the focused
/// panel, the playback-mode dropdown's rectangle while it is open, and the
/// album art overlay while it is open.
#[derive(Debug, Clone, Copy, PartialEq, Eq, Structural)]
pub struct ClickContext {
    pub focused_panel: FocusedPanel,
    pub dropdown: Option<Rect>,
    pub overlay: Option<OverlayHit>,
}

/// Where a left-button press goes.
#[derive(Debug, Clone, Copy, PartialEq, Eq, Structural)]
pub enum ClickRoute {
    /// The press does nothing.
    Ignore,
    /// Switch to the playback mode at this index and close the dropdown.
    SelectPlaybackMode(usize),
    /// Close the playback-mode dropdown.
    CloseDropdown,
    /// Close the album art overlay.
    CloseOverlay,
    /// A click on the now-playing bar.
    NowPlaying,
    /// Seek or set the volume at the click and start a scrub drag.
    StartScrub,
    /// Start resizing the sidebar by its border.
    StartSidebarResize,
    /// Start resizing the settings sidebar by its border.
    StartSettingsResize,
    /// Start dragging the boundary between sidebar components `boundary` and
    /// `boundary + 1`, focusing the sidebar first when `focus_sidebar`.
    SidebarBoundary { focus_sidebar: bool, boundary: usize },
    /// A click on sidebar content, focusing the sidebar first when
    /// `focus_sidebar`.
    SidebarClick { focus_sidebar: bool },
    /// A click on the library, switching focus to it first when `refocus`.
    LibraryClick { refocus: bool },
    /// A click on the search results.
    SearchClick,
    /// A click on the full-panel sidebar components, drawn in the library's
    /// place.
    PanelComponentsClick,
    /// A click on the queue.
    QueueClick,
    /// A click on the settings list.
    SettingsClick,
    /// A click on the help bar.
    HelpBar,
}

/// The dropdown's list area, inside its border.
pub open spec fn dropdown_inner(d: Rect) -> Rect {
    Rect::spec_new((d.x + 1) as u16, (d.y + 1) as u16, sat_sub(d.width as int, 2) as u16,
        sat_sub(d.height as int, 2) as u16)
}

/// Row `y` is one of the rows of `r`.
pub open spec fn in_rows(r: Rect, y: u16) -> bool {
    r.y <= y < r.y + r.height
}

/// The two-column grab band at the settings sidebar's right border.
pub open spec fn on_settings_border(s: Rect, x: u16) -> bool {
    let border_x = s.x + s.width - 1;
    border_x <= x <= border_x + 1
}

/// Where a press of the left button at `(x, y)` goes. The open dropdown
/// takes the press (choosing the mode on the row under it, closing itself
/// when the press is outside its list); then the open album art overlay
/// (the press closes it unless it lands inside and off the close button).
/// Then, in order: the now-playing bar, the scrub row, the sidebar border,
/// the settings border, the sidebar (a component boundary starts a
/// component drag, anything else is a content click; either focuses the
/// sidebar), the inline-lyrics strip (which swallows the press), the library
/// area (by focus: the library, search results, the full-panel components or
/// the queue; the settings preview ignores it), the settings list, and the
/// help bar.
pub open spec fn route_click_spec(ctx: ClickContext, layout: ScreenLayout, component_rects: Seq<Rect>,
    mode_count: usize, x: u16, y: u16) -> ClickRoute {
    if ctx.dropdown is Some {
        let inner = dropdown_inner(ctx.dropdown.unwrap());
        if inner.has(x as int, y as int) {
            if (y - inner.y) < mode_count { ClickRoute::SelectPlaybackMode((y - inner.y) as usize) } else { ClickRoute::Ignore }
        } else {
            ClickRoute::CloseDropdown
        }
    } else if ctx.overlay is Some {
        let o = ctx.overlay.unwrap();
        if !o.on_close_button && o.rect.has(x as int, y as int) { ClickRoute::Ignore } else { ClickRoute::CloseOverlay }
    } else if in_rows(layout.main.now_playing, y) {
        ClickRoute::NowPlaying
    } else if y == layout.main.scrub_bar.y && layout.main.scrub_bar.x <= x < layout.main.scrub_bar.x + layout.main.scrub_bar.width {
        ClickRoute::StartScrub
    } else if layout.over_lyrics_border_spec(x, y) {
        ClickRoute::StartSidebarResize
    } else if ctx.focused_panel == FocusedPanel::Settings && layout.settings is Some
        && on_settings_border(layout.settings.unwrap(), x) {
        ClickRoute::StartSettingsResize
    } else if layout.lyrics_sidebar is Some && layout.lyrics_sidebar.unwrap().has(x as int, y as int) {
        let focus_sidebar = ctx.focused_panel != FocusedPanel::Lyrics;
        match boundary_spec(component_rects, component_rects.len() as int, y) {
            Some(b) => ClickRoute::SidebarBoundary { focus_sidebar, boundary: b as usize },
            None => ClickRoute::SidebarClick { focus_sidebar },
        }
    } else if layout.inline_lyrics is Some && layout.inline_lyrics.unwrap().has(x as int, y as int) {
        ClickRoute::Ignore
    } else if layout.library.has(x as int, y as int) {
        match ctx.focused_panel {
            FocusedPanel::Lyrics => if layout.show_sidebar {
                ClickRoute::LibraryClick { refocus: true }
            } else {
                ClickRoute::PanelComponentsClick
            },
            FocusedPanel::Library => ClickRoute::LibraryClick { refocus: false },
            FocusedPanel::Search => ClickRoute::SearchClick,
            FocusedPanel::Queue => ClickRoute::QueueClick,
            _ => ClickRoute::Ignore,
        }
    } else if ctx.focused_panel == FocusedPanel::Settings && layout.settings is Some
        && layout.settings.unwrap().has(x as int, y as int) {
        ClickRoute::SettingsClick
    } else if in_rows(layout.main.help_bar, y) {
        ClickRoute::HelpBar
    } else {
        ClickRoute::Ignore
    }
}

/// The coordinates the click routing computes with stay in range.
pub open spec fn click_fits(ctx: ClickContext, layout: ScreenLayout) -> bool {
    &&& ctx.dropdown matches Some(d) ==> d.x < u16::MAX && d.y < u16::MAX
    &&& layout.settings matches Some(s) ==> s.x + s.width >= 1
}

/// Whether `(x, y)` is in `r`, computed without overflow.
fn rect_has(r: Rect, x: u16, y: u16) -> (b: bool)
    ensures
        b == r.has(x as int, y as int),
{
    (x as u32) >= (r.x as u32) && (x as u32) < (r.x as u32) + (r.width as u32)
        && (y as u32) >= (r.y as u32) && (y as u32) < (r.y as u32) + (r.height as u32)
}

/// Whether row `y` is one of the rows of `r`.
fn rows_have(r: Rect, y: u16) -> (b: bool)
    ensures
        b == in_rows(r, y),
{
    (y as u32) >= (r.y as u32) && (y as u32) < (r.y as u32) + (r.height as u32)
}

/// Decides where a press of the left button goes; see [`route_click_spec`].
/// `component_rects` are the rects of the sidebar's components in order,
/// and `mode_count` the number of playback modes the dropdown lists.
pub fn route_click(ctx: &ClickContext, layout: &ScreenLayout, component_rects: &Vec<Rect>, mode_count: usize,
    x: u16, y: u16) -> (r: ClickRoute)
    requires
        click_fits(*ctx, *layout),
    ensures
        r == route_click_spec(*ctx, *layout, component_rects@, mode_count, x, y),
{
    if let Some(d) = ctx.dropdown {
        let inner = Rect::new(d.x + 1, d.y + 1, d.width.saturating_sub(2), d.height.saturating_sub(2));
        if rect_has(inner, x, y) {
            let idx = (y - inner.y) as usize;
            return if idx < mode_count { ClickRoute::SelectPlaybackMode(idx) } else { ClickRoute::Ignore };
        }
        return ClickRoute::CloseDropdown;
    }
    if let Some(o) = ctx.overlay {
        return if !o.on_close_button && rect_has(o.rect, x, y) { ClickRoute::Ignore } else { ClickRoute::CloseOverlay };
    }
    if rows_have(layout.main.now_playing, y) {
        return ClickRoute::NowPlaying;
    }
    let scrub = layout.main.scrub_bar;
    if y == scrub.y && x >= scrub.x && (x as u32) < (scrub.x as u32) + (scrub.width as u32) {
        return ClickRoute::StartScrub;
    }
    if layout.over_lyrics_border(x, y) {
        return ClickRoute::StartSidebarResize;
    }
    if ctx.focused_panel == FocusedPanel::Settings {
        if let Some(s) = layout.settings {
            let border_x = (s.x as u32) + (s.width as u32) - 1;
            if (x as u32) >= border_x && (x as u32) <= border_x + 1 {
                return ClickRoute::StartSettingsResize;
            }
        }
    }
    if let Some(sidebar) = layout.lyrics_sidebar {
        if rect_has(sidebar, x, y) {
            let focus_sidebar = ctx.focused_panel != FocusedPanel::Lyrics;
            return match boundary_at_y(component_rects, y) {
                Some(b) => ClickRoute::SidebarBoundary { focus_sidebar, boundary: b },
                None => ClickRoute::SidebarClick { focus_sidebar },
            };
        }
    }
    if let Some(strip) = layout.inline_lyrics {
        if rect_has(strip, x, y) {
            return ClickRoute::Ignore;
        }
    }
    if rect_has(layout.library, x, y) {
        return match ctx.focused_panel {
            FocusedPanel::Lyrics => if layout.show_sidebar {
                ClickRoute::LibraryClick { refocus: true }
            } else {
                ClickRoute::PanelComponentsClick
            },
            FocusedPanel::Library => ClickRoute::LibraryClick { refocus: false },
            FocusedPanel::Search => ClickRoute::SearchClick,
            FocusedPanel::Queue => ClickRoute::QueueClick,
            _ => ClickRoute::Ignore,
        };
    }
    if ctx.focused_panel == FocusedPanel::Settings {
        if let Some(s) = layout.settings {
            if rect_has(s, x, y) {
                return ClickRoute::SettingsClick;
            }
        }
    }
    if rows_have(layout.main.help_bar, y) {
        return ClickRoute::HelpBar;
    }
    ClickRoute::Ignore
}

// ── Drags ────────────────────────────────────────────────────────────────

/// The drags in progress: the scrub bar (or volume slider), the sidebar
/// border, a boundary between sidebar components, the settings border.
#[derive(Debug, Clone, Copy, PartialEq, Eq, Structural)]
pub struct DragState {
    pub scrubbing: bool,
    pub sidebar_resizing: bool,
    pub component_boundary: Option<usize>,
    pub settings_resizing: bool,
}

impl DragState {
    /// No drag in progress.
    pub fn new() -> (r: Self)
        ensures
            !r.scrubbing && !r.sidebar_resizing && r.component_boundary is None && !r.settings_resizing,
    {
        DragState { scrubbing: false, sidebar_resizing: false, component_boundary: None, settings_resizing: false }
    }

    /// Starts the drag a press asked for.
    pub fn start(&mut self, route: ClickRoute)
        ensures
            final(self).scrubbing == (old(self).scrubbing || route == ClickRoute::StartScrub),
            final(self).sidebar_resizing == (old(self).sidebar_resizing || route == ClickRoute::StartSidebarResize),
            final(self).settings_resizing == (old(self).settings_resizing || route == ClickRoute::StartSettingsResize),
            final(self).component_boundary == (match route {
                ClickRoute::SidebarBoundary { boundary, .. } => Some(boundary),
                _ => old(self).component_boundary,
            }),
    {
        match route {
            ClickRoute::StartScrub => self.scrubbing = true,
            ClickRoute::StartSidebarResize => self.sidebar_resizing = true,
            ClickRoute::StartSettingsResize => self.settings_resizing = true,
            ClickRoute::SidebarBoundary { boundary, .. } => self.component_boundary = Some(boundary),
            _ => {},
        }
    }

    /// Ends every drag on release of the button. Returns whether a scrub was
    /// in progress (its position is committed) and whether the
    /// configuration must be saved (a sidebar, component or settings resize
    /// ended).
    pub fn release(&mut self) -> (r: (bool, bool))
        ensures
            *final(self) == (DragState { scrubbing: false, sidebar_resizing: false, component_boundary: None, settings_resizing: false }),
            r.0 == old(self).scrubbing,
            r.1 == (old(self).sidebar_resizing || old(self).component_boundary is Some || old(self).settings_resizing),
    {
        let was_scrubbing = self.scrubbing;
        let save = self.sidebar_resizing || self.component_boundary.is_some() || self.settings_resizing;
        self.scrubbing = false;
        self.sidebar_resizing = false;
        self.component_boundary = None;
        self.settings_resizing = false;
        (was_scrubbing, save)
    }
}

/// What a drag with the left button held does.
#[derive(Debug, Clone, Copy, PartialEq, Eq, Structural)]
pub enum DragRoute {
    /// Nothing.
    Ignore,
    /// Seek or set the volume at column `x` of the scrub row.
    Scrub { x: u16 },
    /// Set the sidebar width.
    SetSidebarWidth(u16),
    /// Move the boundary between sidebar components `b` and `b + 1` to the
    /// pointer, scrolling the component under it.
    MoveComponentBoundary(usize),
    /// Set the settings sidebar width.
    SetSettingsWidth(u16),
    /// Drag-scroll the library.
    Library,
    /// Drag-scroll the search results.
    Search,
    /// Drag-scroll the similar-songs component drawn in `area`.
    SidebarContent(Rect),
}

/// The widest the sidebar may be dragged: half the content, or the minimum
/// if that is more.
pub open spec fn sidebar_drag_max(content_width: u16) -> u16 {
    max_u16(content_width / 2, LYRICS_SIDEBAR_MIN_WIDTH)
}

/// What a drag to `(x, y)` does. A scrub drag follows the pointer's column,
/// kept on the scrub row; a sidebar-border drag sets the sidebar width from
/// the pointer and the sidebar's outer edge, between the minimum and
/// [`sidebar_drag_max`]; a component-boundary drag moves that boundary; a
/// settings-border drag sets the settings width with the clamp the layout
/// uses, over the column the settings and the panel share. Otherwise the
/// focused library or search results drag-scroll, and in the lyrics view the
/// similar-songs component does when it is in the sidebar.
pub open spec fn route_drag_spec(drag: DragState, focused_panel: FocusedPanel, similar_enabled: bool,
    layout: ScreenLayout, x: u16) -> DragRoute {
    let scrub = layout.main.scrub_bar;
    if drag.scrubbing {
        DragRoute::Scrub { x: if x < scrub.x { scrub.x } else if x > scrub.x + scrub.width - 1 {
            (scrub.x + scrub.width - 1) as u16
        } else {
            x
        } }
    } else if drag.sidebar_resizing {
        match layout.lyrics_sidebar {
            Some(s) => {
                let is_left = layout.sidebar_position == SidebarPosition::Left;
                let outer = if is_left { s.x } else { (s.x + s.width) as u16 };
                DragRoute::SetSidebarWidth(drag_width(x, outer, is_left, LYRICS_SIDEBAR_MIN_WIDTH,
                    sidebar_drag_max(layout.main.content.width)) as u16)
            },
            None => DragRoute::Ignore,
        }
    } else if drag.component_boundary is Some {
        if layout.lyrics_sidebar is Some { DragRoute::MoveComponentBoundary(drag.component_boundary.unwrap()) } else { DragRoute::Ignore }
    } else if drag.settings_resizing {
        match layout.settings {
            Some(s) => DragRoute::SetSettingsWidth(settings_width_spec((s.width + layout.panel.width) as u16,
                sat_sub(x as int, s.x as int) as u16)),
            None => DragRoute::Ignore,
        }
    } else if focused_panel == FocusedPanel::Library {
        DragRoute::Library
    } else if focused_panel == FocusedPanel::Search {
        DragRoute::Search
    } else if focused_panel == FocusedPanel::Lyrics && similar_enabled {
        DragRoute::SidebarContent(match layout.lyrics_sidebar {
            Some(s) => s,
            None => layout.library,
        })
    } else {
        DragRoute::Ignore
    }
}

/// The coordinates the drag routing computes with stay in range, as the
/// routing's arithmetic needs.
pub open spec fn drag_fits(drag: DragState, layout: ScreenLayout) -> bool {
    &&& drag.scrubbing ==> layout.main.scrub_bar.width >= 1 && layout.main.scrub_bar.x + layout.main.scrub_bar.width <= u16::MAX
    &&& layout.lyrics_sidebar matches Some(s) ==> s.x + s.width <= u16::MAX
    &&& layout.settings matches Some(s) ==> s.width + layout.panel.width <= u16::MAX
}

/// Decides what a drag to `(x, _)` does; see [`route_drag_spec`].
pub fn route_drag(drag: &DragState, focused_panel: FocusedPanel, similar_enabled: bool, layout: &ScreenLayout, x: u16)
    -> (r: DragRoute)
    requires
        drag_fits(*drag, *layout),
    ensures
        r == route_drag_spec(*drag, focused_panel, similar_enabled, *layout, x),
{
    let scrub = layout.main.scrub_bar;
    if drag.scrubbing {
        let hi = scrub.x + scrub.width - 1;
        let cx = if x < scrub.x { scrub.x } else if x > hi { hi } else { x };
        return DragRoute::Scrub { x: cx };
    }
    if drag.sidebar_resizing {
        return match layout.lyrics_sidebar {
            Some(s) => {
                let is_left = layout.sidebar_position == SidebarPosition::Left;
                let outer = if is_left { s.x } else { s.x + s.width };
                let half = layout.main.content.width / 2;
                let max = if half >= LYRICS_SIDEBAR_MIN_WIDTH { half } else { LYRICS_SIDEBAR_MIN_WIDTH };
                DragRoute::SetSidebarWidth(compute_sidebar_width_from_drag(x, outer, is_left, LYRICS_SIDEBAR_MIN_WIDTH, max))
            },
            None => DragRoute::Ignore,
        };
    }
    if let Some(b) = drag.component_boundary {
        return if layout.lyrics_sidebar.is_some() { DragRoute::MoveComponentBoundary(b) } else { DragRoute::Ignore };
    }
    if drag.settings_resizing {
        return match layout.settings {
            Some(s) => DragRoute::SetSettingsWidth(settings_width(s.width + layout.panel.width, x.saturating_sub(s.x))),
            None => DragRoute::Ignore,
        };
    }
    if focused_panel == FocusedPanel::Library {
        DragRoute::Library
    } else if focused_panel == FocusedPanel::Search {
        DragRoute::Search
    } else if focused_panel == FocusedPanel::Lyrics && similar_enabled {
        DragRoute::SidebarContent(match layout.lyrics_sidebar {
            Some(s) => s,
            None => layout.library,
        })
    } else {
        DragRoute::Ignore
    }
}

/// Dragging the settings border sets a width that the next frame draws
/// unchanged: once the dragged width is configured, the planned settings
/// sidebar is exactly that wide, so the border follows the pointer.
pub proof fn lemma_settings_drag_matches_render(input: LayoutInput, main: MainLayout, x: u16)
    requires
        plannable(main.content),
        input.focused_panel == FocusedPanel::Settings,
    ensures
        ({
            let l = screen_layout_spec(input, main);
            let drag = DragState { scrubbing: false, sidebar_resizing: false, component_boundary: None, settings_resizing: true };
            &&& route_drag_spec(drag, input.focused_panel, false, l, x) is SetSettingsWidth
            &&& {
                let w = route_drag_spec(drag, input.focused_panel, false, l, x)->SetSettingsWidth_0;
                screen_layout_spec(LayoutInput { settings_sidebar_width: w, ..input }, main).settings
                    == Some(Rect { width: w, ..l.settings.unwrap() })
            }
        }),
{
    let l = screen_layout_spec(input, main);
    let column = content_layout_spec(input, main.content).main;
    lemma_screen_plan_composes(input, main);
    let s = l.settings.unwrap();
    let c = sat_sub(x as int, s.x as int) as u16;
    lemma_settings_width(column.width, input.settings_sidebar_width);
    if s.width <= column.width {
        assert(s.width + l.panel.width == column.width);
        lemma_settings_width(column.width, c);
    } else {
        assert(l.panel.width == 0);
        lemma_settings_width(s.width, c);
    }
    let w = settings_width_spec((s.width + l.panel.width) as u16, c);
    let input2 = LayoutInput { settings_sidebar_width: w, ..input };
    lemma_screen_plan_composes(input2, main);
    assert(content_layout_spec(input2, main.content) == content_layout_spec(input, main.content));
}

// ── Help bar ─────────────────────────────────────────────────────────────

/// The action of the first help-bar item whose columns `[start, end)` hold
/// column `x`.
pub open spec fn help_item_at(items: Seq<(u16, u16, Action)>, x: u16) -> Option<Action>
    decreases items.len(),
{
    if items.len() == 0 {
        None
    } else if items[0].0 <= x < items[0].1 {
        Some(items[0].2)
    } else {
        help_item_at(items.drop_first(), x)
    }
}

/// The action of the help-bar item under column `x`, if any.
pub fn help_bar_action(items: &Vec<(u16, u16, Action)>, x: u16) -> (r: Option<Action>)
    ensures
        r == help_item_at(items@, x),
{
    let mut i: usize = 0;
    assert(items@.skip(0) =~= items@);
    while i < items.len()
        invariant
            i <= items.len(),
            help_item_at(items@, x) == help_item_at(items@.skip(i as int), x),
        decreases items.len() - i,
    {
        let (start, end, action) = items[i];
        assert(items@.skip(i as int).drop_first() =~= items@.skip(i + 1));
        assert(items@.skip(i as int)[0] == items@[i as int]);
        if x >= start && x < end {
            return Some(action);
        }
        i = i + 1;
    }
    None
}

/// What a click on a help-bar item does.
#[derive(Debug, Clone, Copy, PartialEq, Eq, Structural)]
pub enum HelpCommand {
    Nothing,
    /// Ask whether to quit.
    ConfirmQuit,
    TogglePlayback,
    Next,
    Previous,
    NextGroup,
    PreviousGroup,
    Stop,
    ToggleSearch,
    ToggleLyrics,
    ToggleSidebar,
    ToggleQueue,
    ToggleLogs,
    /// Start or stop volume editing.
    ToggleVolumeEditing,
    /// Star or unstar the playing track.
    StarPlaying,
    /// Seek by the seek step, forward or back.
    Seek { forward: bool },
    /// Scroll the library to the playing track.
    GotoPlaying,
    CyclePlaybackMode(Direction),
    ToggleSortOrder(Direction),
    ToggleSettings,
    /// Run the action through the settings panel's key handler.
    Settings(Action),
    /// Run Select through the library's key handler.
    LibrarySelect,
    /// Return to the library.
    BackToLibrary,
}

/// The help bar's command for `action` with `focused_panel` focused: the
/// global actions do what their keys do; in the settings panel the editing
/// actions (and `a`, which adds a sidebar component) go to the panel as its
/// keys would; Select reaches the library; Back outside the library returns
/// to it.
pub open spec fn help_command_spec(action: Action, focused_panel: FocusedPanel) -> HelpCommand {
    match action {
        Action::Quit => HelpCommand::ConfirmQuit,
        Action::PlayPause => HelpCommand::TogglePlayback,
        Action::Next => HelpCommand::Next,
        Action::Previous => HelpCommand::Previous,
        Action::NextGroup => HelpCommand::NextGroup,
        Action::PreviousGroup => HelpCommand::PreviousGroup,
        Action::Stop => HelpCommand::Stop,
        Action::Search => HelpCommand::ToggleSearch,
        Action::Lyrics => HelpCommand::ToggleLyrics,
        Action::ToggleSidebar => HelpCommand::ToggleSidebar,
        Action::Queue => HelpCommand::ToggleQueue,
        Action::Logs => HelpCommand::ToggleLogs,
        Action::VolumeMode => HelpCommand::ToggleVolumeEditing,
        Action::Star => HelpCommand::StarPlaying,
        Action::SeekForward => HelpCommand::Seek { forward: true },
        Action::SeekBackward => HelpCommand::Seek { forward: false },
        Action::GotoPlaying => HelpCommand::GotoPlaying,
        Action::CyclePlaybackMode(d) => HelpCommand::CyclePlaybackMode(d),
        Action::ToggleSortOrder(d) => HelpCommand::ToggleSortOrder(d),
        Action::Settings => HelpCommand::ToggleSettings,
        _ => if focused_panel == FocusedPanel::Settings && (action == Action::Select || action == Action::Back
            || action == Action::MoveLeft || action == Action::MoveRight || action == Action::ResetField
            || action == Action::ResetSection || action == Action::DeleteChar || action == Action::Char('a')) {
            HelpCommand::Settings(action)
        } else if action == Action::Select && focused_panel == FocusedPanel::Library {
            HelpCommand::LibrarySelect
        } else if action == Action::Back && focused_panel != FocusedPanel::Library {
            HelpCommand::BackToLibrary
        } else {
            HelpCommand::Nothing
        },
    }
}

/// What a click on the help-bar item for `action` does; see
/// [`help_command_spec`].
pub fn help_command(action: Action, focused_panel: FocusedPanel) -> (r: HelpCommand)
    ensures
        r == help_command_spec(action, focused_panel),
{
    match action {
        Action::Quit => HelpCommand::ConfirmQuit,
        Action::PlayPause => HelpCommand::TogglePlayback,
        Action::Next => HelpCommand::Next,
        Action::Previous => HelpCommand::Previous,
        Action::NextGroup => HelpCommand::NextGroup,
        Action::PreviousGroup => HelpCommand::PreviousGroup,
        Action::Stop => HelpCommand::Stop,
        Action::Search => HelpCommand::ToggleSearch,
        Action::Lyrics => HelpCommand::ToggleLyrics,
        Action::ToggleSidebar => HelpCommand::ToggleSidebar,
        Action::Queue => HelpCommand::ToggleQueue,
        Action::Logs => HelpCommand::ToggleLogs,
        Action::VolumeMode => HelpCommand::ToggleVolumeEditing,
        Action::Star => HelpCommand::StarPlaying,
        Action::SeekForward => HelpCommand::Seek { forward: true },
        Action::SeekBackward => HelpCommand::Seek { forward: false },
        Action::GotoPlaying => HelpCommand::GotoPlaying,
        Action::CyclePlaybackMode(d) => HelpCommand::CyclePlaybackMode(d),
        Action::ToggleSortOrder(d) => HelpCommand::ToggleSortOrder(d),
        Action::Settings => HelpCommand::ToggleSettings,
        _ => {
            let settings_key = match action {
                Action::Select | Action::Back | Action::MoveLeft | Action::MoveRight | Action::ResetField
                | Action::ResetSection | Action::DeleteChar => true,
                Action::Char(c) => c == 'a',
                _ => false,
            };
            if focused_panel == FocusedPanel::Settings && settings_key {
                HelpCommand::Settings(action)
            } else if action == Action::Select && focused_panel == FocusedPanel::Library {
                HelpCommand::LibrarySelect
            } else if action == Action::Back && focused_panel != FocusedPanel::Library {
                HelpCommand::BackToLibrary
            } else {
                HelpCommand::Nothing
            }
        },
    }
}

// ── Mouse wheel ──────────────────────────────────────────────────────────

/// What decides where a wheel turn goes besides the region under the
/// pointer: the focused panel, whether the pointer is over the open
/// playback-mode dropdown, whether a sidebar is shown, and whether it has
/// components.
#[derive(Debug, Clone, Copy, PartialEq, Eq, Structural)]
pub struct WheelContext {
    pub focused_panel: FocusedPanel,
    pub over_open_dropdown: bool,
    pub sidebar_visible: bool,
    pub sidebar_empty: bool,
}

/// What a wheel turn scrolls.
#[derive(Debug, Clone, Copy, PartialEq, Eq, Structural)]
pub enum WheelRoute {
    /// Nothing scrolls.
    Nothing,
    /// The sidebar component with focus scrolls, after focus moves to the
    /// component under the pointer when one is given.
    Sidebar { focus: Option<usize> },
    /// The library scrolls.
    Library,
    /// The queue selection moves by this many rows.
    Queue(i32),
    /// The log view scrolls to this offset.
    Logs(usize),
    /// The search results scroll.
    Search,
    /// The settings selection moves by this many rows.
    Settings(i32),
}

/// The rows a wheel turn of `delta` notches moves: six per notch.
pub open spec fn wheel_steps(delta: i32) -> int {
    (if delta < 0 { -delta } else { delta as int }) * SCROLL_WHEEL_STEPS
}

/// The direction of a wheel turn: -1, 0 or 1.
pub open spec fn wheel_direction(delta: i32) -> int {
    if delta < 0 { -1 } else if delta > 0 { 1 } else { 0 }
}

/// What a wheel turn of `delta` notches scrolls: nothing over the open
/// dropdown; the sidebar component under the pointer (which takes focus);
/// over the library area, the library where it is drawn (Library focus or
/// the lyrics view beside a sidebar) or the focused sidebar component
/// (full-panel lyrics). Anywhere else the focused panel scrolls: the log
/// view moves its offset by the steps, backward saturating at zero and
/// forward capped at the last entry.
pub open spec fn route_wheel_spec(ctx: WheelContext, region: ScrollRegion, delta: i32, log_offset: usize,
    log_len: usize) -> WheelRoute {
    let steps = wheel_steps(delta);
    let direction = wheel_direction(delta);
    if ctx.over_open_dropdown {
        WheelRoute::Nothing
    } else if region is Sidebar {
        WheelRoute::Sidebar { focus: Some(region->component) }
    } else if region == ScrollRegion::Library && ctx.focused_panel == FocusedPanel::Lyrics {
        if ctx.sidebar_visible { WheelRoute::Library } else { WheelRoute::Sidebar { focus: None } }
    } else if region == ScrollRegion::Library && ctx.focused_panel == FocusedPanel::Library {
        WheelRoute::Library
    } else {
        match ctx.focused_panel {
            FocusedPanel::Library => WheelRoute::Library,
            FocusedPanel::Lyrics => if ctx.sidebar_visible || !ctx.sidebar_empty {
                WheelRoute::Sidebar { focus: None }
            } else {
                WheelRoute::Nothing
            },
            FocusedPanel::Queue => WheelRoute::Queue((direction * steps) as i32),
            FocusedPanel::Logs => if direction < 0 {
                WheelRoute::Logs(sat_sub(log_offset as int, steps) as usize)
            } else if log_len > 0 {
                WheelRoute::Logs(if log_offset + steps <= log_len - 1 { (log_offset + steps) as usize } else { (log_len - 1) as usize })
            } else {
                WheelRoute::Logs(log_offset)
            },
            FocusedPanel::Search => WheelRoute::Search,
            FocusedPanel::Settings => WheelRoute::Settings((direction * steps) as i32),
        }
    }
}

/// The step count of a wheel turn fits the signed row deltas and the log
/// offset.
pub open spec fn wheel_fits(delta: i32, log_offset: usize) -> bool {
    wheel_steps(delta) <= i32::MAX && log_offset + wheel_steps(delta) <= usize::MAX
}

/// Decides what a wheel turn of `delta` notches scrolls; see
/// [`route_wheel_spec`]. Returns the route, the step count and the
/// direction.
pub fn route_wheel(ctx: &WheelContext, region: ScrollRegion, delta: i32, log_offset: usize, log_len: usize)
    -> (r: (WheelRoute, usize, i32))
    requires
        wheel_fits(delta, log_offset),
    ensures
        r.0 == route_wheel_spec(*ctx, region, delta, log_offset, log_len),
        r.1 == wheel_steps(delta),
        r.2 == wheel_direction(delta),
{
    let notches: u32 = if delta < 0 { (0i64 - delta as i64) as u32 } else { delta as u32 };
    let steps: usize = (notches as usize) * SCROLL_WHEEL_STEPS;
    let direction: i32 = if delta < 0 { -1 } else if delta > 0 { 1 } else { 0 };
    if ctx.over_open_dropdown {
        return (WheelRoute::Nothing, steps, direction);
    }
    if let ScrollRegion::Sidebar { component } = region {
        return (WheelRoute::Sidebar { focus: Some(component) }, steps, direction);
    }
    if region == ScrollRegion::Library && ctx.focused_panel == FocusedPanel::Lyrics {
        let route = if ctx.sidebar_visible { WheelRoute::Library } else { WheelRoute::Sidebar { focus: None } };
        return (route, steps, direction);
    }
    if region == ScrollRegion::Library && ctx.focused_panel == FocusedPanel::Library {
        return (WheelRoute::Library, steps, direction);
    }
    let signed: i32 = direction * (steps as i32);
    let route = match ctx.focused_panel {
        FocusedPanel::Library => WheelRoute::Library,
        FocusedPanel::Lyrics => if ctx.sidebar_visible || !ctx.sidebar_empty {
            WheelRoute::Sidebar { focus: None }
        } else {
            WheelRoute::Nothing
        },
        FocusedPanel::Queue => WheelRoute::Queue(signed),
        FocusedPanel::Logs => if direction < 0 {
            WheelRoute::Logs(log_offset.saturating_sub(steps))
        } else if log_len > 0 {
            let moved = log_offset + steps;
            WheelRoute::Logs(if moved <= log_len - 1 { moved } else { log_len - 1 })
        } else {
            WheelRoute::Logs(log_offset)
        },
        FocusedPanel::Search => WheelRoute::Search,
        FocusedPanel::Settings => WheelRoute::Settings(signed),
    };
    (route, steps, direction)
}

} // verus!
