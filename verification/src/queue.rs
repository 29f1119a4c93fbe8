//! The queue panel: a window of the play queue around the current track,
//! keyboard selection within it, and what Enter or a click plays.
use vstd::prelude::*;

use crate::keys::{Action, Direction};
use crate::lyrics::{clamp_int, PlaybackCommand};

verus! {

/// Number of tracks to show before and after the current track in the queue
/// window.
pub const QUEUE_RADIUS: usize = 50;

/// What a key in the queue panel asks of the application.
#[derive(Debug, Clone, Copy, PartialEq, Eq, Structural)]
pub enum QueueAction {
    ToggleQueue,
    Quit,
}

/// The queue panel's state: the keyboard-selected line (`None` follows the
/// current track) and the scroll offset.
#[derive(Debug, Clone, Copy, PartialEq, Eq, Structural)]
pub struct QueueState {
    pub selected_index: Option<usize>,
    pub scroll_offset: usize,
}

impl QueueState {
    /// Nothing selected, at the top.
    pub fn new() -> (r: Self)
        ensures
            r.selected_index is None,
            r.scroll_offset == 0,
    {
        QueueState { selected_index: None, scroll_offset: 0 }
    }

    /// Back to following the current track, at the top.
    pub fn reset(&mut self)
        ensures
            final(self).selected_index is None,
            final(self).scroll_offset == 0,
    {
        self.selected_index = None;
        self.scroll_offset = 0;
    }
}

/// A window of the play queue: the tracks before the current one, the
/// current one (if anything is queued), and the tracks after it.
pub struct QueueWindow {
    pub before: Vec<String>,
    pub current: Option<String>,
    pub after: Vec<String>,
}

/// The track ids of the window in order, as values.
pub open spec fn window_ids(w: QueueWindow) -> Seq<Seq<char>> {
    w.before@.map_values(|t: String| t@) + (match w.current {
        Some(c) => seq![c@],
        None => Seq::empty(),
    }) + w.after@.map_values(|t: String| t@)
}

/// The window fits in memory: its length can be counted.
pub open spec fn window_fits(w: QueueWindow) -> bool {
    w.before@.len() + 1 + w.after@.len() <= usize::MAX
}

/// The track at `index` of the window, if there is one.
pub fn queue_window_track_at(window: &QueueWindow, index: usize) -> (r: Option<String>)
    requires
        window_fits(*window),
    ensures
        index >= window_ids(*window).len() ==> r is None,
        index < window_ids(*window).len() ==> (r matches Some(t) && t@ == window_ids(*window)[index as int]),
{
    let nb = window.before.len();
    let nc: usize = if window.current.is_some() { 1 } else { 0 };
    let total = nb + nc + window.after.len();
    if index >= total {
        return None;
    }
    if index < nb {
        return Some(window.before[index].clone());
    }
    if index == nb && nc == 1 {
        return match &window.current {
            Some(c) => Some(c.clone()),
            None => None,
        };
    }
    Some(window.after[index - nb - nc].clone())
}

/// The line a move by `delta` selects: from the selected line, or the
/// current track's line when none is selected, clamped to the window,
/// counted in `i32`.
pub open spec fn moved_queue_selection(selected: Option<usize>, current_index: usize, total: int, delta: i32) -> int {
    let from: usize = match selected {
        Some(i) => i,
        None => current_index,
    };
    clamp_int((from as i32) + delta, 0, (total as i32) - 1)
}

/// Moving the selection by `delta` stays within `i32`, as the `i32`
/// arithmetic of the move needs; nothing to check for an empty queue.
pub open spec fn queue_move_fits(state: QueueState, w: QueueWindow, delta: i32) -> bool {
    w.current is Some ==> {
        let from: usize = match state.selected_index {
            Some(i) => i,
            None => w.before@.len() as usize,
        };
        &&& i32::MIN <= (from as i32) + delta <= i32::MAX
        &&& ((w.before@.len() + 1 + w.after@.len()) as i32) >= 1
    }
}

/// Moves the selection by `delta` lines within the window (nothing happens
/// when the queue is empty).
pub fn move_selection(state: &mut QueueState, window: &QueueWindow, delta: i32)
    requires
        window_fits(*window),
        queue_move_fits(*old(state), *window, delta),
    ensures
        window.current is None ==> *final(state) == *old(state),
        window.current is Some ==> *final(state) == (QueueState {
            selected_index: Some(moved_queue_selection(old(state).selected_index, window.before@.len() as usize,
                (window.before@.len() + 1 + window.after@.len()) as int, delta) as usize),
            ..*old(state)
        }),
{
    if window.current.is_none() {
        return;
    }
    let total = window.before.len() + 1 + window.after.len();
    let current_sel = match state.selected_index {
        Some(i) => i,
        None => window.before.len(),
    };
    let v = current_sel as i32 + delta;
    let hi = total as i32 - 1;
    let new_index: i32 = if v < 0 { 0 } else if v > hi { hi } else { v };
    state.selected_index = Some(new_index as usize);
}

/// Enter plays the selected line's track (navigating within the queue) and
/// goes back to following the current track; without a selection nothing
/// happens. Returns the track to play.
pub fn play_selected(state: &mut QueueState, window: &QueueWindow) -> (r: Option<String>)
    requires
        window_fits(*window),
    ensures
        old(state).selected_index is None ==> r is None && *final(state) == *old(state),
        old(state).selected_index matches Some(i) ==> {
            &&& final(state).selected_index is None
            &&& final(state).scroll_offset == old(state).scroll_offset
            &&& (i < window_ids(*window).len() ==> (r matches Some(t) && t@ == window_ids(*window)[i as int]))
            &&& (i >= window_ids(*window).len() ==> r is None)
        },
{
    let selected = match state.selected_index {
        Some(i) => i,
        None => {
            return None;
        },
    };
    let track = queue_window_track_at(window, selected);
    state.selected_index = None;
    track
}

/// The line a click at terminal row `y` lands on in a queue panel drawn in
/// `area` (inside its border), scrolled so the focus line sits half a screen
/// from the top.
pub open spec fn clicked_queue_line(state: QueueState, w: QueueWindow, area_y: u16, area_height: u16, y: u16) -> Option<int> {
    let inner_y = area_y + 1;
    let inner_height = crate::geometry::sat_sub(area_height as int, 2);
    if y < inner_y || y >= inner_y + inner_height || w.current is None {
        None
    } else {
        let focus: int = match state.selected_index {
            Some(i) => i as int,
            None => w.before@.len() as int,
        };
        let offset = crate::geometry::sat_sub(focus, inner_height / 2);
        let idx = offset + (y - inner_y);
        if idx < w.before@.len() + 1 + w.after@.len() { Some(idx) } else { None }
    }
}

/// A click in the queue area plays the clicked track and goes back to
/// following the current track. Returns the track to play.
pub fn handle_mouse_click(state: &mut QueueState, window: &QueueWindow, area_y: u16, area_height: u16, y: u16)
    -> (r: Option<String>)
    requires
        window_fits(*window),
        area_y < u16::MAX,
        (area_y + 1) + crate::geometry::sat_sub(area_height as int, 2) <= u16::MAX,
        (match old(state).selected_index {
            Some(i) => i as int,
            None => window.before@.len() as int,
        }) + u16::MAX <= usize::MAX,
    ensures
        clicked_queue_line(*old(state), *window, area_y, area_height, y) is None ==> r is None
            && *final(state) == *old(state),
        clicked_queue_line(*old(state), *window, area_y, area_height, y) matches Some(idx) ==> {
            &&& (r matches Some(t) && t@ == window_ids(*window)[idx])
            &&& final(state).selected_index is None
            &&& final(state).scroll_offset == old(state).scroll_offset
        },
{
    let inner_y = area_y + 1;
    let inner_height = area_height.saturating_sub(2);
    if y < inner_y || y >= inner_y + inner_height {
        return None;
    }
    if window.current.is_none() {
        return None;
    }
    let total = window.before.len() + 1 + window.after.len();
    let visible_height = inner_height as usize;
    let focus_line = match state.selected_index {
        Some(i) => i,
        None => window.before.len(),
    };
    let scroll_offset = focus_line.saturating_sub(visible_height / 2);
    let row_in_list = (y - inner_y) as usize;
    let clicked_index = scroll_offset + row_in_list;
    if clicked_index < total {
        let track = queue_window_track_at(window, clicked_index);
        state.selected_index = None;
        return track;
    }
    None
}

/// The selection step of a movement key: a line, or a page of 20 lines.
pub open spec fn queue_move_delta(action: Action) -> Option<i32> {
    match action {
        Action::MoveUp => Some(-1i32),
        Action::MoveDown => Some(1i32),
        Action::PageUp => Some(-20i32),
        Action::PageDown => Some(20i32),
        _ => None,
    }
}

/// A playback command of the queue panel: a lyrics-view command, or
/// cycling the playback mode.
#[derive(Debug, Clone, Copy, PartialEq, Eq, Structural)]
pub enum QueueCommand {
    Playback(PlaybackCommand),
    CyclePlaybackMode(Direction),
}

/// What a key in the queue panel does: Back closes it, Quit quits, the
/// arrows and page keys move the selection (20 lines a page), Enter plays
/// the selected track, the transport keys become commands. Returns the
/// action, the command, and the track to play.
pub fn handle_key(state: &mut QueueState, window: &QueueWindow, action: Action)
    -> (r: (Option<QueueAction>, Option<QueueCommand>, Option<String>))
    requires
        window_fits(*window),
        queue_move_delta(action) matches Some(d) ==> queue_move_fits(*old(state), *window, d),
    ensures
        match action {
            Action::Back => r.0 == Some(QueueAction::ToggleQueue) && r.1 is None && r.2 is None && *final(state) == *old(state),
            Action::Quit => r.0 == Some(QueueAction::Quit) && r.1 is None && r.2 is None && *final(state) == *old(state),
            Action::MoveUp | Action::MoveDown | Action::PageUp | Action::PageDown => {
                let d = queue_move_delta(action).unwrap();
                &&& r.0 is None && r.1 is None && r.2 is None
                &&& window.current is None ==> *final(state) == *old(state)
                &&& window.current is Some ==> final(state).selected_index == Some(
                    moved_queue_selection(old(state).selected_index, window.before@.len() as usize,
                        (window.before@.len() + 1 + window.after@.len()) as int, d) as usize)
                &&& final(state).scroll_offset == old(state).scroll_offset
            },
            Action::Select => {
                &&& r.0 is None && r.1 is None
                &&& old(state).selected_index is None ==> r.2 is None && *final(state) == *old(state)
                &&& old(state).selected_index matches Some(i) ==> {
                    &&& final(state).selected_index is None
                    &&& (i < window_ids(*window).len() ==> (r.2 matches Some(t) && t@ == window_ids(*window)[i as int]))
                    &&& (i >= window_ids(*window).len() ==> r.2 is None)
                }
            },
            Action::PlayPause => r == (None::<QueueAction>, Some(QueueCommand::Playback(PlaybackCommand::TogglePlayback)), None::<String>)
                && *final(state) == *old(state),
            Action::Next => r.0 is None && r.1 == Some(QueueCommand::Playback(PlaybackCommand::Next)) && r.2 is None
                && *final(state) == *old(state),
            Action::Previous => r.0 is None && r.1 == Some(QueueCommand::Playback(PlaybackCommand::Previous)) && r.2 is None
                && *final(state) == *old(state),
            Action::NextGroup => r.0 is None && r.1 == Some(QueueCommand::Playback(PlaybackCommand::NextGroup)) && r.2 is None
                && *final(state) == *old(state),
            Action::PreviousGroup => r.0 is None && r.1 == Some(QueueCommand::Playback(PlaybackCommand::PreviousGroup))
                && r.2 is None && *final(state) == *old(state),
            Action::CyclePlaybackMode(dir) => r.0 is None && r.1 == Some(QueueCommand::CyclePlaybackMode(dir)) && r.2 is None
                && *final(state) == *old(state),
            _ => r.0 is None && r.1 is None && r.2 is None && *final(state) == *old(state),
        },
{
    let page = crate::layout::PAGE_SCROLL_SIZE as i32;
    match action {
        Action::Back => (Some(QueueAction::ToggleQueue), None, None),
        Action::Quit => (Some(QueueAction::Quit), None, None),
        Action::MoveUp => {
            move_selection(state, window, -1);
            (None, None, None)
        },
        Action::MoveDown => {
            move_selection(state, window, 1);
            (None, None, None)
        },
        Action::PageUp => {
            move_selection(state, window, -page);
            (None, None, None)
        },
        Action::PageDown => {
            move_selection(state, window, page);
            (None, None, None)
        },
        Action::Select => (None, None, play_selected(state, window)),
        Action::PlayPause => (None, Some(QueueCommand::Playback(PlaybackCommand::TogglePlayback)), None),
        Action::Next => (None, Some(QueueCommand::Playback(PlaybackCommand::Next)), None),
        Action::Previous => (None, Some(QueueCommand::Playback(PlaybackCommand::Previous)), None),
        Action::NextGroup => (None, Some(QueueCommand::Playback(PlaybackCommand::NextGroup)), None),
        Action::PreviousGroup => (None, Some(QueueCommand::Playback(PlaybackCommand::PreviousGroup)), None),
        Action::CyclePlaybackMode(dir) => (None, Some(QueueCommand::CyclePlaybackMode(dir)), None),
        _ => (None, None, None),
    }
}

/// Moves the selection by `delta` lines (for scroll events).
pub fn scroll_selection(state: &mut QueueState, window: &QueueWindow, delta: i32)
    requires
        window_fits(*window),
        queue_move_fits(*old(state), *window, delta),
    ensures
        window.current is None ==> *final(state) == *old(state),
        window.current is Some ==> *final(state) == (QueueState {
            selected_index: Some(moved_queue_selection(old(state).selected_index, window.before@.len() as usize,
                (window.before@.len() + 1 + window.after@.len()) as int, delta) as usize),
            ..*old(state)
        }),
{
    move_selection(state, window, delta);
}

/// How a line of the queue panel is marked.
#[derive(Debug, Clone, Copy, PartialEq, Eq, Structural)]
pub enum QueueMark {
    Playing,
    Selected,
    Unmarked,
}

/// The mark of line `idx`: the current track plays, the selected line is
/// selected.
pub open spec fn queue_mark(idx: int, current_index: int, selected: Option<usize>) -> QueueMark {
    if idx == current_index {
        QueueMark::Playing
    } else if selected == Some(idx as usize) {
        QueueMark::Selected
    } else {
        QueueMark::Unmarked
    }
}

/// The line the queue view focuses: the selected one, else the current
/// track's.
pub open spec fn queue_focus(state: QueueState, w: QueueWindow) -> int {
    match state.selected_index {
        Some(s) => s as int,
        None => w.before@.len() as int,
    }
}

/// The first line the queue view draws in `height` rows: the focus line
/// half a screen from the top, or the first line when it is nearer the top.
pub open spec fn queue_top_line(state: QueueState, w: QueueWindow, height: int) -> int {
    crate::geometry::sat_sub(queue_focus(state, w), height / 2)
}

/// The view puts the focus line on the middle row (row `height / 2`) when
/// at least half a screen of lines comes before it, and draws from the
/// first line otherwise.
pub proof fn lemma_queue_view_centres_focus(state: QueueState, w: QueueWindow, height: int)
    requires
        height >= 0,
    ensures
        queue_focus(state, w) >= height / 2 ==> queue_top_line(state, w, height) + height / 2 == queue_focus(state, w),
        queue_focus(state, w) < height / 2 ==> queue_top_line(state, w, height) == 0,
{
}

/// A click plays the line the view draws on the clicked row: with the
/// panel's inner area starting a row below its top and two rows shorter,
/// row `y` shows line `top + (y - inner top)`, and that is the line played.
pub proof fn lemma_click_plays_drawn_line(state: QueueState, w: QueueWindow, area_y: u16, area_height: u16, y: u16)
    ensures
        clicked_queue_line(state, w, area_y, area_height, y) matches Some(idx) ==>
            idx == queue_top_line(state, w, crate::geometry::sat_sub(area_height as int, 2)) + (y - (area_y + 1)),
{
}

/// A click on the middle row of the queue plays the focused line (the
/// selected one, else the current track), when half a screen of lines comes
/// before it.
pub proof fn lemma_click_middle_plays_focus(state: QueueState, w: QueueWindow, area_y: u16, area_height: u16)
    requires
        w.current is Some,
        area_height >= 3,
        area_y + 1 + area_height <= u16::MAX,
        queue_focus(state, w) >= (area_height - 2) / 2,
        queue_focus(state, w) < w.before@.len() + 1 + w.after@.len(),
    ensures
        clicked_queue_line(state, w, area_y, area_height, (area_y + 1 + (area_height - 2) / 2) as u16)
            == Some(queue_focus(state, w)),
{
}

/// How the queue panel draws its lines: for each line its mark and whether
/// it is dimmed (tracks already played), and the first line shown (the
/// focus line half a screen from the top).
pub fn queue_view(state: &QueueState, window: &QueueWindow, visible_height: usize) -> (r: (Vec<(QueueMark, bool)>, usize))
    requires
        window_fits(*window),
        window.current is Some,
    ensures
        r.0@.len() == window.before@.len() + 1 + window.after@.len(),
        forall|i: int| 0 <= i < r.0@.len() ==> #[trigger] r.0@[i] == (queue_mark(i, window.before@.len() as int,
            state.selected_index), i < window.before@.len()),
        r.1 == queue_top_line(*state, *window, visible_height as int),
{
    let total = window.before.len() + 1 + window.after.len();
    let current = window.before.len();
    let mut lines: Vec<(QueueMark, bool)> = Vec::new();
    let mut i: usize = 0;
    while i < total
        invariant
            i <= total,
            total == window.before@.len() + 1 + window.after@.len(),
            current == window.before@.len(),
            lines@.len() == i,
            forall|k: int| 0 <= k < i ==> #[trigger] lines@[k] == (queue_mark(k, current as int,
                state.selected_index), k < current),
        decreases total - i,
    {
        let mark = if i == current {
            QueueMark::Playing
        } else if state.selected_index == Some(i) {
            QueueMark::Selected
        } else {
            QueueMark::Unmarked
        };
        lines.push((mark, i < current));
        i = i + 1;
    }
    let focus = match state.selected_index {
        Some(s) => s,
        None => current,
    };
    (lines, focus.saturating_sub(visible_height / 2))
}

} // verus!
