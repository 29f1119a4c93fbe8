//! The search panel: the query typed so far, the results, keyboard and
//! mouse selection, and what Enter or a click plays.
use vstd::prelude::*;

use crate::geometry::Rect;
use crate::keys::Action;
use crate::settings::{utf8_len, utf8_width};

verus! {

/// What the search panel asks of the application.
pub enum SearchAction {
    /// Close the search panel.
    ToggleSearch,
    /// Close search and scroll the library to this track.
    GotoTrack(String),
}

/// The search panel's state: the query, the result track ids, the keyboard
/// selection, the scroll position and viewport height, and a click waiting
/// for mouse-up (`(x, y, index)`) with the row where a drag began.
pub struct SearchState {
    pub query: String,
    pub results: Vec<String>,
    pub selected_index: usize,
    pub scroll_line: usize,
    pub visible_height: usize,
    pub click_pending: Option<(u16, u16, usize)>,
    pub drag_last_y: Option<u16>,
}

/// A query is searched once it is at least three bytes long.
pub open spec fn searchable(query: Seq<char>) -> bool {
    utf8_len(query) >= 3
}

/// Whether `query` is long enough to search (three bytes of UTF-8).
pub fn is_searchable(query: &String) -> (b: bool)
    ensures
        b == searchable(query@),
{
    let v = crate::text::chars_of(query.as_str());
    let mut n: usize = 0;
    let mut i: usize = 0;
    assert(v@.take(0) =~= Seq::<char>::empty());
    while i < v.len()
        invariant
            i <= v.len(),
            v@ == query@,
            n == (if utf8_len(v@.take(i as int)) >= 3 { 3 } else { utf8_len(v@.take(i as int)) }),
            utf8_len(v@.take(i as int)) >= 0,
        decreases v.len() - i,
    {
        let c = v[i];
        let w: usize = if (c as u32) < 0x80 { 1 } else if (c as u32) < 0x800 { 2 } else if (c as u32) < 0x10000 { 3 } else { 4 };
        assert(v@.take(i + 1).drop_last() =~= v@.take(i as int));
        assert(v@.take(i + 1).last() == c);
        assert(w == utf8_width(c));
        n = if n + w >= 3 { 3 } else { n + w };
        i = i + 1;
    }
    assert(v@.take(v.len() as int) =~= v@);
    n >= 3
}

/// The ids held, as values.
pub open spec fn result_ids(v: Seq<String>) -> Seq<Seq<char>> {
    v.map_values(|t: String| t@)
}

impl SearchState {
    /// An empty query with no results.
    pub fn new() -> (r: Self)
        ensures
            r.query@.len() == 0,
            r.results@.len() == 0,
            r.selected_index == 0,
            r.scroll_line == 0,
            r.visible_height == 0,
            r.click_pending is None,
            r.drag_last_y is None,
    {
        SearchState {
            query: String::new(),
            results: Vec::new(),
            selected_index: 0,
            scroll_line: 0,
            visible_height: 0,
            click_pending: None,
            drag_last_y: None,
        }
    }

    /// Clears the query, the results and the selection.
    pub fn reset(&mut self)
        ensures
            final(self).query@.len() == 0,
            final(self).results@.len() == 0,
            final(self).selected_index == 0,
            final(self).scroll_line == 0,
            final(self).visible_height == 0,
            final(self).click_pending is None,
            final(self).drag_last_y is None,
    {
        self.query = String::new();
        self.results = Vec::new();
        self.selected_index = 0;
        self.scroll_line = 0;
        self.visible_height = 0;
        self.click_pending = None;
        self.drag_last_y = None;
    }

    /// Takes the results of searching the library for the query: kept when
    /// the query is searchable, none otherwise; the selection and the view go
    /// back to the top.
    pub fn update(&mut self, found: Vec<String>)
        ensures
            searchable(old(self).query@) ==> final(self).results == found,
            !searchable(old(self).query@) ==> final(self).results@.len() == 0,
            final(self).query == old(self).query,
            final(self).selected_index == 0,
            final(self).scroll_line == 0,
            final(self).visible_height == old(self).visible_height,
            final(self).click_pending == old(self).click_pending,
    {
        if is_searchable(&self.query) {
            self.results = found;
        } else {
            self.results = Vec::new();
        }
        self.selected_index = 0;
        self.scroll_line = 0;
    }

    /// Scrolls so the selected result is inside the viewport (nothing changes
    /// for an empty viewport).
    pub fn ensure_selection_visible(&mut self)
        requires
            old(self).scroll_line + old(self).visible_height <= usize::MAX,
            old(self).selected_index < usize::MAX,
        ensures
            final(self).scroll_line == crate::sidebar::visible_line(old(self).selected_index, old(self).scroll_line,
                old(self).visible_height),
            final(self).selected_index == old(self).selected_index,
            final(self).results == old(self).results,
            final(self).query == old(self).query,
            final(self).visible_height == old(self).visible_height,
            final(self).click_pending == old(self).click_pending,
    {
        let visible_height = self.visible_height;
        if visible_height == 0 {
            return;
        }
        if self.selected_index < self.scroll_line {
            self.scroll_line = self.selected_index;
        } else if self.selected_index >= self.scroll_line + visible_height {
            self.scroll_line = self.selected_index + 1 - visible_height;
        }
    }

    /// A key in the search panel: Back closes it; Enter plays the selected
    /// result and closes; the go-to key closes and scrolls the library to
    /// the selected result; the arrows move the selection (stopping at the
    /// ends); editing keys change the query, after which the caller searches
    /// again (the third value is whether the query changed). Returns the
    /// action and the track to play.
    pub fn handle_key(&mut self, action: Action) -> (r: (Option<SearchAction>, Option<String>, bool))
        requires
            old(self).scroll_line + old(self).visible_height <= usize::MAX,
            old(self).selected_index < usize::MAX - 1,
        ensures
            match action {
                Action::Back => r.0 matches Some(SearchAction::ToggleSearch) && r.1 is None && !r.2 && *final(self) == *old(self),
                Action::Select => !r.2 && *final(self) == *old(self) && if old(self).selected_index < old(self).results@.len() {
                    (r.0 matches Some(SearchAction::ToggleSearch))
                        && (r.1 matches Some(t) && t@ == old(self).results@[old(self).selected_index as int]@)
                } else {
                    r.0 is None && r.1 is None
                },
                Action::GotoSelected => !r.2 && r.1 is None && *final(self) == *old(self)
                    && if old(self).selected_index < old(self).results@.len() {
                    r.0 matches Some(SearchAction::GotoTrack(t)) && t@ == old(self).results@[old(self).selected_index as int]@
                } else {
                    r.0 is None
                },
                Action::MoveUp => r.0 is None && r.1 is None && !r.2 && if old(self).selected_index > 0 {
                    final(self).selected_index == old(self).selected_index - 1
                        && final(self).scroll_line == crate::sidebar::visible_line((old(self).selected_index - 1) as usize,
                            old(self).scroll_line, old(self).visible_height)
                        && final(self).query == old(self).query
                } else {
                    *final(self) == *old(self)
                },
                Action::MoveDown => r.0 is None && r.1 is None && !r.2
                    && if old(self).results@.len() > 0 && old(self).selected_index < old(self).results@.len() - 1 {
                    final(self).selected_index == old(self).selected_index + 1
                        && final(self).scroll_line == crate::sidebar::visible_line((old(self).selected_index + 1) as usize,
                            old(self).scroll_line, old(self).visible_height)
                        && final(self).query == old(self).query
                } else {
                    *final(self) == *old(self)
                },
                Action::DeleteChar => r.0 is None && r.1 is None && r.2
                    && final(self).query@ == (if old(self).query@.len() > 0 { old(self).query@.drop_last() } else { old(self).query@ })
                    && final(self).results == old(self).results,
                Action::ClearLine => r.0 is None && r.1 is None && r.2 && final(self).query@.len() == 0
                    && final(self).results == old(self).results,
                Action::Char(c) => r.0 is None && r.1 is None && r.2 && final(self).query@ == old(self).query@.push(c)
                    && final(self).results == old(self).results,
                _ => r.0 is None && r.1 is None && !r.2 && *final(self) == *old(self),
            },
    {
        match action {
            Action::Back => (Some(SearchAction::ToggleSearch), None, false),
            Action::Select => {
                if self.selected_index < self.results.len() {
                    (Some(SearchAction::ToggleSearch), Some(self.results[self.selected_index].clone()), false)
                } else {
                    (None, None, false)
                }
            },
            Action::GotoSelected => {
                if self.selected_index < self.results.len() {
                    (Some(SearchAction::GotoTrack(self.results[self.selected_index].clone())), None, false)
                } else {
                    (None, None, false)
                }
            },
            Action::MoveUp => {
                if self.selected_index > 0 {
                    self.selected_index = self.selected_index - 1;
                    self.ensure_selection_visible();
                }
                (None, None, false)
            },
            Action::MoveDown => {
                if self.results.len() > 0 && self.selected_index < self.results.len() - 1 {
                    self.selected_index = self.selected_index + 1;
                    self.ensure_selection_visible();
                }
                (None, None, false)
            },
            Action::DeleteChar => {
                self.query = crate::text::without_last_char(&self.query);
                (None, None, true)
            },
            Action::ClearLine => {
                self.query = String::new();
                (None, None, true)
            },
            Action::Char(c) => {
                crate::text::push_char(&mut self.query, c);
                (None, None, true)
            },
            _ => (None, None, false),
        }
    }

    /// A mouse-down on the result rows (not the scrollbar) of the panel in
    /// `area`: selects the clicked result and holds the click until mouse-up.
    pub fn handle_content_click(&mut self, area: Rect, x: u16, y: u16)
        requires
            results_fits(area),
            old(self).scroll_line + u16::MAX <= usize::MAX,
        ensures
            ({
                let r = results_area_spec(area);
                let idx = old(self).scroll_line + (y - r.y);
                if y < r.y || y >= r.y + r.height || old(self).results@.len() == 0 || idx >= old(self).results@.len() {
                    *final(self) == *old(self)
                } else {
                    &&& final(self).selected_index == idx
                    &&& final(self).click_pending == Some((x, y, idx as usize))
                    &&& final(self).drag_last_y == Some(y)
                    &&& final(self).results == old(self).results
                    &&& final(self).query == old(self).query
                    &&& final(self).scroll_line == old(self).scroll_line
                }
            }),
    {
        let results = results_area(area);
        if y < results.y || y >= results.y + results.height || self.results.len() == 0 {
            return;
        }
        let row_in_list = (y - results.y) as usize;
        let clicked_index = self.scroll_line + row_in_list;
        if clicked_index < self.results.len() {
            self.selected_index = clicked_index;
            self.click_pending = Some((x, y, clicked_index));
            self.drag_last_y = Some(y);
        }
    }

    /// A mouse-up: the held click (taken either way) plays its result and
    /// closes search, when the viewport's drag ended idle.
    pub fn handle_mouse_up(&mut self, drag_was_idle: bool) -> (r: (Option<SearchAction>, Option<String>))
        ensures
            final(self).click_pending is None,
            final(self).results == old(self).results,
            final(self).query == old(self).query,
            final(self).selected_index == old(self).selected_index,
            (drag_was_idle && old(self).click_pending is Some && old(self).click_pending.unwrap().2 < old(self).results@.len())
                ==> (r.0 matches Some(SearchAction::ToggleSearch))
                    && (r.1 matches Some(t) && t@ == old(self).results@[old(self).click_pending.unwrap().2 as int]@),
            !(drag_was_idle && old(self).click_pending is Some && old(self).click_pending.unwrap().2 < old(self).results@.len())
                ==> r.0 is None && r.1 is None,
    {
        let pending = self.click_pending;
        self.click_pending = None;
        if !drag_was_idle {
            return (None, None);
        }
        match pending {
            Some((_, _, index)) => {
                if index < self.results.len() {
                    (Some(SearchAction::ToggleSearch), Some(self.results[index].clone()))
                } else {
                    (None, None)
                }
            },
            None => (None, None),
        }
    }
}

/// The results list fits in the coordinate space: the panel's border and
/// input row stay within `u16`.
pub open spec fn results_fits(area: Rect) -> bool {
    &&& area.x < u16::MAX
    &&& area.y + 2 <= u16::MAX
    &&& area.y + area.height <= u16::MAX
    &&& results_area_spec(area).wf()
}

/// The rows `(start, end)` the results list covers: below the border and the
/// input row, above the bottom border.
pub open spec fn results_y_range_spec(area: Rect) -> (u16, u16) {
    ((area.y + 2) as u16, (area.y + crate::geometry::sat_sub(area.height as int, 1)) as u16)
}

/// The rect covering the results list.
pub open spec fn results_area_spec(area: Rect) -> Rect {
    let (start, end) = results_y_range_spec(area);
    Rect {
        x: (area.x + 1) as u16,
        y: start,
        width: crate::geometry::sat_sub(area.width as int, 2) as u16,
        height: crate::geometry::sat_sub(end as int, start as int) as u16,
    }
}

/// `(start_y, end_y)` row range covered by the results list.
pub fn results_y_range(area: Rect) -> (r: (u16, u16))
    requires
        area.y + 2 <= u16::MAX,
        area.y + area.height <= u16::MAX,
    ensures
        r == results_y_range_spec(area),
{
    let start = area.y + 2;
    let end = area.y + area.height.saturating_sub(1);
    (start, end)
}

/// The rect covering the results list, matching the panel's layout.
pub fn results_area(area: Rect) -> (r: Rect)
    requires
        area.x < u16::MAX,
        area.y + 2 <= u16::MAX,
        area.y + area.height <= u16::MAX,
    ensures
        r == results_area_spec(area),
{
    let (start, end) = results_y_range(area);
    Rect { x: area.x + 1, y: start, width: area.width.saturating_sub(2), height: end.saturating_sub(start) }
}

/// The result row the mouse is hovering over, if any.
pub fn hovered_result_index(mouse: Option<(u16, u16)>, area: Rect, scroll_line: usize) -> (r: Option<usize>)
    requires
        results_fits(area),
        scroll_line + u16::MAX <= usize::MAX,
    ensures
        r == (match crate::panel::hovered_row_spec(mouse, results_area_spec(area), scroll_line) {
            Some(k) => Some(k as usize),
            None => None::<usize>,
        }),
{
    crate::panel::hovered_row(mouse, results_area(area), scroll_line)
}

/// What the results part of the search panel shows.
#[derive(Debug, Clone, Copy, PartialEq, Eq, Structural)]
pub enum SearchPanel {
    /// "Type to search..."
    TypeToSearch,
    /// "Enter at least 3 characters..."
    TooShort,
    /// "No results found."
    NoResults,
    /// The results.
    Results,
}

/// What the results part of the panel shows: a hint until the query is
/// searchable, a note when nothing was found, else the results.
pub fn search_panel(state: &SearchState) -> (r: SearchPanel)
    ensures
        r == (if !searchable(state.query@) {
            if state.query@.len() == 0 { SearchPanel::TypeToSearch } else { SearchPanel::TooShort }
        } else if state.results@.len() == 0 {
            SearchPanel::NoResults
        } else {
            SearchPanel::Results
        }),
{
    if !is_searchable(&state.query) {
        if crate::text::chars_of(state.query.as_str()).len() == 0 {
            SearchPanel::TypeToSearch
        } else {
            SearchPanel::TooShort
        }
    } else if state.results.len() == 0 {
        SearchPanel::NoResults
    } else {
        SearchPanel::Results
    }
}

} // verus!
