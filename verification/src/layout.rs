//! Screen geometry shared by drawing and hit-testing: the main vertical
//! split, the sidebar and settings columns, the inline-lyrics strip, and the
//! album-art and library columns.
use vstd::prelude::*;

use ratatui::layout::Constraint::{self, Length, Min};
use ratatui::layout::{Layout, Rect as RRect};

use crate::app_state::FocusedPanel;
use crate::geometry::{clamp, clamp_u16, max_u16, min_u16, sat_add, sat_sub, Rect, Size};

verus! {

// ── Main vertical layout ────────────────────────────────────────────────────

pub const NOW_PLAYING_HEIGHT: u16 = 2;
pub const SCRUB_BAR_HEIGHT: u16 = 1;
pub const INLINE_LYRICS_HEIGHT: u16 = 3;
pub const CONTENT_MIN_HEIGHT: u16 = 3;
pub const HELP_BAR_HEIGHT: u16 = 1;

/// The four horizontal bands of the screen, top to bottom.
#[derive(Debug, Clone, Copy, PartialEq, Eq, Structural)]
pub struct MainLayout {
    pub now_playing: Rect,
    pub scrub_bar: Rect,
    pub content: Rect,
    pub help_bar: Rect,
}

/// `area` as the terminal library's `Rect::new` builds it: the width and
/// height cut so that the right and bottom edges stay within `u16`.
pub open spec fn clamped_rect(area: Rect) -> Rect {
    Rect {
        x: area.x,
        y: area.y,
        width: if area.x + area.width <= u16::MAX { area.width } else { (u16::MAX - area.x) as u16 },
        height: if area.y + area.height <= u16::MAX { area.height } else { (u16::MAX - area.y) as u16 },
    }
}

/// The size rule of one band of a split: exactly this many cells, or at
/// least this many (such a band takes up what the others leave).
#[derive(Debug, Clone, Copy, PartialEq, Eq, Structural)]
pub enum Band {
    Length(u16),
    Min(u16),
}

/// The cells a band asks for.
pub open spec fn band_size(b: Band) -> int {
    match b {
        Band::Length(n) => n as int,
        Band::Min(n) => n as int,
    }
}

/// The cells all the bands ask for together.
pub open spec fn bands_total(bs: Seq<Band>) -> int
    decreases bs.len(),
{
    if bs.len() == 0 { 0 } else { bands_total(bs.drop_last()) + band_size(bs.last()) }
}

/// Some band takes up what the others leave.
pub open spec fn has_min_band(bs: Seq<Band>) -> bool {
    exists|i: int| 0 <= i < bs.len() && #[trigger] bs[i] is Min
}

/// Spans `(start, length)` along one axis split `[lo, lo + len)` by `bs`:
/// one per band, the first at `lo`, each starting where the one before ends,
/// the last ending inside the area, at its end where some band takes the
/// rest; and when the area holds what all bands ask for, each band gets its
/// exact length or at least its minimum.
pub open spec fn spans_ok(lo: int, len: int, bs: Seq<Band>, sp: Seq<(int, int)>) -> bool {
    &&& sp.len() == bs.len()
    &&& sp.len() > 0 ==> sp[0].0 == lo
    &&& forall|i: int| 0 <= i < sp.len() - 1 ==> #[trigger] sp[i + 1].0 == sp[i].0 + sp[i].1
    &&& sp.len() > 0 ==> sp.last().0 + sp.last().1 <= lo + len
    &&& sp.len() > 0 && has_min_band(bs) ==> sp.last().0 + sp.last().1 == lo + len
    &&& bands_total(bs) <= len ==> forall|i: int| 0 <= i < bs.len() ==> match #[trigger] bs[i] {
        Band::Length(n) => sp[i].1 == n,
        Band::Min(n) => sp[i].1 >= n,
    }
}

/// The rows of the rects, as spans.
pub open spec fn row_spans(r: Seq<Rect>) -> Seq<(int, int)> {
    r.map_values(|b: Rect| (b.y as int, b.height as int))
}

/// The columns of the rects, as spans.
pub open spec fn col_spans(r: Seq<Rect>) -> Seq<(int, int)> {
    r.map_values(|b: Rect| (b.x as int, b.width as int))
}

/// `r` is a vertical split of (clamped) `area` by `bs`: each band spans the
/// area's columns, and their rows are as [`spans_ok`] says.
pub open spec fn rows_split_ok(area: Rect, bs: Seq<Band>, r: Seq<Rect>) -> bool {
    let a = clamped_rect(area);
    &&& forall|i: int| 0 <= i < r.len() ==> (#[trigger] r[i]).x == a.x && r[i].width == a.width
    &&& spans_ok(a.y as int, a.height as int, bs, row_spans(r))
}

/// `r` is a horizontal split of (clamped) `area` by `bs`: each band spans
/// the area's rows, and their columns are as [`spans_ok`] says.
pub open spec fn cols_split_ok(area: Rect, bs: Seq<Band>, r: Seq<Rect>) -> bool {
    let a = clamped_rect(area);
    &&& forall|i: int| 0 <= i < r.len() ==> (#[trigger] r[i]).y == a.y && r[i].height == a.height
    &&& spans_ok(a.x as int, a.width as int, bs, col_spans(r))
}

/// Splits `area` top to bottom by the size rules `bands`: `Layout::vertical`
/// with `Length` and `Min` constraints, then `Layout::split`. By the
/// terminal library's source: every band keeps the area's `x` and width
/// (`changes_to_rects`); all solver variables are required to lie in the
/// area; the gaps between bands, and before the first, are held to zero at
/// a strength above every size rule; a `Min` band grows to fill the area at
/// a strength above the trailing gap's; and when the area is large enough
/// every size rule can be met at once and is (a minimum is handed to the
/// solver as an `i16`, hence the bound on it). How the bands shrink on an
/// area too small for all of them is the solver's choice and is not stated.
#[verifier::external_body]
fn split_rows(area: Rect, bands: &Vec<Band>) -> (r: Vec<Rect>)
    requires
        forall|i: int| 0 <= i < bands@.len() ==> (#[trigger] bands@[i] matches Band::Min(n) ==> n <= 0x7fff),
    ensures
        rows_split_ok(area, bands@, r@),
{
    let cs: Vec<Constraint> = bands.iter().map(|b| match *b { Band::Length(n) => Length(n), Band::Min(n) => Min(n) }).collect();
    Layout::vertical(cs).split(RRect::new(area.x, area.y, area.width, area.height))
        .iter().map(|c| Rect { x: c.x, y: c.y, width: c.width, height: c.height }).collect()
}

/// Splits `area` left to right by the size rules `bands`:
/// `Layout::horizontal`, then `Layout::split`; the same holds as for
/// [`split_rows`], along the columns.
#[verifier::external_body]
fn split_cols(area: Rect, bands: &Vec<Band>) -> (r: Vec<Rect>)
    requires
        forall|i: int| 0 <= i < bands@.len() ==> (#[trigger] bands@[i] matches Band::Min(n) ==> n <= 0x7fff),
    ensures
        cols_split_ok(area, bands@, r@),
{
    let cs: Vec<Constraint> = bands.iter().map(|b| match *b { Band::Length(n) => Length(n), Band::Min(n) => Min(n) }).collect();
    Layout::horizontal(cs).split(RRect::new(area.x, area.y, area.width, area.height))
        .iter().map(|c| Rect { x: c.x, y: c.y, width: c.width, height: c.height }).collect()
}

/// The screen's four bands: across the whole width of the (clamped) screen,
/// stacked top to bottom without gaps from its first row to its last; on a
/// screen of at least seven rows the now-playing bar is two rows, the scrub
/// bar and the help bar one each, and the content the rest.
pub open spec fn main_split_ok(area: Rect, m: MainLayout) -> bool {
    let a = clamped_rect(area);
    &&& m.now_playing.x == a.x && m.now_playing.width == a.width
    &&& m.scrub_bar.x == a.x && m.scrub_bar.width == a.width
    &&& m.content.x == a.x && m.content.width == a.width
    &&& m.help_bar.x == a.x && m.help_bar.width == a.width
    &&& m.now_playing.y == a.y
    &&& m.scrub_bar.y == m.now_playing.y + m.now_playing.height
    &&& m.content.y == m.scrub_bar.y + m.scrub_bar.height
    &&& m.help_bar.y == m.content.y + m.content.height
    &&& m.help_bar.y + m.help_bar.height == a.y + a.height
    &&& a.height >= NOW_PLAYING_HEIGHT + SCRUB_BAR_HEIGHT + CONTENT_MIN_HEIGHT + HELP_BAR_HEIGHT ==> {
        &&& m.now_playing.height == NOW_PLAYING_HEIGHT
        &&& m.scrub_bar.height == SCRUB_BAR_HEIGHT
        &&& m.help_bar.height == HELP_BAR_HEIGHT
    }
}

/// Splits the screen into the now-playing bar (two rows), the scrub bar
/// (one), the content area (at least three, taking the rest) and the help
/// bar (one), top to bottom.
pub fn split_main(area: Rect) -> (r: MainLayout)
    ensures
        main_split_ok(area, r),
{
    let mut bands: Vec<Band> = Vec::new();
    bands.push(Band::Length(NOW_PLAYING_HEIGHT));
    bands.push(Band::Length(SCRUB_BAR_HEIGHT));
    bands.push(Band::Min(CONTENT_MIN_HEIGHT));
    bands.push(Band::Length(HELP_BAR_HEIGHT));
    proof {
        assert(bands@[2] is Min);
        reveal_with_fuel(bands_total, 5);
    }
    let c = split_rows(area, &bands);
    proof {
        let sp = row_spans(c@);
        assert(sp[1].0 == sp[0].0 + sp[0].1);
        assert(sp[2].0 == sp[1].0 + sp[1].1);
        assert(sp[3].0 == sp[2].0 + sp[2].1);
        assert(sp.last() == sp[3]);
        let a = clamped_rect(area);
        if a.height >= 7 {
            assert(match bands@[0] { Band::Length(n) => sp[0].1 == n, Band::Min(n) => sp[0].1 >= n });
            assert(match bands@[1] { Band::Length(n) => sp[1].1 == n, Band::Min(n) => sp[1].1 >= n });
            assert(match bands@[3] { Band::Length(n) => sp[3].1 == n, Band::Min(n) => sp[3].1 >= n });
        }
        assert(c@[0].x == a.x && c@[1].x == a.x && c@[2].x == a.x && c@[3].x == a.x);
    }
    MainLayout { now_playing: c[0], scrub_bar: c[1], content: c[2], help_bar: c[3] }
}

/// The inline-lyrics strip: the bottom three rows of `content`, when the
/// content is at least that tall.
pub open spec fn inline_lyrics_rect_spec(content: Rect) -> Option<Rect> {
    if content.height < INLINE_LYRICS_HEIGHT {
        None
    } else {
        Some(Rect { x: content.x, y: (content.y + content.height - INLINE_LYRICS_HEIGHT) as u16, width: content.width, height: INLINE_LYRICS_HEIGHT })
    }
}

/// Computes the bottom-panel rect for inline lyrics, anchored to the bottom of
/// the content area just above the help bar. Returns `None` if the content area
/// is too small.
pub fn inline_lyrics_rect(content: Rect) -> (r: Option<Rect>)
    requires
        content.wf(),
    ensures
        r == inline_lyrics_rect_spec(content),
{
    if content.height < INLINE_LYRICS_HEIGHT {
        return None;
    }
    Some(Rect::new(content.x, content.y + content.height - INLINE_LYRICS_HEIGHT, content.width, INLINE_LYRICS_HEIGHT))
}

/// The content split into the area above the inline-lyrics strip and the
/// strip itself.
pub open spec fn split_inline_lyrics_spec(content: Rect) -> (Rect, Option<Rect>) {
    if content.height < INLINE_LYRICS_HEIGHT {
        (content, None)
    } else {
        (Rect { x: content.x, y: content.y, width: content.width, height: (content.height - INLINE_LYRICS_HEIGHT) as u16 }, inline_lyrics_rect_spec(content))
    }
}

/// Splits `content` vertically into `(main, inline_lyrics)`. When inline
/// lyrics are shown they render as a panel at the bottom that cuts into the
/// main content's height (not an overlay). Returns `None` for the lyrics area
/// when the content is too small.
pub fn split_inline_lyrics(content: Rect) -> (r: (Rect, Option<Rect>))
    requires
        content.wf(),
    ensures
        r == split_inline_lyrics_spec(content),
{
    let lyrics = match inline_lyrics_rect(content) {
        Some(l) => l,
        None => return (content, None),
    };
    let main = Rect::new(content.x, content.y, content.width, lyrics.y - content.y);
    (main, Some(lyrics))
}

// ── Lyrics sidebar horizontal layout ───────────────────────────────────────

/// Minimum width of the lyrics sidebar in terminal columns.
pub const LYRICS_SIDEBAR_MIN_WIDTH: u16 = 10;
/// Width of the separator border between the sidebar and main content.
pub const LYRICS_SIDEBAR_BORDER_WIDTH: u16 = 1;
/// Extra columns beside the border that count as drag handles.
pub const LYRICS_SIDEBAR_DRAG_TOLERANCE: u16 = 2;

/// Which side of the content the sidebar sits on.
#[derive(Debug, Clone, Copy, PartialEq, Eq, Structural)]
pub enum SidebarPosition {
    Left,
    Right,
}

/// A component the sidebar can show.
#[derive(Debug, Clone, Copy, PartialEq, Eq, Structural)]
pub enum SidebarComponent {
    Lyrics,
    SimilarSongs,
}

/// The result of splitting the content area with an optional lyrics sidebar.
#[derive(Debug, Clone, Copy, PartialEq, Eq, Structural)]
pub struct ContentLayout {
    /// The main content area (library, search, queue, etc.).
    pub main: Rect,
    /// The lyrics sidebar rect, if a sidebar is shown.
    pub lyrics_sidebar: Option<Rect>,
    /// The 1-column border between sidebar and main content.
    pub lyrics_border: Option<Rect>,
}

/// The sidebar width actually used: the configured width clamped into
/// `[LYRICS_SIDEBAR_MIN_WIDTH, max(content / 2, LYRICS_SIDEBAR_MIN_WIDTH)]`,
/// then cut so the sidebar and its border fit in the content.
pub open spec fn sidebar_width_used(content_width: u16, sidebar_width: u16) -> u16 {
    let max_width = max_u16(content_width / 2, LYRICS_SIDEBAR_MIN_WIDTH);
    min_u16(
        clamp_u16(sidebar_width, LYRICS_SIDEBAR_MIN_WIDTH, max_width),
        sat_sub(content_width as int, LYRICS_SIDEBAR_BORDER_WIDTH as int) as u16,
    )
}

pub open spec fn split_content_spec(content: Rect, position: SidebarPosition, sidebar_width: u16) -> ContentLayout {
    let sw = sidebar_width_used(content.width, sidebar_width);
    let total = sw + LYRICS_SIDEBAR_BORDER_WIDTH;
    if total >= content.width {
        ContentLayout { main: content, lyrics_sidebar: None, lyrics_border: None }
    } else {
        match position {
            SidebarPosition::Left => ContentLayout {
                main: Rect { x: (content.x + total) as u16, y: content.y, width: (content.width - total) as u16, height: content.height },
                lyrics_sidebar: Some(Rect { x: content.x, y: content.y, width: sw, height: content.height }),
                lyrics_border: Some(Rect { x: (content.x + sw) as u16, y: content.y, width: 1, height: content.height }),
            },
            SidebarPosition::Right => ContentLayout {
                main: Rect { x: content.x, y: content.y, width: (content.width - total) as u16, height: content.height },
                lyrics_sidebar: Some(Rect { x: (content.x + content.width - sw) as u16, y: content.y, width: sw, height: content.height }),
                lyrics_border: Some(Rect { x: (content.x + content.width - total) as u16, y: content.y, width: 1, height: content.height }),
            },
        }
    }
}

/// Splits the content area into a main region and an optional sidebar.
///
/// Carves out the sidebar and a 1-column separator border on the given side.
/// The sidebar width is clamped to `[LYRICS_SIDEBAR_MIN_WIDTH, content.width / 2]`;
/// when sidebar, border and one column of main content do not fit, no
/// sidebar is carved out.
pub fn split_content_with_sidebar(content: Rect, position: SidebarPosition, sidebar_width: u16) -> (r: ContentLayout)
    requires
        content.wf(),
    ensures
        r == split_content_spec(content, position, sidebar_width),
{
    let half = content.width / 2;
    let max_width = if half >= LYRICS_SIDEBAR_MIN_WIDTH { half } else { LYRICS_SIDEBAR_MIN_WIDTH };
    let clamped = clamp(sidebar_width, LYRICS_SIDEBAR_MIN_WIDTH, max_width);
    let limit = content.width.saturating_sub(LYRICS_SIDEBAR_BORDER_WIDTH);
    let sidebar_w = if clamped <= limit { clamped } else { limit };
    let total_sidebar = sidebar_w + LYRICS_SIDEBAR_BORDER_WIDTH;
    if total_sidebar >= content.width {
        return ContentLayout { main: content, lyrics_sidebar: None, lyrics_border: None };
    }
    match position {
        SidebarPosition::Left => {
            let sidebar = Rect::new(content.x, content.y, sidebar_w, content.height);
            let border = Rect::new(content.x + sidebar_w, content.y, LYRICS_SIDEBAR_BORDER_WIDTH, content.height);
            let main = Rect::new(content.x + total_sidebar, content.y, content.width - total_sidebar, content.height);
            ContentLayout { main, lyrics_sidebar: Some(sidebar), lyrics_border: Some(border) }
        },
        SidebarPosition::Right => {
            let main_width = content.width - total_sidebar;
            let main = Rect::new(content.x, content.y, main_width, content.height);
            let border = Rect::new(content.x + main_width, content.y, LYRICS_SIDEBAR_BORDER_WIDTH, content.height);
            let sidebar = Rect::new(content.x + main_width + LYRICS_SIDEBAR_BORDER_WIDTH, content.y, sidebar_w, content.height);
            ContentLayout { main, lyrics_sidebar: Some(sidebar), lyrics_border: Some(border) }
        },
    }
}

/// When a sidebar is carved out, the sidebar, its border and the main area
/// tile the content: same rows, adjacent columns, widths summing to the
/// content width, and the sidebar is at least the minimum width and at most
/// half the content (or the minimum, if that is larger).
pub proof fn lemma_sidebar_split_tiles(content: Rect, position: SidebarPosition, sidebar_width: u16)
    requires
        content.wf(),
    ensures
        ({
            let l = split_content_spec(content, position, sidebar_width);
            l.lyrics_sidebar is Some <==> l.lyrics_border is Some
        }),
        ({
            let l = split_content_spec(content, position, sidebar_width);
            l.lyrics_sidebar matches Some(s) ==> {
                let b = l.lyrics_border->0;
                &&& s.width + b.width + l.main.width == content.width
                &&& b.width == 1
                &&& s.y == content.y && b.y == content.y && l.main.y == content.y
                &&& s.height == content.height && b.height == content.height && l.main.height == content.height
                &&& l.main.width >= 1
                &&& LYRICS_SIDEBAR_MIN_WIDTH <= s.width <= max_u16(content.width / 2, LYRICS_SIDEBAR_MIN_WIDTH)
                &&& position == SidebarPosition::Left ==> (s.x == content.x && b.x == s.x + s.width && l.main.x == b.x + 1)
                &&& position == SidebarPosition::Right ==> (l.main.x == content.x && b.x == l.main.x + l.main.width && s.x == b.x + 1)
            }
        }),
        ({
            let l = split_content_spec(content, position, sidebar_width);
            l.lyrics_sidebar is None ==> l.main == content
        }),
{
}

// ── Unified screen layout (draw + input) ────────────────────────────────────

/// The settings sidebar minimum and reserved library-preview widths.
pub const SETTINGS_SIDEBAR_MIN_WIDTH: u16 = 20;

/// The width of the settings sidebar: `configured` clamped into
/// `[20, max(20, area_width - 20)]`.
pub open spec fn settings_width_spec(area_width: u16, configured: u16) -> u16 {
    clamp_u16(
        configured,
        SETTINGS_SIDEBAR_MIN_WIDTH,
        max_u16(sat_sub(area_width as int, SETTINGS_SIDEBAR_MIN_WIDTH as int) as u16, SETTINGS_SIDEBAR_MIN_WIDTH),
    )
}

/// The width of the settings sidebar for a given main-column width and
/// configured value. Clamps the configured width into `[20, max(20,
/// area_width - 20)]` so the panel never collapses below 20 columns and
/// leaves at least 20 columns for the library preview where the area allows.
/// This single clamp is shared by planning and the border-drag math.
pub fn settings_width(area_width: u16, configured: u16) -> (r: u16)
    ensures
        r == settings_width_spec(area_width, configured),
{
    let max = area_width.saturating_sub(SETTINGS_SIDEBAR_MIN_WIDTH);
    let hi = if max >= SETTINGS_SIDEBAR_MIN_WIDTH { max } else { SETTINGS_SIDEBAR_MIN_WIDTH };
    clamp(configured, SETTINGS_SIDEBAR_MIN_WIDTH, hi)
}

/// The settings width never drops below 20, leaves at least 20 columns of
/// a main column that is at least 40 wide, and applying the clamp to its own
/// result changes nothing (a dragged width re-renders to the same width).
pub proof fn lemma_settings_width(area_width: u16, configured: u16)
    ensures
        settings_width_spec(area_width, configured) >= SETTINGS_SIDEBAR_MIN_WIDTH,
        area_width >= 40 ==> settings_width_spec(area_width, configured) + SETTINGS_SIDEBAR_MIN_WIDTH <= area_width,
        settings_width_spec(area_width, settings_width_spec(area_width, configured))
            == settings_width_spec(area_width, configured),
        SETTINGS_SIDEBAR_MIN_WIDTH <= configured && configured + SETTINGS_SIDEBAR_MIN_WIDTH <= area_width
            ==> settings_width_spec(area_width, configured) == configured,
{
}

/// Whether the inline-lyrics strip is visible: only when not loading, inline
/// mode is on, synced lyrics are loaded, and the library is the rendered panel.
pub open spec fn inline_lyrics_visible_spec(is_loading: bool, inline_lyrics_mode: bool, has_synced_lyrics: bool, render_library: bool) -> bool {
    !is_loading && inline_lyrics_mode && has_synced_lyrics && render_library
}

/// Whether the inline-lyrics strip is visible, given the render state. The
/// strip shows only when the library is the rendered panel (Library focus,
/// Settings focus with the library preview, or Lyrics-with-sidebar).
pub fn inline_lyrics_visible(is_loading: bool, inline_lyrics_mode: bool, has_synced_lyrics: bool, render_library: bool) -> (b: bool)
    ensures
        b == inline_lyrics_visible_spec(is_loading, inline_lyrics_mode, has_synced_lyrics, render_library),
{
    !is_loading && inline_lyrics_mode && has_synced_lyrics && render_library
}

/// What the screen plan depends on besides the screen size.
#[derive(Debug, Clone, Copy, PartialEq, Eq, Structural)]
pub struct LayoutInput {
    /// The library is still loading.
    pub is_loading: bool,
    /// The sidebar is enabled in the configuration.
    pub sidebar_enabled: bool,
    /// Which side the sidebar sits on.
    pub sidebar_position: SidebarPosition,
    /// The configured sidebar width.
    pub sidebar_width: u16,
    /// The configured settings-sidebar width.
    pub settings_sidebar_width: u16,
    /// The focused panel.
    pub focused_panel: FocusedPanel,
    /// Inline-lyrics mode is on.
    pub inline_lyrics_mode: bool,
    /// Synced lyrics are loaded for the playing track.
    pub has_synced_lyrics: bool,
}

/// The result of planning the whole screen for one frame.
#[derive(Debug, Clone, Copy, PartialEq, Eq, Structural)]
pub struct ScreenLayout {
    pub main: MainLayout,
    /// Whether a sidebar is shown (enabled and not loading).
    pub show_sidebar: bool,
    /// The sidebar position (used for border-resize drag direction).
    pub sidebar_position: SidebarPosition,
    /// The effective panel rendered in the main panel area (`Lyrics` with a
    /// sidebar renders the library).
    pub render_panel: FocusedPanel,
    /// The lyrics sidebar rect, if a sidebar is shown.
    pub lyrics_sidebar: Option<Rect>,
    /// The 1-column border between the sidebar and main content, if shown.
    pub lyrics_border: Option<Rect>,
    /// The settings sidebar rect, when the settings panel is focused.
    pub settings: Option<Rect>,
    /// The main panel column, after the lyrics sidebar and the settings sidebar.
    pub panel: Rect,
    /// The library interaction rect: the framed inner rect when the library is
    /// rendered with a sidebar present, else `panel`.
    pub library: Rect,
    /// The inline-lyrics strip at the bottom of `panel`, when visible.
    pub inline_lyrics: Option<Rect>,
}

pub open spec fn content_layout_spec(input: LayoutInput, content: Rect) -> ContentLayout {
    if input.sidebar_enabled && !input.is_loading {
        split_content_spec(content, input.sidebar_position, input.sidebar_width)
    } else {
        ContentLayout { main: content, lyrics_sidebar: None, lyrics_border: None }
    }
}

pub open spec fn settings_rect_spec(input: LayoutInput, column: Rect) -> Option<Rect> {
    if input.focused_panel == FocusedPanel::Settings {
        Some(Rect::spec_new(column.x, column.y, settings_width_spec(column.width, input.settings_sidebar_width), column.height))
    } else {
        None
    }
}

pub open spec fn panel_before_lyrics_spec(settings: Option<Rect>, column: Rect) -> Rect {
    match settings {
        Some(s) => Rect::spec_new(
            sat_add(s.x, s.width),
            column.y,
            sat_sub(column.width as int, s.width as int) as u16,
            column.height,
        ),
        None => column,
    }
}

pub open spec fn render_panel_spec(input: LayoutInput) -> FocusedPanel {
    if input.focused_panel == FocusedPanel::Lyrics && input.sidebar_enabled && !input.is_loading {
        FocusedPanel::Library
    } else {
        input.focused_panel
    }
}

pub open spec fn renders_library(panel: FocusedPanel) -> bool {
    panel == FocusedPanel::Library || panel == FocusedPanel::Settings
}

/// The full screen plan, given the solved main bands.
pub open spec fn screen_layout_spec(input: LayoutInput, main: MainLayout) -> ScreenLayout {
    let show_sidebar = input.sidebar_enabled && !input.is_loading;
    let cl = content_layout_spec(input, main.content);
    let settings = settings_rect_spec(input, cl.main);
    let panel0 = panel_before_lyrics_spec(settings, cl.main);
    let render_panel = render_panel_spec(input);
    let render_library = renders_library(render_panel);
    let inline_shown = inline_lyrics_visible_spec(input.is_loading, input.inline_lyrics_mode, input.has_synced_lyrics, render_library);
    let panel = if inline_shown { split_inline_lyrics_spec(panel0).0 } else { panel0 };
    let inline_lyrics = if inline_shown { split_inline_lyrics_spec(panel0).1 } else { None };
    let library = if show_sidebar && render_library {
        Rect::spec_new((panel.x + 1) as u16, (panel.y + 1) as u16, sat_sub(panel.width as int, 2) as u16, sat_sub(panel.height as int, 2) as u16)
    } else {
        panel
    };
    ScreenLayout {
        main,
        show_sidebar,
        sidebar_position: input.sidebar_position,
        render_panel,
        lyrics_sidebar: cl.lyrics_sidebar,
        lyrics_border: cl.lyrics_border,
        settings,
        panel,
        library,
        inline_lyrics,
    }
}

/// The content band is placed so that planning cannot run past the
/// coordinate space.
pub open spec fn plannable(content: Rect) -> bool {
    content.wf() && content.x + content.width + SETTINGS_SIDEBAR_MIN_WIDTH < u16::MAX && content.y < u16::MAX
}

/// Plans the whole screen layout for one frame from the solved main bands.
/// The settings sidebar eats into the main column on the left when the
/// settings panel is focused; inline lyrics cut into the bottom of the panel;
/// with a sidebar shown, the library interacts through its framed inner rect.
pub fn plan_screen(input: &LayoutInput, main: MainLayout) -> (r: ScreenLayout)
    requires
        plannable(main.content),
    ensures
        r == screen_layout_spec(*input, main),
{
    let show_sidebar = input.sidebar_enabled && !input.is_loading;
    let content_layout = if show_sidebar {
        split_content_with_sidebar(main.content, input.sidebar_position, input.sidebar_width)
    } else {
        ContentLayout { main: main.content, lyrics_sidebar: None, lyrics_border: None }
    };
    let column = content_layout.main;
    let settings = if input.focused_panel == FocusedPanel::Settings {
        let settings_w = settings_width(column.width, input.settings_sidebar_width);
        Some(Rect::new(column.x, column.y, settings_w, column.height))
    } else {
        None
    };
    let panel = match settings {
        Some(s) => Rect::new(s.x.saturating_add(s.width), column.y, column.width.saturating_sub(s.width), column.height),
        None => column,
    };
    let render_panel = if input.focused_panel == FocusedPanel::Lyrics && show_sidebar {
        FocusedPanel::Library
    } else {
        input.focused_panel
    };
    let render_library = render_panel == FocusedPanel::Library || render_panel == FocusedPanel::Settings;
    let inline_shown = inline_lyrics_visible(input.is_loading, input.inline_lyrics_mode, input.has_synced_lyrics, render_library);
    let (panel, inline_lyrics) = if inline_shown {
        split_inline_lyrics(panel)
    } else {
        (panel, None)
    };
    let library = if show_sidebar && render_library {
        Rect::new(panel.x + 1, panel.y + 1, panel.width.saturating_sub(2), panel.height.saturating_sub(2))
    } else {
        panel
    };
    ScreenLayout {
        main,
        show_sidebar,
        sidebar_position: input.sidebar_position,
        render_panel,
        lyrics_sidebar: content_layout.lyrics_sidebar,
        lyrics_border: content_layout.lyrics_border,
        settings,
        panel,
        library,
        inline_lyrics,
    }
}

/// Plans the whole screen for `size`: splits it into the main bands, then
/// [`plan_screen`] on them. The plan is returned whenever the screen leaves
/// room in the coordinate space; `None` only when the content band would run
/// past it.
pub fn layout_for(input: &LayoutInput, size: Rect) -> (r: Option<ScreenLayout>)
    ensures
        r matches Some(l) ==> main_split_ok(size, l.main) && plannable(l.main.content)
            && l == screen_layout_spec(*input, l.main),
        size.x + size.width + SETTINGS_SIDEBAR_MIN_WIDTH < u16::MAX && size.y + size.height < u16::MAX ==> r is Some,
{
    let main = split_main(size);
    if (main.content.x as u32) + (main.content.width as u32) + 20 < 65535 && main.content.y < u16::MAX
        && (main.content.y as u32) + (main.content.height as u32) <= 65535 {
        Some(plan_screen(input, main))
    } else {
        None
    }
}

/// The screen plan composes its columns without overlap: the settings
/// sidebar starts the main column and the panel follows it directly on the
/// same rows; the inline-lyrics strip is three rows high, as wide as the
/// panel and directly below it; the library rect is the panel unless the
/// library renders beside a shown sidebar; and a settings rect exists exactly
/// when the settings panel is focused.
pub proof fn lemma_screen_plan_composes(input: LayoutInput, main: MainLayout)
    requires
        plannable(main.content),
    ensures
        ({
            let l = screen_layout_spec(input, main);
            let column = content_layout_spec(input, main.content).main;
            &&& (l.settings is Some <==> input.focused_panel == FocusedPanel::Settings)
            &&& (l.settings matches Some(st) ==> {
                &&& st.x == column.x && st.y == column.y && st.height == column.height
                &&& st.width == settings_width_spec(column.width, input.settings_sidebar_width)
                &&& l.panel.x == st.x + st.width
                &&& l.panel.y == st.y
                &&& (st.width <= column.width ==> l.panel.width == column.width - st.width)
            })
            &&& (l.settings is None ==> l.panel.x == column.x && l.panel.width == column.width)
            &&& (l.inline_lyrics matches Some(il) ==> {
                &&& il.height == INLINE_LYRICS_HEIGHT
                &&& il.x == l.panel.x && il.width == l.panel.width
                &&& il.y == l.panel.y + l.panel.height
            })
            &&& (!(l.show_sidebar && renders_library(l.render_panel)) ==> l.library == l.panel)
            &&& (l.show_sidebar == (input.sidebar_enabled && !input.is_loading))
        }),
{
    let cl = content_layout_spec(input, main.content);
    if input.sidebar_enabled && !input.is_loading {
        lemma_sidebar_split_tiles(main.content, input.sidebar_position, input.sidebar_width);
    }
    assert(cl.main.wf());
}

impl ScreenLayout {
    /// The lyrics-border drag region contains `(x, y)`: the border widened by
    /// the drag tolerance toward the sidebar.
    pub open spec fn over_lyrics_border_spec(self, x: u16, y: u16) -> bool {
        match self.lyrics_border {
            None => false,
            Some(r) => {
                let (x_start, x_end) = if self.sidebar_position == SidebarPosition::Right {
                    (r.x as int, r.x + r.width + LYRICS_SIDEBAR_DRAG_TOLERANCE)
                } else {
                    (sat_sub(r.x as int, LYRICS_SIDEBAR_DRAG_TOLERANCE as int), r.x + r.width)
                };
                r.y <= y < r.y + r.height && x_start <= x < x_end
            },
        }
    }

    /// The horizontal extent of the lyrics sidebar border hit region, expanded
    /// toward the sidebar so the 1-column border is easier to grab without
    /// interfering with the library's scrollbar.
    pub fn over_lyrics_border(&self, x: u16, y: u16) -> (b: bool)
        ensures
            b == self.over_lyrics_border_spec(x, y),
    {
        let r = match self.lyrics_border {
            Some(r) => r,
            None => return false,
        };
        let tol = LYRICS_SIDEBAR_DRAG_TOLERANCE as u32;
        let (x_start, x_end): (u32, u32) = if self.sidebar_position == SidebarPosition::Right {
            (r.x as u32, r.x as u32 + r.width as u32 + tol)
        } else {
            ((r.x as u32).saturating_sub(tol), r.x as u32 + r.width as u32)
        };
        (y as u32) >= (r.y as u32) && (y as u32) < (r.y as u32) + (r.height as u32)
            && (x as u32) >= x_start && (x as u32) < x_end
    }
}

/// A content-region component drawn from the single dispatch point.
#[derive(Debug, Clone, Copy, PartialEq, Eq, Structural)]
pub enum VisibleComponent {
    /// The main panel (library or Search/Queue/Logs/full-panel Lyrics).
    MainPanel,
    /// The settings sidebar.
    Settings,
    /// The lyrics sidebar.
    LyricsSidebar,
    /// The inline-lyrics strip.
    InlineLyrics,
}

/// The content components that are visible, in draw order.
pub open spec fn visible_components_spec(layout: ScreenLayout) -> Seq<VisibleComponent> {
    let s0 = seq![VisibleComponent::MainPanel];
    let s1 = if layout.settings is Some { s0.push(VisibleComponent::Settings) } else { s0 };
    let s2 = if layout.lyrics_sidebar is Some { s1.push(VisibleComponent::LyricsSidebar) } else { s1 };
    if layout.inline_lyrics is Some { s2.push(VisibleComponent::InlineLyrics) } else { s2 }
}

/// The content-region components that are visible for the current state,
/// in draw order, so each component renders exactly once.
pub fn visible_components(layout: &ScreenLayout) -> (v: Vec<VisibleComponent>)
    ensures
        v@ == visible_components_spec(*layout),
        v@.no_duplicates(),
        v@[0] == VisibleComponent::MainPanel,
{
    let mut components = Vec::new();
    components.push(VisibleComponent::MainPanel);
    if layout.settings.is_some() {
        components.push(VisibleComponent::Settings);
    }
    if layout.lyrics_sidebar.is_some() {
        components.push(VisibleComponent::LyricsSidebar);
    }
    if layout.inline_lyrics.is_some() {
        components.push(VisibleComponent::InlineLyrics);
    }
    assert(components@ =~= visible_components_spec(*layout));
    assert(components@.no_duplicates()) by {
        let s = components@;
        assert forall|i: int, j: int| 0 <= i < s.len() && 0 <= j < s.len() && i != j implies s[i] != s[j] by {
        }
    }
    components
}

// ── Now-playing, scrub bar and volume layouts ───────────────────────────────

pub const TRACK_INFO_MIN_WIDTH: u16 = 20;
pub const TRANSPORT_WIDTH: u16 = 24;

/// The now-playing bar's three columns.
#[derive(Debug, Clone, Copy, PartialEq, Eq, Structural)]
pub struct NowPlayingLayout {
    pub album_art: Rect,
    pub track_info: Rect,
    pub transport: Rect,
}

/// The now-playing bar's columns for art `art_width` columns wide: across
/// the (clamped) bar's rows, side by side without gaps from its first column
/// to its last; on a bar wide enough for all three, the art column is
/// `art_width` columns, the transport 24, and the track information the rest.
pub open spec fn now_playing_split_ok(area: Rect, art_width: u16, r: NowPlayingLayout) -> bool {
    let a = clamped_rect(area);
    &&& r.album_art.y == a.y && r.album_art.height == a.height
    &&& r.track_info.y == a.y && r.track_info.height == a.height
    &&& r.transport.y == a.y && r.transport.height == a.height
    &&& r.album_art.x == a.x
    &&& r.track_info.x == r.album_art.x + r.album_art.width
    &&& r.transport.x == r.track_info.x + r.track_info.width
    &&& r.transport.x + r.transport.width == a.x + a.width
    &&& a.width >= art_width + TRACK_INFO_MIN_WIDTH + TRANSPORT_WIDTH ==> {
        &&& r.album_art.width == art_width
        &&& r.transport.width == TRANSPORT_WIDTH
    }
}

/// Splits the now-playing bar into album art (`art_cols` plus two columns
/// of margin), track information (at least 20 columns, taking the rest) and
/// transport buttons (24 columns), left to right.
pub fn split_now_playing(area: Rect, art_cols: u16) -> (r: NowPlayingLayout)
    requires
        art_cols <= u16::MAX - 2,
    ensures
        now_playing_split_ok(area, (art_cols + 2) as u16, r),
{
    let art_width = art_cols + 2;
    let mut bands: Vec<Band> = Vec::new();
    bands.push(Band::Length(art_width));
    bands.push(Band::Min(TRACK_INFO_MIN_WIDTH));
    bands.push(Band::Length(TRANSPORT_WIDTH));
    proof {
        assert(bands@[1] is Min);
        reveal_with_fuel(bands_total, 4);
    }
    let c = split_cols(area, &bands);
    proof {
        let sp = col_spans(c@);
        assert(sp[1].0 == sp[0].0 + sp[0].1);
        assert(sp[2].0 == sp[1].0 + sp[1].1);
        assert(sp.last() == sp[2]);
        let a = clamped_rect(area);
        if a.width >= art_width + TRACK_INFO_MIN_WIDTH + TRANSPORT_WIDTH {
            assert(match bands@[0] { Band::Length(n) => sp[0].1 == n, Band::Min(n) => sp[0].1 >= n });
            assert(match bands@[2] { Band::Length(n) => sp[2].1 == n, Band::Min(n) => sp[2].1 >= n });
        }
        assert(c@[0].y == a.y && c@[1].y == a.y && c@[2].y == a.y);
    }
    NowPlayingLayout { album_art: c[0], track_info: c[1], transport: c[2] }
}

pub const SCRUB_BAR_MIN_WIDTH: u16 = 20;
pub const VOLUME_SLIDER_WIDTH: u16 = 16;
pub const VOLUME_ICON_WIDTH: u16 = 2;
pub const VOLUME_BAR_PADDING: u16 = 7;

/// The scrub bar and the volume slider beside it.
#[derive(Debug, Clone, Copy, PartialEq, Eq, Structural)]
pub struct ScrubVolumeLayout {
    pub scrub_bar: Rect,
    pub volume: Rect,
}

/// The scrub row's columns: across the (clamped) row, side by side without
/// gaps from its first column to its last; on a row of at least 36 columns
/// the volume slider is 16 columns and the scrub bar the rest.
pub open spec fn scrub_volume_split_ok(area: Rect, r: ScrubVolumeLayout) -> bool {
    let a = clamped_rect(area);
    &&& r.scrub_bar.y == a.y && r.scrub_bar.height == a.height
    &&& r.volume.y == a.y && r.volume.height == a.height
    &&& r.scrub_bar.x == a.x
    &&& r.volume.x == r.scrub_bar.x + r.scrub_bar.width
    &&& r.volume.x + r.volume.width == a.x + a.width
    &&& a.width >= SCRUB_BAR_MIN_WIDTH + VOLUME_SLIDER_WIDTH ==> r.volume.width == VOLUME_SLIDER_WIDTH
}

/// Splits the scrub row into the scrub bar (at least 20 columns, taking the
/// rest) and the volume slider (16 columns), left to right.
pub fn split_scrub_volume(area: Rect) -> (r: ScrubVolumeLayout)
    ensures
        scrub_volume_split_ok(area, r),
{
    let mut bands: Vec<Band> = Vec::new();
    bands.push(Band::Min(SCRUB_BAR_MIN_WIDTH));
    bands.push(Band::Length(VOLUME_SLIDER_WIDTH));
    proof {
        assert(bands@[0] is Min);
        reveal_with_fuel(bands_total, 3);
    }
    let c = split_cols(area, &bands);
    proof {
        let sp = col_spans(c@);
        assert(sp[1].0 == sp[0].0 + sp[0].1);
        assert(sp.last() == sp[1]);
        let a = clamped_rect(area);
        if a.width >= SCRUB_BAR_MIN_WIDTH + VOLUME_SLIDER_WIDTH {
            assert(match bands@[1] { Band::Length(n) => sp[1].1 == n, Band::Min(n) => sp[1].1 >= n });
        }
        assert(c@[0].y == a.y && c@[1].y == a.y);
    }
    ScrubVolumeLayout { scrub_bar: c[0], volume: c[1] }
}

// ── Album art columns ───────────────────────────────────────────────────────

pub const ART_TERM_ROWS: u16 = 2;
pub const ART_LEFT_MARGIN: u16 = 1;
/// Number of terminal rows for the large art beside tracks.
pub const LARGE_ART_TERM_ROWS: usize = 8;
/// Left margin before the large art grid.
pub const LARGE_ART_LEFT_MARGIN: usize = 1;
/// Gap between the large art and the track text.
pub const LARGE_ART_RIGHT_MARGIN: usize = 1;

/// Returns the first column past the album art (margin + display columns),
/// given the art's display columns.
pub fn art_end_col(art_cols: u16) -> (r: u16)
    requires
        art_cols + ART_LEFT_MARGIN <= u16::MAX,
    ensures
        r == ART_LEFT_MARGIN + art_cols,
{
    ART_LEFT_MARGIN + art_cols
}

/// The grid column (of four) that display column `col` of `cols` shows,
/// nearest-neighbour.
pub open spec fn art_data_column(col: int, cols: int) -> int {
    col * 4 / cols
}

/// For each of `cols` display columns of half-block art, the column of the
/// four-column colour grid it shows: the art is stretched to `cols` columns
/// by nearest-neighbour mapping.
pub fn art_row_columns(cols: u16) -> (r: Vec<usize>)
    ensures
        r@.len() == cols,
        forall|c: int| 0 <= c < cols ==> #[trigger] r@[c] == art_data_column(c, cols as int),
        forall|c: int| 0 <= c < cols ==> #[trigger] r@[c] < 4,
{
    let mut r: Vec<usize> = Vec::new();
    let mut col: u16 = 0;
    while col < cols
        invariant
            col <= cols,
            r@.len() == col,
            forall|c: int| 0 <= c < col ==> #[trigger] r@[c] == art_data_column(c, cols as int),
            forall|c: int| 0 <= c < col ==> #[trigger] r@[c] < 4,
        decreases cols - col,
    {
        proof {
            let c = col as int;
            let n = cols as int;
            assert(c * 4 < n * 4) by (nonlinear_arith)
                requires 0 <= c < n;
            assert(c * 4 / n < 4) by (nonlinear_arith)
                requires 0 <= c * 4 < n * 4, n > 0;
            assert(c * 4 / n >= 0) by (nonlinear_arith)
                requires 0 <= c, n > 0;
        }
        let d: usize = (col as usize) * 4 / (cols as usize);
        r.push(d);
        col = col + 1;
    }
    r
}

/// The pixel size of one terminal cell, from the window's size in pixels and
/// in cells; `None` where the terminal reports no pixel size or a cell would
/// be under one pixel in either direction.
pub open spec fn cell_pixel_size_spec(width: u16, height: u16, columns: u16, rows: u16) -> Option<(u16, u16)> {
    if width == 0 || height == 0 || columns == 0 || rows == 0 {
        None
    } else if width / columns == 0 || height / rows == 0 {
        None
    } else {
        Some(((width / columns) as u16, (height / rows) as u16))
    }
}

/// The pixel size of one terminal cell from the reported window size; see
/// [`cell_pixel_size_spec`].
pub fn cell_pixel_size(width: u16, height: u16, columns: u16, rows: u16) -> (r: Option<(u16, u16)>)
    ensures
        r == cell_pixel_size_spec(width, height, columns, rows),
{
    if width == 0 || height == 0 || columns == 0 || rows == 0 {
        return None;
    }
    let cell_width: u16 = width / columns;
    let cell_height: u16 = height / rows;
    if cell_width == 0 || cell_height == 0 {
        return None;
    }
    Some((cell_width, cell_height))
}

/// Horizontal and vertical geometry of an art column: a left margin, the art
/// cells themselves, a right margin, and the art height in terminal rows.
#[derive(Debug, Clone, Copy, PartialEq, Eq, Structural)]
pub struct ArtColumn {
    /// Columns of padding before the art.
    pub left_margin: u16,
    /// Columns the art itself occupies.
    pub cols: u16,
    /// Columns of padding between the art and the following text.
    pub right_margin: u16,
    /// Terminal rows the art occupies.
    pub rows: u16,
}

/// The thumbnail column is as wide as the art's left margin, the art and a
/// one-column gap: its total width is one more than the first column past
/// the art (for art narrow enough that the sum fits in `u16`).
pub proof fn lemma_thumbnail_total_width(art_cols: u16)
    requires
        art_cols <= u16::MAX - 2,
    ensures
        ({
            let c = ArtColumn { left_margin: ART_LEFT_MARGIN, cols: art_cols, right_margin: 1, rows: ART_TERM_ROWS };
            &&& c.left_margin + c.cols + c.right_margin <= u16::MAX
            &&& c.left_margin + c.cols + c.right_margin == (ART_LEFT_MARGIN + art_cols) + 1
        }),
{
}

impl ArtColumn {
    /// The thumbnail art column (now-playing bar and group headers), for art
    /// `art_cols` columns wide.
    pub fn thumbnail(art_cols: u16) -> (r: ArtColumn)
        ensures
            r == (ArtColumn { left_margin: ART_LEFT_MARGIN, cols: art_cols, right_margin: 1, rows: ART_TERM_ROWS }),
    {
        ArtColumn { left_margin: ART_LEFT_MARGIN, cols: art_cols, right_margin: 1, rows: ART_TERM_ROWS }
    }

    /// The large art column beside tracks, for art `large_art_cols` columns wide.
    pub fn large(large_art_cols: u16) -> (r: ArtColumn)
        ensures
            r == (ArtColumn { left_margin: 1, cols: large_art_cols, right_margin: 1, rows: 8 }),
    {
        ArtColumn {
            left_margin: LARGE_ART_LEFT_MARGIN as u16,
            cols: large_art_cols,
            right_margin: LARGE_ART_RIGHT_MARGIN as u16,
            rows: LARGE_ART_TERM_ROWS as u16,
        }
    }

    /// The total width of the column, margins included.
    pub fn total_width(&self) -> (r: u16)
        requires
            self.left_margin + self.cols + self.right_margin <= u16::MAX,
        ensures
            r == self.left_margin + self.cols + self.right_margin,
    {
        self.left_margin + self.cols + self.right_margin
    }

    /// The art dimensions in character cells.
    pub fn size(&self) -> (r: Size)
        ensures
            r == (Size { width: self.cols, height: self.rows }),
    {
        Size { width: self.cols, height: self.rows }
    }

    /// The `Rect` the art cells occupy when the art's top row is at `y`
    /// inside `area`, clipped to `area`.
    pub fn rect(&self, area: Rect, y: u16) -> (r: Rect)
        requires
            area.x + self.left_margin <= u16::MAX,
        ensures
            r == Rect::spec_new((area.x + self.left_margin) as u16, y, self.cols, self.rows).spec_intersection(area),
    {
        Rect::new(area.x + self.left_margin, y, self.cols, self.rows).intersection(area)
    }
}

// ── Library geometry ────────────────────────────────────────────────────────

pub const TRACK_INDENT: usize = 5;
pub const HEART_COL_OFFSET: usize = 2;

/// The library list's measurements.
#[derive(Debug, Clone, Copy, PartialEq, Eq, Structural)]
pub struct LibraryGeometry {
    pub total_lines: usize,
    pub visible_height: usize,
    pub has_scrollbar: bool,
    pub list_width: usize,
    pub heart_col: usize,
}

/// Computes library geometry with the given scroll indicator width: a
/// scrollbar is shown when the lines overflow the area, the list is narrowed
/// by the indicator (and scrollbar), and the heart sits two columns before
/// the list's end.
pub fn library_geometry(area: Rect, total_lines: usize, scroll_indicator_width: usize) -> (g: LibraryGeometry)
    requires
        scroll_indicator_width < usize::MAX,
    ensures
        g.total_lines == total_lines,
        g.visible_height == area.height,
        g.has_scrollbar == (total_lines > area.height),
        g.list_width == sat_sub(area.width as int, scroll_indicator_width + if g.has_scrollbar { 1int } else { 0int }),
        g.heart_col == area.x + sat_sub(g.list_width as int, HEART_COL_OFFSET as int),
{
    let visible_height = area.height as usize;
    let has_scrollbar = total_lines > visible_height;
    let reserved = scroll_indicator_width + if has_scrollbar { 1 } else { 0 };
    let list_width = (area.width as usize).saturating_sub(reserved);
    let heart_col = area.x as usize + list_width.saturating_sub(HEART_COL_OFFSET);
    LibraryGeometry { total_lines, visible_height, has_scrollbar, list_width, heart_col }
}

// ── Interaction constants ───────────────────────────────────────────────────

pub const PAGE_SCROLL_SIZE: usize = 20;
pub const SCROLL_WHEEL_STEPS: usize = 6;
pub const LOG_TARGET_WIDTH: usize = 24;
pub const LOG_TARGET_SUFFIX_LEN: usize = 21;

} // verus!
