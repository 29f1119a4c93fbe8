//! The screen furniture around the panels: the scrub bar and the volume
//! slider (what a click on them means and what their cells show) and the
//! quit confirmation dialog.
use vstd::prelude::*;

use crate::geometry::{sat_sub, Rect};
use crate::help_bar::blen;
use crate::layout::{ScrubVolumeLayout, VOLUME_BAR_PADDING, VOLUME_ICON_WIDTH};
use crate::text::chars_of;

verus! {

/// What a click on the scrub row lands on.
#[derive(Debug, Clone, Copy, PartialEq, Eq, Structural)]
pub enum ScrubHit {
    /// Nothing clickable.
    Nothing,
    /// The volume bar: set the volume to `offset / span` (of the bar's last
    /// cell).
    Volume { offset: u16, span: u16 },
    /// The scrub bar: seek to `offset / width` of the track.
    Scrub { offset: u16, width: u16 },
}

/// Where a click at column `x` of the scrub row lands. The volume bar starts
/// after the note icon and leaves room for the percentage; a bar of one cell
/// or less takes no clicks. The scrub bar takes clicks anywhere on it.
pub open spec fn scrub_hit_spec(sv: ScrubVolumeLayout, x: u16) -> ScrubHit {
    let v = sv.volume;
    let s = sv.scrub_bar;
    if v.x <= x < v.x + v.width {
        let bar_start = v.x + VOLUME_ICON_WIDTH;
        let bar_width = sat_sub(v.width as int, VOLUME_BAR_PADDING as int);
        if bar_width > 1 && bar_start <= x < bar_start + bar_width {
            ScrubHit::Volume { offset: (x - bar_start) as u16, span: (bar_width - 1) as u16 }
        } else {
            ScrubHit::Nothing
        }
    } else if s.x <= x < s.x + s.width {
        ScrubHit::Scrub { offset: (x - s.x) as u16, width: s.width }
    } else {
        ScrubHit::Nothing
    }
}

/// Where a click at column `x` of the scrub row lands; see
/// [`scrub_hit_spec`].
pub fn scrub_volume_hit(sv: &ScrubVolumeLayout, x: u16) -> (r: ScrubHit)
    ensures
        r == scrub_hit_spec(*sv, x),
{
    let v = sv.volume;
    let s = sv.scrub_bar;
    if (x as u32) >= (v.x as u32) && (x as u32) < (v.x as u32) + (v.width as u32) {
        let bar_start = v.x as u32 + VOLUME_ICON_WIDTH as u32;
        let bar_width = v.width.saturating_sub(VOLUME_BAR_PADDING) as u32;
        if bar_width > 1 && (x as u32) >= bar_start && (x as u32) < bar_start + bar_width {
            ScrubHit::Volume { offset: ((x as u32) - bar_start) as u16, span: (bar_width - 1) as u16 }
        } else {
            ScrubHit::Nothing
        }
    } else if (x as u32) >= (s.x as u32) && (x as u32) < (s.x as u32) + (s.width as u32) {
        ScrubHit::Scrub { offset: x - s.x, width: s.width }
    } else {
        ScrubHit::Nothing
    }
}

/// How a scrub-bar cell is coloured.
#[derive(Debug, Clone, Copy, PartialEq, Eq, Structural)]
pub enum ScrubTone {
    /// Played: a full block in the playing colour.
    Filled,
    /// The half-played cell: a left half block.
    Half,
    /// Not yet played: background.
    Empty,
    /// Label text over the played part: colours inverted.
    LabelOnFilled,
    /// Label text over the rest.
    LabelOnEmpty,
}

/// The cell in column `col` of a scrub bar `width` cells wide, filled to
/// `half_blocks` half cells, with `label` (`label_width` bytes wide)
/// centred over it.
pub open spec fn scrub_cell(col: int, width: u16, half_blocks: u16, label: Seq<char>, label_width: int) -> (char, ScrubTone) {
    let full = half_blocks / 2;
    let has_half = half_blocks % 2 == 1;
    let off = sat_sub(width as int, label_width) / 2;
    if off <= col < off + label.len() {
        (label[col - off], if col < full { ScrubTone::LabelOnFilled } else { ScrubTone::LabelOnEmpty })
    } else if col < full {
        ('\u{2588}', ScrubTone::Filled)
    } else if col == full && has_half {
        ('\u{258C}', ScrubTone::Half)
    } else {
        (' ', ScrubTone::Empty)
    }
}

/// The cells of a scrub bar `width` cells wide, filled to `half_blocks`
/// half cells (two per cell, so a cell can be half played), with the time
/// `label` centred over it (its text inverted over the played part; text
/// that would run past the bar is cut).
pub fn scrub_cells(width: u16, half_blocks: u16, label: &str) -> (r: Vec<(char, ScrubTone)>)
    requires
        blen(label@) <= u16::MAX,
    ensures
        r@.len() == width,
        forall|c: int| 0 <= c < width ==> #[trigger] r@[c] == scrub_cell(c, width, half_blocks, label@, blen(label@)),
{
    let chars = chars_of(label);
    let label_width = label.len() as u16;
    let full = half_blocks / 2;
    let has_half = half_blocks % 2 == 1;
    let off = width.saturating_sub(label_width) / 2;
    let mut cells: Vec<(char, ScrubTone)> = Vec::new();
    let mut col: u16 = 0;
    while col < width
        invariant
            col <= width,
            cells@.len() == col,
            chars@ == label@,
            label_width == blen(label@),
            full == half_blocks / 2,
            has_half == (half_blocks % 2 == 1),
            off == sat_sub(width as int, label_width as int) / 2,
            forall|c: int| 0 <= c < col ==> #[trigger] cells@[c] == scrub_cell(c, width, half_blocks, label@, blen(label@)),
        decreases width - col,
    {
        let cell = if col >= off && ((col - off) as usize) < chars.len() {
            (chars[(col - off) as usize], if col < full { ScrubTone::LabelOnFilled } else { ScrubTone::LabelOnEmpty })
        } else if col < full {
            ('\u{2588}', ScrubTone::Filled)
        } else if col == full && has_half {
            ('\u{258C}', ScrubTone::Half)
        } else {
            (' ', ScrubTone::Empty)
        };
        cells.push(cell);
        col = col + 1;
    }
    cells
}

/// The volume bar inside a slider `slider_width` cells wide: its width (the
/// slider less the icon and the percentage), and how many of its cells are
/// filled and empty when `filled` are asked for.
pub fn volume_bar(slider_width: u16, filled: usize) -> (r: (usize, usize, usize))
    ensures
        r.0 == sat_sub(slider_width as int, VOLUME_BAR_PADDING as int),
        r.1 == (if filled <= r.0 { filled } else { r.0 }),
        r.2 == r.0 - r.1,
{
    let bar_width = (slider_width as usize).saturating_sub(VOLUME_BAR_PADDING as usize);
    let f = if filled <= bar_width { filled } else { bar_width };
    (bar_width, f, bar_width - f)
}

/// The quit dialog's prompt width: `Quit? y/n` is nine columns, plus a
/// border and a space of padding on each side.
pub const QUIT_POPUP_WIDTH: u16 = 13;
/// The quit dialog's height: one line inside a border.
pub const QUIT_POPUP_HEIGHT: u16 = 3;

/// The quit dialog's rectangle: centred on the screen.
pub open spec fn quit_popup_spec(size: Rect) -> Rect {
    Rect::spec_new(
        (size.x + sat_sub(size.width as int, QUIT_POPUP_WIDTH as int) / 2) as u16,
        (size.y + sat_sub(size.height as int, QUIT_POPUP_HEIGHT as int) / 2) as u16,
        QUIT_POPUP_WIDTH,
        QUIT_POPUP_HEIGHT,
    )
}

/// Where the quit confirmation dialog is drawn on a screen of `size`.
pub fn quit_popup_rect(size: Rect) -> (r: Rect)
    requires
        size.wf(),
    ensures
        r == quit_popup_spec(size),
{
    let x = size.x + size.width.saturating_sub(QUIT_POPUP_WIDTH) / 2;
    let y = size.y + size.height.saturating_sub(QUIT_POPUP_HEIGHT) / 2;
    Rect::new(x, y, QUIT_POPUP_WIDTH, QUIT_POPUP_HEIGHT)
}

} // verus!
