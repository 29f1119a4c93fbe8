//! Terminal-cell rectangles.
use vstd::prelude::*;

verus! {

/// A rectangle of terminal cells: its top-left corner and its size.
#[derive(Debug, Clone, Copy, PartialEq, Eq, Structural)]
pub struct Rect {
    pub x: u16,
    pub y: u16,
    pub width: u16,
    pub height: u16,
}

/// A size in terminal cells.
#[derive(Debug, Clone, Copy, PartialEq, Eq, Structural)]
pub struct Size {
    pub width: u16,
    pub height: u16,
}

/// `a + b`, saturating at `u16::MAX`.
pub open spec fn sat_add(a: u16, b: u16) -> u16 {
    if a + b <= u16::MAX { (a + b) as u16 } else { u16::MAX }
}

/// `a - b`, saturating at zero.
pub open spec fn sat_sub(a: int, b: int) -> int {
    if a >= b { a - b } else { 0 }
}

pub open spec fn min_u16(a: u16, b: u16) -> u16 {
    if a <= b { a } else { b }
}

pub open spec fn max_u16(a: u16, b: u16) -> u16 {
    if a >= b { a } else { b }
}

/// `v` clamped into `[lo, hi]` (requires `lo <= hi`).
pub open spec fn clamp_u16(v: u16, lo: u16, hi: u16) -> u16 {
    if v < lo { lo } else if v > hi { hi } else { v }
}

/// `v.clamp(lo, hi)`; `lo <= hi`, as `Ord::clamp` demands.
pub fn clamp(v: u16, lo: u16, hi: u16) -> (r: u16)
    requires
        lo <= hi,
    ensures
        r == clamp_u16(v, lo, hi),
{
    if v < lo { lo } else if v > hi { hi } else { v }
}

impl Rect {
    /// The rectangle fits in the coordinate space: its right and bottom edges
    /// do not pass `u16::MAX`.
    pub open spec fn wf(self) -> bool {
        self.x + self.width <= u16::MAX && self.y + self.height <= u16::MAX
    }

    /// The first column right of the rectangle.
    pub open spec fn right(self) -> int {
        self.x + self.width
    }

    /// The first row below the rectangle.
    pub open spec fn bottom(self) -> int {
        self.y + self.height
    }

    /// Whether the cell `(px, py)` lies in the rectangle.
    pub open spec fn has(self, px: int, py: int) -> bool {
        self.x <= px < self.right() && self.y <= py < self.bottom()
    }

    /// The rectangle `Rect::new` builds: the size is shrunk so that the right
    /// and bottom edges stay within `u16::MAX`.
    pub open spec fn spec_new(x: u16, y: u16, width: u16, height: u16) -> Rect {
        Rect { x, y, width: (sat_add(x, width) - x) as u16, height: (sat_add(y, height) - y) as u16 }
    }

    /// Creates a rectangle, shrinking it so it stays in the coordinate space.
    pub fn new(x: u16, y: u16, width: u16, height: u16) -> (r: Rect)
        ensures
            r == Rect::spec_new(x, y, width, height),
            r.wf(),
    {
        let w = x.saturating_add(width) - x;
        let h = y.saturating_add(height) - y;
        Rect { x, y, width: w, height: h }
    }

    /// Whether the cell `(px, py)` lies in the rectangle.
    pub fn contains(&self, px: u16, py: u16) -> (b: bool)
        ensures
            b == self.has(px as int, py as int),
    {
        (px as u32) >= (self.x as u32) && (px as u32) < (self.x as u32) + (self.width as u32)
            && (py as u32) >= (self.y as u32) && (py as u32) < (self.y as u32) + (self.height as u32)
    }

    /// The overlap of two rectangles (empty when they do not overlap).
    pub open spec fn spec_intersection(self, other: Rect) -> Rect {
        let x1 = max_u16(self.x, other.x);
        let y1 = max_u16(self.y, other.y);
        let x2 = min_u16(sat_add(self.x, self.width), sat_add(other.x, other.width));
        let y2 = min_u16(sat_add(self.y, self.height), sat_add(other.y, other.height));
        Rect { x: x1, y: y1, width: sat_sub(x2 as int, x1 as int) as u16, height: sat_sub(y2 as int, y1 as int) as u16 }
    }

    /// The overlap of two rectangles (empty when they do not overlap).
    pub fn intersection(self, other: Rect) -> (r: Rect)
        ensures
            r == self.spec_intersection(other),
    {
        let x1 = if self.x >= other.x { self.x } else { other.x };
        let y1 = if self.y >= other.y { self.y } else { other.y };
        let r1 = self.x.saturating_add(self.width);
        let r2 = other.x.saturating_add(other.width);
        let b1 = self.y.saturating_add(self.height);
        let b2 = other.y.saturating_add(other.height);
        let x2 = if r1 <= r2 { r1 } else { r2 };
        let y2 = if b1 <= b2 { b1 } else { b2 };
        Rect { x: x1, y: y1, width: x2.saturating_sub(x1), height: y2.saturating_sub(y1) }
    }

    /// The area inside a one-cell border on every side.
    pub open spec fn spec_inner(self) -> Rect {
        Rect {
            x: sat_add(self.x, 1),
            y: sat_add(self.y, 1),
            width: sat_sub(self.width as int, 2) as u16,
            height: sat_sub(self.height as int, 2) as u16,
        }
    }

    /// The area inside a one-cell border on every side.
    pub fn inner(self) -> (r: Rect)
        requires
            self.wf(),
        ensures
            r == self.spec_inner(),
    {
        Rect {
            x: self.x.saturating_add(1),
            y: self.y.saturating_add(1),
            width: self.width.saturating_sub(2),
            height: self.height.saturating_sub(2),
        }
    }
}

} // verus!
