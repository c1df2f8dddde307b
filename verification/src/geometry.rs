//! Screen rectangles and positions measured in terminal cells.
use vstd::prelude::*;

verus! {

/// A rectangle of terminal cells; `x`/`y` is its top-left corner.
#[derive(Clone, Copy, Debug, PartialEq, Eq, Structural)]
pub struct Rect {
    pub x: u16,
    pub y: u16,
    pub width: u16,
    pub height: u16,
}

/// A cell position on the screen.
#[derive(Clone, Copy, Debug, PartialEq, Eq, Structural)]
pub struct Position {
    pub x: u16,
    pub y: u16,
}

pub open spec fn sat_add(a: u16, b: u16) -> u16 {
    if a + b > u16::MAX { u16::MAX } else { (a + b) as u16 }
}

pub open spec fn sat_sub(a: u16, b: u16) -> u16 {
    if a < b { 0 } else { (a - b) as u16 }
}

impl Rect {
    pub open spec fn spec_new(x: u16, y: u16, width: u16, height: u16) -> Rect {
        Rect { x, y, width: (sat_add(x, width) - x) as u16, height: (sat_add(y, height) - y) as u16 }
    }

    /// A rectangle whose width and height are shrunk so that its right and bottom
    /// edges stay within `u16::MAX` (as `ratatui::layout::Rect::new` does).
    pub fn new(x: u16, y: u16, width: u16, height: u16) -> (r: Rect)
        ensures
            r == Rect::spec_new(x, y, width, height),
    {
        Rect { x, y, width: x.saturating_add(width) - x, height: y.saturating_add(height) - y }
    }

    /// The empty rectangle at the origin.
    pub fn zero() -> (r: Rect)
        ensures
            r == (Rect { x: 0, y: 0, width: 0, height: 0 }),
    {
        Rect { x: 0, y: 0, width: 0, height: 0 }
    }

    pub open spec fn spec_right(self) -> u16 {
        sat_add(self.x, self.width)
    }

    pub open spec fn spec_bottom(self) -> u16 {
        sat_add(self.y, self.height)
    }

    /// First column to the right of the rectangle (saturating).
    #[verifier::when_used_as_spec(spec_right)]
    pub fn right(self) -> (r: u16)
        ensures
            r == self.spec_right(),
    {
        self.x.saturating_add(self.width)
    }

    /// First row below the rectangle (saturating).
    #[verifier::when_used_as_spec(spec_bottom)]
    pub fn bottom(self) -> (r: u16)
        ensures
            r == self.spec_bottom(),
    {
        self.y.saturating_add(self.height)
    }

    pub open spec fn spec_is_empty(self) -> bool {
        self.width == 0 || self.height == 0
    }

    /// Whether the rectangle covers no cell.
    #[verifier::when_used_as_spec(spec_is_empty)]
    pub fn is_empty(self) -> (r: bool)
        ensures
            r == self.spec_is_empty(),
    {
        self.width == 0 || self.height == 0
    }

    pub open spec fn spec_contains(self, column: u16, row: u16) -> bool {
        self.x <= column < self.spec_right() && self.y <= row < self.spec_bottom()
    }

    /// The two rectangles share a cell (as `ratatui::layout::Rect::intersects`
    /// decides it, by their edges).
    pub open spec fn spec_intersects(self, other: Rect) -> bool {
        self.x < other.spec_right() && self.spec_right() > other.x
            && self.y < other.spec_bottom() && self.spec_bottom() > other.y
    }

    /// Whether the two rectangles overlap.
    pub fn intersects(self, other: Rect) -> (r: bool)
        ensures
            r == self.spec_intersects(other),
    {
        self.x < other.right() && self.right() > other.x && self.y < other.bottom() && self.bottom() > other.y
    }
}

/// Whether the cell at `column`, `row` lies inside `area`.
pub fn contains(area: Rect, column: u16, row: u16) -> (r: bool)
    ensures
        r == area.spec_contains(column, row),
{
    column >= area.x && column < area.right() && row >= area.y && row < area.bottom()
}


/// The inside of a rectangle drawn with a border on every side (what
/// `Block::inner` gives for `Borders::ALL` and no padding).
pub open spec fn spec_bordered_inner(r: Rect) -> Rect {
    let x = if sat_add(r.x, 1) < r.spec_right() { sat_add(r.x, 1) } else { r.spec_right() };
    let y = if sat_add(r.y, 1) < r.spec_bottom() { sat_add(r.y, 1) } else { r.spec_bottom() };
    Rect { x, y, width: sat_sub(r.width, 2), height: sat_sub(r.height, 2) }
}

/// The inside of a bordered rectangle.
pub fn bordered_inner(r: Rect) -> (i: Rect)
    ensures
        i == spec_bordered_inner(r),
{
    let x = r.x.saturating_add(1).min(r.right());
    let y = r.y.saturating_add(1).min(r.bottom());
    Rect { x, y, width: r.width.saturating_sub(2), height: r.height.saturating_sub(2) }
}

} // verus!
