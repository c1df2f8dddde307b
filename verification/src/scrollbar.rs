//! Scrollbar geometry: where the thumb sits on the rail and which offset a
//! pointer on the rail selects.
use vstd::prelude::*;
use crate::geometry::{Rect, sat_add, sat_sub};

verus! {

/// A scrollbar: the rail between its two end caps, the thumb's start and length
/// along the rail, and the largest scroll offset.
#[derive(Clone, Copy, Debug, PartialEq, Eq, Structural)]
pub struct ScrollbarGeometry {
    pub rail: Rect,
    pub thumb_start: u16,
    pub thumb_length: u16,
    pub max_offset: usize,
}

/// A rail runs horizontally when it is at least as wide as it is tall.
pub open spec fn horizontal(rail: Rect) -> bool {
    rail.width >= rail.height
}

pub open spec fn rail_start(rail: Rect) -> u16 {
    if horizontal(rail) { rail.x } else { rail.y }
}

pub open spec fn rail_length(rail: Rect) -> u16 {
    if horizontal(rail) { rail.width } else { rail.height }
}

/// Offset selected by a pointer: its distance from the rail start minus the grab
/// point, limited to the thumb's travel, scaled to `0..=max_offset` and rounded
/// half up.
pub open spec fn pointer_offset_value(g: ScrollbarGeometry, pointer: u16, pointer_offset: u16) -> int {
    let travel = sat_sub(rail_length(g.rail), g.thumb_length) as int;
    if travel == 0 || g.max_offset == 0 {
        0
    } else {
        let moved = sat_sub(sat_sub(pointer, rail_start(g.rail)), pointer_offset) as int;
        let position = if moved < travel { moved } else { travel };
        let scaled = (position * g.max_offset + travel / 2) / travel;
        if scaled < g.max_offset { scaled } else { g.max_offset as int }
    }
}

impl ScrollbarGeometry {
    /// The thumb as a rectangle on the rail.
    pub fn thumb_area(self) -> (r: Rect)
        ensures
            horizontal(self.rail) ==> r == Rect::spec_new(sat_add(self.rail.x, self.thumb_start), self.rail.y, self.thumb_length, self.rail.height),
            !horizontal(self.rail) ==> r == Rect::spec_new(self.rail.x, sat_add(self.rail.y, self.thumb_start), self.rail.width, self.thumb_length),
    {
        if self.rail.width >= self.rail.height {
            Rect::new(self.rail.x.saturating_add(self.thumb_start), self.rail.y, self.thumb_length, self.rail.height)
        } else {
            Rect::new(self.rail.x, self.rail.y.saturating_add(self.thumb_start), self.rail.width, self.thumb_length)
        }
    }

    /// The scroll offset for a pointer at `pointer` that grabbed the thumb
    /// `pointer_offset` cells from its start.
    pub fn offset_at(self, pointer: u16, pointer_offset: u16) -> (r: usize)
        ensures
            r == pointer_offset_value(self, pointer, pointer_offset),
            r <= self.max_offset,
    {
        let (start, length) = if self.rail.width >= self.rail.height {
            (self.rail.x, self.rail.width)
        } else {
            (self.rail.y, self.rail.height)
        };
        let travel = length.saturating_sub(self.thumb_length);
        if travel == 0 || self.max_offset == 0 {
            return 0;
        }
        let position = pointer.saturating_sub(start).saturating_sub(pointer_offset).min(travel);
        let p = position as u128;
        let m = self.max_offset as u128;
        let t = travel as u128;
        assert(p * m <= 0xFFFF * 0xFFFF_FFFF_FFFF_FFFF) by (nonlinear_arith)
            requires p <= 0xFFFF, m <= 0xFFFF_FFFF_FFFF_FFFF;
        let scaled = (p * m + t / 2) / t;
        if scaled < m { scaled as usize } else { self.max_offset }
    }
}

/// The thumb length in cells: the visible share of the usable rail, at least one
/// cell and at most the whole rail.
pub open spec fn thumb_len(usable: int, visible: int, content: int) -> int {
    let raw = (usable * visible) / content;
    if raw < 1 { 1 } else if raw > usable { usable } else { raw }
}

/// Scrollbar for a rail showing `visible` of `content` rows scrolled to `offset`:
/// `None` when the rail is shorter than three cells or flat, or there is nothing to
/// scroll; otherwise a rail one cell in from each end, a thumb sized to the visible
/// share and placed in proportion to the clamped offset.
pub open spec fn scrollbar(rail: Rect, visible: int, content: int, offset: int) -> Option<ScrollbarGeometry> {
    let length = rail_length(rail) as int;
    let cross = if horizontal(rail) { rail.height } else { rail.width };
    if length < 3 || cross == 0 || visible == 0 || content <= visible {
        None
    } else {
        let usable = length - 2;
        let max_offset = content - visible;
        let thumb = thumb_len(usable, visible, content);
        let travel = usable - thumb;
        let clamped = if offset < max_offset { offset } else { max_offset };
        let start = if travel == 0 { 0 } else { (travel * clamped) / max_offset };
        let inner = if horizontal(rail) {
            Rect::spec_new(sat_add(rail.x, 1), rail.y, usable as u16, rail.height)
        } else {
            Rect::spec_new(rail.x, sat_add(rail.y, 1), rail.width, usable as u16)
        };
        Some(ScrollbarGeometry { rail: inner, thumb_start: start as u16, thumb_length: thumb as u16, max_offset: max_offset as usize })
    }
}

/// Builds the scrollbar geometry for a rail.
pub fn geometry(rail: Rect, visible: usize, content: usize, offset: usize) -> (r: Option<ScrollbarGeometry>)
    ensures
        r == scrollbar(rail, visible as int, content as int, offset as int),
        r matches Some(g) ==> 1 <= g.thumb_length && g.thumb_start + g.thumb_length <= rail_length(rail) - 2
            && g.max_offset == content - visible,
{
    let (length, cross) = if rail.width >= rail.height { (rail.width, rail.height) } else { (rail.height, rail.width) };
    if length < 3 || cross == 0 || visible == 0 || content <= visible {
        return None;
    }
    let usable = length - 2;
    let max_offset = content - visible;
    let u = usable as u128;
    let v = visible as u128;
    let c = content as u128;
    assert(u * v <= 0xFFFF * 0xFFFF_FFFF_FFFF_FFFF) by (nonlinear_arith)
        requires u <= 0xFFFF, v <= 0xFFFF_FFFF_FFFF_FFFF;
    let raw = (u * v) / c;
    assert(raw <= u) by (nonlinear_arith)
        requires raw == (u * v) / (c as int), v < c, c > 0;
    let thumb_length: u16 = if raw < 1 { 1 } else if raw > u { usable } else { raw as u16 };
    let travel = usable - thumb_length;
    let clamped = if offset < max_offset { offset } else { max_offset };
    let thumb_start: u16 = if travel == 0 {
        0
    } else {
        let t = travel as u128;
        let k = clamped as u128;
        let m = max_offset as u128;
        assert(t * k <= 0xFFFF * 0xFFFF_FFFF_FFFF_FFFF) by (nonlinear_arith)
            requires t <= 0xFFFF, k <= 0xFFFF_FFFF_FFFF_FFFF;
        assert((t * k) / (m as int) <= t) by (nonlinear_arith)
            requires k <= m, m > 0;
        ((t * k) / m) as u16
    };
    let inner = if rail.width >= rail.height {
        Rect::new(rail.x.saturating_add(1), rail.y, usable, rail.height)
    } else {
        Rect::new(rail.x, rail.y.saturating_add(1), rail.width, usable)
    };
    Some(ScrollbarGeometry { rail: inner, thumb_start, thumb_length, max_offset })
}

/// Law: a pointer at or before the start of the rail scrolls to the top.
pub proof fn law_pointer_at_rail_start_selects_zero(g: ScrollbarGeometry, pointer: u16, pointer_offset: u16)
    requires
        pointer <= rail_start(g.rail),
    ensures
        pointer_offset_value(g, pointer, pointer_offset) == 0,
{
    let travel = sat_sub(rail_length(g.rail), g.thumb_length) as int;
    if travel != 0 && g.max_offset != 0 {
        let m = g.max_offset as int;
        assert((0 * m + travel / 2) / travel == 0) by (nonlinear_arith)
            requires travel > 0;
    }
}

/// Law: once the pointer has dragged the thumb to the end of its travel, the
/// offset is the largest one.
pub proof fn law_pointer_past_travel_selects_max(g: ScrollbarGeometry, pointer: u16, pointer_offset: u16)
    requires
        sat_sub(rail_length(g.rail), g.thumb_length) > 0,
        sat_sub(sat_sub(pointer, rail_start(g.rail)), pointer_offset) >= sat_sub(rail_length(g.rail), g.thumb_length),
    ensures
        pointer_offset_value(g, pointer, pointer_offset) == g.max_offset,
{
    let travel = sat_sub(rail_length(g.rail), g.thumb_length) as int;
    let m = g.max_offset as int;
    assert((travel * m + travel / 2) / travel == m) by (nonlinear_arith)
        requires travel > 0, m >= 0;
}

/// Law: moving the pointer further along the rail never scrolls back.
pub proof fn law_offset_is_monotone(g: ScrollbarGeometry, a: u16, b: u16, pointer_offset: u16)
    requires
        a <= b,
    ensures
        pointer_offset_value(g, a, pointer_offset) <= pointer_offset_value(g, b, pointer_offset),
{
    let travel = sat_sub(rail_length(g.rail), g.thumb_length) as int;
    if travel != 0 && g.max_offset != 0 {
        let m = g.max_offset as int;
        let ma = sat_sub(sat_sub(a, rail_start(g.rail)), pointer_offset) as int;
        let mb = sat_sub(sat_sub(b, rail_start(g.rail)), pointer_offset) as int;
        let pa = if ma < travel { ma } else { travel };
        let pb = if mb < travel { mb } else { travel };
        assert(pa <= pb);
        assert((pa * m + travel / 2) / travel <= (pb * m + travel / 2) / travel) by (nonlinear_arith)
            requires pa <= pb, m >= 0, travel > 0, pa >= 0;
    }
}

} // verus!
