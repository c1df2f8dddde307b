//! Areas cut out of the screen with `ratatui`'s constraint layout: a centred
//! dialog box, the three rows of the principal DDL view, and rows cut by
//! lengths and minimums.
use vstd::prelude::*;
use crate::geometry::{Rect, sat_sub};
use ratatui::layout::{Constraint, Direction, Layout};

verus! {

/// A rectangle as its four numbers: column, row, width, height.
pub open spec fn quad(r: Rect) -> (u16, u16, u16, u16) {
    (r.x, r.y, r.width, r.height)
}

/// What `Layout::split` gives for `area` cut along one axis (rows when
/// `vertical`, columns otherwise) by the constraints `Length(first)`,
/// `Length(second)` and `Min(rest_min)`.
pub uninterp spec fn split_lengths(area: (u16, u16, u16, u16), vertical: bool, first: u16, second: u16, rest_min: u16)
    -> ((u16, u16, u16, u16), (u16, u16, u16, u16), (u16, u16, u16, u16));

/// `Layout::split` with the constraints `Length(first)`, `Length(second)` and
/// `Min(rest_min)`. The contract names the three pieces and says nothing more
/// of them: the constraint solver decides where they go.
#[verifier::external_body]
pub(crate) fn split_three(area: Rect, vertical: bool, first: u16, second: u16, rest_min: u16) -> (r: (Rect, Rect, Rect))
    ensures
        split_lengths(quad(area), vertical, first, second, rest_min) == (quad(r.0), quad(r.1), quad(r.2)),
{
    let direction = if vertical { Direction::Vertical } else { Direction::Horizontal };
    let parts = Layout::default()
        .direction(direction)
        .constraints([Constraint::Length(first), Constraint::Length(second), Constraint::Min(rest_min)])
        .split(ratatui::layout::Rect::new(area.x, area.y, area.width, area.height));
    let back = |p: ratatui::layout::Rect| Rect { x: p.x, y: p.y, width: p.width, height: p.height };
    (back(parts[0]), back(parts[1]), back(parts[2]))
}

/// What `Layout::split` gives for `area` cut into rows by `rows`, each a
/// `Min(n)` where its flag is set and a `Length(n)` otherwise.
pub uninterp spec fn row_split(area: (u16, u16, u16, u16), rows: Seq<(bool, u16)>) -> Seq<(u16, u16, u16, u16)>;

/// `Layout::split` in the vertical direction, with one constraint for each
/// entry of `rows`: `Min(n)` where the flag is set, `Length(n)` otherwise. The
/// solver gives one area for each constraint; where they go is only named.
#[verifier::external_body]
pub(crate) fn split_rows(area: Rect, rows: &[(bool, u16)]) -> (r: Vec<Rect>)
    ensures
        r@.len() == rows@.len(),
        Seq::new(r@.len(), |i: int| quad(r@[i])) == row_split(quad(area), rows@),
{
    let constraints: Vec<Constraint> = rows.iter()
        .map(|&(min, n)| if min { Constraint::Min(n) } else { Constraint::Length(n) })
        .collect();
    let parts = Layout::default()
        .direction(Direction::Vertical)
        .constraints(constraints)
        .split(ratatui::layout::Rect::new(area.x, area.y, area.width, area.height));
    parts.iter().map(|p| Rect { x: p.x, y: p.y, width: p.width, height: p.height }).collect()
}

pub open spec fn min16(a: u16, b: u16) -> u16 {
    if a <= b { a } else { b }
}

/// The box of a centred dialog: at most `max_width` by `max_height`, leaving two
/// columns on each side and a row above and below, with the spare room split
/// evenly before it (the odd cell goes after).
pub open spec fn centered_area(area: Rect, max_width: u16, max_height: u16) -> (u16, u16, u16, u16) {
    let width = min16(sat_sub(area.width, 4), max_width);
    let height = min16(sat_sub(area.height, 2), max_height);
    let columns = split_lengths(quad(area), false, ((area.width - width) / 2) as u16, width, 0);
    let rows = split_lengths(columns.1, true, ((area.height - height) / 2) as u16, height, 0);
    rows.1
}

/// Centres a box of at most `max_width` by `max_height` cells in `area`.
pub fn centered(area: Rect, max_width: u16, max_height: u16) -> (r: Rect)
    ensures
        quad(r) == centered_area(area, max_width, max_height),
{
    let width = if area.width.saturating_sub(4) <= max_width { area.width.saturating_sub(4) } else { max_width };
    let height = if area.height.saturating_sub(2) <= max_height { area.height.saturating_sub(2) } else { max_height };
    let columns = split_three(area, false, (area.width - width) / 2, width, 0);
    let rows = split_three(columns.1, true, (area.height - height) / 2, height, 0);
    rows.1
}

/// The rows of the principal DDL view: two for the Overview/DDL selector, two
/// for the status line when there is one (none otherwise), and the rest, at
/// least one, for the editor.
pub fn principal_ddl_layout(area: Rect, has_status: bool) -> (r: [Rect; 3])
    ensures
        split_lengths(quad(area), true, 2, if has_status { 2 } else { 0 }, 1) == (quad(r[0]), quad(r[1]), quad(r[2])),
{
    let parts = split_three(area, true, 2, if has_status { 2 } else { 0 }, 1);
    [parts.0, parts.1, parts.2]
}

} // verus!
