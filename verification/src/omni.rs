//! The window of rows a scrolling list shows.
use vstd::prelude::*;

verus! {

/// First and one-past-last row shown of `item_count` rows in `row_count` lines,
/// starting near `suggested_start` but moved just enough to show `selected`.
pub open spec fn window(item_count: int, row_count: int, suggested_start: int, selected: Option<usize>) -> (int, int) {
    if item_count == 0 || row_count == 0 {
        (0, 0)
    } else {
        let max_start = if item_count < row_count { 0 } else { item_count - row_count };
        let start = if suggested_start < max_start { suggested_start } else { max_start };
        let start = match selected {
            Some(s) => {
                let moved = if s < start {
                    s as int
                } else if s >= start + row_count {
                    s - (row_count - 1)
                } else {
                    start
                };
                if moved < max_start { moved } else { max_start }
            },
            None => start,
        };
        let end = if start + row_count < item_count { start + row_count } else { item_count };
        (start, end)
    }
}

/// The rows to show.
pub fn visible_window(item_count: usize, row_count: usize, suggested_start: usize, selected: Option<usize>) -> (r: (usize, usize))
    ensures
        (r.0 as int, r.1 as int) == window(item_count as int, row_count as int, suggested_start as int, selected),
{
    if item_count == 0 || row_count == 0 {
        return (0, 0);
    }
    let max_start = item_count.saturating_sub(row_count);
    let mut start = if suggested_start < max_start { suggested_start } else { max_start };
    if let Some(selected) = selected {
        if selected < start {
            start = selected;
        } else if selected >= start.saturating_add(row_count) {
            start = selected.saturating_sub(row_count.saturating_sub(1));
        }
        start = if start < max_start { start } else { max_start };
    }
    let end = start.saturating_add(row_count);
    (start, if end < item_count { end } else { item_count })
}

/// Law: a selected row that exists is always inside the window, and the window
/// never holds more rows than fit or runs past the list.
pub proof fn law_selected_row_is_visible(item_count: usize, row_count: usize, suggested_start: usize, selected: usize)
    requires
        selected < item_count,
        row_count > 0,
    ensures
        ({
            let (start, end) = window(item_count as int, row_count as int, suggested_start as int, Some(selected));
            &&& start <= selected < end
            &&& end <= item_count
            &&& end - start <= row_count
        }),
{
}

} // verus!
