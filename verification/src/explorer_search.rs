//! The Explorer's search panel: the query line, which results are shown, each
//! row's indentation and toggle, the message when nothing is listed, and the
//! status line.
use vstd::prelude::*;
use crate::geometry::{Rect, sat_add, sat_sub};
use crate::text::{owned, push_str, push_decimal, decimal};

verus! {

broadcast use vstd::string::group_string_axioms;

/// Where the catalog search stands.
#[derive(Clone, Debug)]
pub enum SearchLifecycle {
    Idle,
    Loading,
    Ready,
    /// The failure, already free of terminal control sequences.
    Failed(String),
}

/// Where the panel's parts go in `area`: the query line at the top, the
/// results below it, and the status line at the bottom.
#[derive(Clone, Copy, Debug, PartialEq, Eq, Structural)]
pub struct SearchPanel {
    pub input: Rect,
    pub results: Rect,
    pub result_rows: usize,
    pub status: Option<Rect>,
}

/// Lays out the search panel; nothing in an empty area.
pub fn search_panel(area: Rect) -> (r: Option<SearchPanel>)
    ensures
        area.spec_is_empty() ==> r is None,
        !area.spec_is_empty() ==> r == Some(SearchPanel {
            input: Rect::spec_new(area.x, area.y, area.width, 1),
            results: Rect::spec_new(area.x, sat_add(area.y, 1), area.width, sat_sub(area.height, 2)),
            result_rows: sat_sub(area.height, 2) as usize,
            status: if area.height > 1 { Some(Rect::spec_new(area.x, sat_sub(area.spec_bottom(), 1), area.width, 1)) } else { None },
        }),
{
    if area.is_empty() {
        return None;
    }
    let rows = area.height.saturating_sub(2);
    Some(SearchPanel {
        input: Rect::new(area.x, area.y, area.width, 1),
        results: Rect::new(area.x, area.y.saturating_add(1), area.width, rows),
        result_rows: rows as usize,
        status: if area.height > 1 { Some(Rect::new(area.x, area.bottom().saturating_sub(1), area.width, 1)) } else { None },
    })
}

/// The first result shown: the scroll position, moved down so the selected row
/// is within the last of `rows` rows, and never past the last result.
pub open spec fn window_start(scroll: usize, selected: usize, rows: usize, count: usize) -> usize {
    let lowest = sat(selected as int - sat(rows as int - 1));
    let s = if scroll >= lowest { scroll as int } else { lowest };
    let last = sat(count as int - 1);
    (if s < last { s } else { last }) as usize
}

pub open spec fn sat(v: int) -> int {
    if v < 0 { 0 } else { v }
}

/// The first search result shown.
pub fn search_window_start(scroll: usize, selected: usize, rows: usize, count: usize) -> (r: usize)
    ensures
        r == window_start(scroll, selected, rows, count),
{
    let lowest = selected.saturating_sub(rows.saturating_sub(1));
    let s = if scroll >= lowest { scroll } else { lowest };
    let last = count.saturating_sub(1);
    if s < last { s } else { last }
}

/// The query line: `/ ` and the query.
pub fn search_input_line(query: &str) -> (r: String)
    ensures
        r@ == "/ "@ + query@,
{
    let mut r = owned("/ ");
    push_str(&mut r, query);
    r
}

/// The start of a result row: two spaces per level, the toggle (`▾` open, `▸`
/// closed) for a node that expands other than a table or view, a space
/// otherwise, then a space.
pub open spec fn row_prefix(depth: nat, expandable: bool, table_like: bool, expanded: bool) -> Seq<char> {
    let marker = if expandable && !table_like { if expanded { '▾' } else { '▸' } } else { ' ' };
    Seq::new(2 * depth, |i: int| ' ') + seq![marker, ' ']
}

/// The start of a result row.
pub fn search_row_prefix(depth: usize, expandable: bool, table_like: bool, expanded: bool) -> (r: String)
    requires
        depth <= usize::MAX / 2,
    ensures
        r@ == row_prefix(depth as nat, expandable, table_like, expanded),
{
    let mut out: Vec<char> = Vec::new();
    let mut i: usize = 0;
    let n = 2 * depth;
    while i < n
        invariant
            n == 2 * depth,
            i <= n,
            out@ == Seq::new(i as nat, |k: int| ' '),
        decreases n - i,
    {
        out.push(' ');
        i = i + 1;
        assert(out@ =~= Seq::new(i as nat, |k: int| ' '));
    }
    let marker = if expandable && !table_like { if expanded { '▾' } else { '▸' } } else { ' ' };
    out.push(marker);
    out.push(' ');
    assert(out@ =~= row_prefix(depth as nat, expandable, table_like, expanded));
    crate::text::string_from(out.as_slice())
}

/// What the results area says when nothing is listed.
pub open spec fn empty_message(lifecycle: SearchLifecycle, query: Seq<char>) -> Seq<char> {
    match lifecycle {
        SearchLifecycle::Idle => "Type to search all objects"@,
        SearchLifecycle::Loading => "Indexing catalog..."@,
        SearchLifecycle::Ready => "No objects match \""@ + query + "\""@,
        SearchLifecycle::Failed(m) => m@ + "  Ctrl+R retry"@,
    }
}

/// The message shown instead of results.
pub fn search_empty_message(lifecycle: &SearchLifecycle, query: &str) -> (r: String)
    ensures
        r@ == empty_message(*lifecycle, query@),
{
    match lifecycle {
        SearchLifecycle::Idle => owned("Type to search all objects"),
        SearchLifecycle::Loading => owned("Indexing catalog..."),
        SearchLifecycle::Ready => {
            let mut r = owned("No objects match \"");
            push_str(&mut r, query);
            push_str(&mut r, "\"");
            r
        },
        SearchLifecycle::Failed(m) => {
            let mut r = owned(m.as_str());
            push_str(&mut r, "  Ctrl+R retry");
            r
        },
    }
}

/// The status line: searching, the failure (with what is still shown), or the
/// number of matches and the keys.
pub open spec fn status_text(lifecycle: SearchLifecycle, retained: usize, matches: usize) -> Seq<char> {
    match lifecycle {
        SearchLifecycle::Loading => "Searching..."@,
        SearchLifecycle::Failed(m) => if retained == 0 {
            "Search failed: "@ + m@ + "  Ctrl+R retry"@
        } else {
            decimal(retained as nat) + " retained | "@ + m@
        },
        _ => decimal(matches as nat) + " results  n/N next/prev  Enter locate  Esc close"@,
    }
}

/// The status line of the search panel.
pub fn search_status(lifecycle: &SearchLifecycle, retained: usize, matches: usize) -> (r: String)
    ensures
        r@ == status_text(*lifecycle, retained, matches),
{
    match lifecycle {
        SearchLifecycle::Loading => owned("Searching..."),
        SearchLifecycle::Failed(m) => {
            if retained == 0 {
                let mut r = owned("Search failed: ");
                push_str(&mut r, m.as_str());
                push_str(&mut r, "  Ctrl+R retry");
                r
            } else {
                let mut r = String::new();
                push_decimal(&mut r, retained as u64);
                push_str(&mut r, " retained | ");
                push_str(&mut r, m.as_str());
                r
            }
        },
        _ => {
            let mut r = String::new();
            push_decimal(&mut r, matches as u64);
            push_str(&mut r, " results  n/N next/prev  Enter locate  Esc close");
            r
        },
    }
}

} // verus!
