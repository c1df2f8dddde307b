//! The console manager popup: its size and title for each mode, where the
//! list, the input and the footer go, the hints and the delete buttons.
use vstd::prelude::*;
use crate::geometry::{Rect, sat_add, sat_sub, spec_bordered_inner, bordered_inner};
use crate::panes::{centered, centered_area, quad};
use crate::dialog::DialogTone;

verus! {

/// What the console manager is doing.
#[derive(Clone, Copy, Debug, PartialEq, Eq, Structural)]
pub enum ConsoleListMode {
    Browse,
    Search,
    Rename { has_error: bool },
    DeleteConfirm,
}

/// Where the console manager's parts go.
#[derive(Clone, Debug)]
pub struct ConsoleManagerView {
    pub popup: Rect,
    pub title: &'static str,
    pub inner: Rect,
    pub body: Rect,
    pub footer: Rect,
    /// The search or rename input, when the mode has one and there is room.
    pub input: Option<Rect>,
    /// The shortcut hints under the list: key and description.
    pub hints: Vec<(&'static str, &'static str)>,
    /// The delete confirmation's buttons and their row.
    pub buttons: Vec<(&'static str, DialogTone)>,
    pub button_row: Option<Rect>,
}

/// Rows the mode needs besides the list.
pub open spec fn mode_height(mode: ConsoleListMode) -> u16 {
    match mode {
        ConsoleListMode::Browse | ConsoleListMode::Search => 4,
        ConsoleListMode::Rename { has_error } => if has_error { 6 } else { 5 },
        ConsoleListMode::DeleteConfirm => 5,
    }
}

/// The popup's height before clamping: the listed records that fit, plus the
/// mode's own rows; the rename and delete forms have no list.
pub open spec fn desired_height(mode: ConsoleListMode, records: usize, area: Rect) -> u16 {
    let m = mode_height(mode);
    match mode {
        ConsoleListMode::Browse | ConsoleListMode::Search => {
            let room = sat_sub(area.height, m);
            ((if records < room { records as int } else { room as int }) + m) as u16
        },
        _ => m,
    }
}

pub open spec fn clamp16(v: u16, lo: u16, hi: u16) -> u16 {
    if v < lo { lo } else if v > hi { hi } else { v }
}

pub open spec fn mode_title(mode: ConsoleListMode) -> Seq<char> {
    match mode {
        ConsoleListMode::Browse => " CONSOLES "@,
        ConsoleListMode::Search => " CONSOLES // SEARCH "@,
        ConsoleListMode::Rename { .. } => " CONSOLES // RENAME "@,
        ConsoleListMode::DeleteConfirm => " CONSOLES // DELETE "@,
    }
}

pub open spec fn mode_hints(mode: ConsoleListMode) -> Seq<(Seq<char>, Seq<char>)> {
    match mode {
        ConsoleListMode::Browse => seq![("j/k"@, "move"@), ("Enter"@, "open"@), ("a"@, "new"@), ("d"@, "delete"@),
            ("r"@, "rename"@), ("/"@, "search"@), ("Esc"@, "close"@)],
        ConsoleListMode::Search => seq![("Enter"@, "open"@), ("Esc"@, "cancel"@)],
        ConsoleListMode::Rename { .. } => seq![("Enter"@, "save"@), ("Esc"@, "cancel"@)],
        ConsoleListMode::DeleteConfirm => seq![],
    }
}

pub open spec fn pairs_view(v: Seq<(&'static str, &'static str)>) -> Seq<(Seq<char>, Seq<char>)> {
    Seq::new(v.len(), |i: int| (v[i].0@, v[i].1@))
}

fn hints_for(mode: ConsoleListMode) -> (out: Vec<(&'static str, &'static str)>)
    ensures
        pairs_view(out@) == mode_hints(mode),
{
    let mut out: Vec<(&'static str, &'static str)> = Vec::new();
    match mode {
        ConsoleListMode::Browse => {
            out.push(("j/k", "move"));
            out.push(("Enter", "open"));
            out.push(("a", "new"));
            out.push(("d", "delete"));
            out.push(("r", "rename"));
            out.push(("/", "search"));
            out.push(("Esc", "close"));
        },
        ConsoleListMode::Search => {
            out.push(("Enter", "open"));
            out.push(("Esc", "cancel"));
        },
        ConsoleListMode::Rename { .. } => {
            out.push(("Enter", "save"));
            out.push(("Esc", "cancel"));
        },
        ConsoleListMode::DeleteConfirm => {},
    }
    assert(pairs_view(out@) =~= mode_hints(mode));
    out
}

/// Lays out the console manager over `area` with `records` listed consoles.
pub fn console_manager_view(mode: ConsoleListMode, records: usize, area: Rect) -> (v: ConsoleManagerView)
    ensures
        quad(v.popup) == centered_area(area, 80, clamp16(desired_height(mode, records, area), 8, 24)),
        v.title@ == mode_title(mode),
        v.inner == spec_bordered_inner(v.popup),
        v.body == Rect::spec_new(v.inner.x, v.inner.y, v.inner.width,
            sat_sub(v.inner.height, if mode == ConsoleListMode::DeleteConfirm { 2 } else { 1 })),
        v.footer == Rect::spec_new(v.inner.x, sat_sub(v.inner.spec_bottom(), 1), v.inner.width, 1),
        v.input == (if v.inner.spec_is_empty() {
            None
        } else {
            match mode {
                ConsoleListMode::Search => {
                    let r = Rect::spec_new(v.body.x, v.body.y, v.body.width, 1);
                    if r.spec_is_empty() { None } else { Some(r) }
                },
                ConsoleListMode::Rename { .. } => {
                    let r = Rect::spec_new(v.body.x, sat_add(v.body.y, 2), v.body.width, 1);
                    if r.y < v.body.spec_bottom() && !r.spec_is_empty() { Some(r) } else { None }
                },
                _ => None,
            }
        }),
        pairs_view(v.hints@) == (if v.inner.spec_is_empty() { seq![] } else { mode_hints(mode) }),
        mode == ConsoleListMode::DeleteConfirm && !v.inner.spec_is_empty() ==> {
            &&& v.buttons@.len() == 2
            &&& v.buttons@[0].0@ == "Cancel"@ && v.buttons@[0].1 == DialogTone::Normal
            &&& v.buttons@[1].0@ == "Delete console"@ && v.buttons@[1].1 == DialogTone::Danger
            &&& v.button_row == Some(Rect::spec_new(v.inner.x, sat_sub(v.inner.spec_bottom(), 2), v.inner.width, 1))
        },
        !(mode == ConsoleListMode::DeleteConfirm && !v.inner.spec_is_empty()) ==> v.buttons@.len() == 0 && v.button_row is None,
{
    let m: u16 = match mode {
        ConsoleListMode::Browse | ConsoleListMode::Search => 4,
        ConsoleListMode::Rename { has_error } => if has_error { 6 } else { 5 },
        ConsoleListMode::DeleteConfirm => 5,
    };
    let desired: u16 = match mode {
        ConsoleListMode::Browse | ConsoleListMode::Search => {
            let room = area.height.saturating_sub(m);
            let shown: u16 = if records < room as usize { records as u16 } else { room };
            shown + m
        },
        _ => m,
    };
    let height = if desired < 8 { 8 } else if desired > 24 { 24 } else { desired };
    let popup = centered(area, 80, height);
    let title = match mode {
        ConsoleListMode::Browse => " CONSOLES ",
        ConsoleListMode::Search => " CONSOLES // SEARCH ",
        ConsoleListMode::Rename { .. } => " CONSOLES // RENAME ",
        ConsoleListMode::DeleteConfirm => " CONSOLES // DELETE ",
    };
    let inner = bordered_inner(popup);
    let deleting = match mode { ConsoleListMode::DeleteConfirm => true, _ => false };
    let body = Rect::new(inner.x, inner.y, inner.width, inner.height.saturating_sub(if deleting { 2 } else { 1 }));
    let footer = Rect::new(inner.x, inner.bottom().saturating_sub(1), inner.width, 1);
    if inner.is_empty() {
        return ConsoleManagerView { popup, title, inner, body, footer, input: None, hints: Vec::new(), buttons: Vec::new(), button_row: None };
    }
    let input = match mode {
        ConsoleListMode::Search => {
            let r = Rect::new(body.x, body.y, body.width, 1);
            if r.is_empty() { None } else { Some(r) }
        },
        ConsoleListMode::Rename { .. } => {
            let r = Rect::new(body.x, body.y.saturating_add(2), body.width, 1);
            if r.y < body.bottom() && !r.is_empty() { Some(r) } else { None }
        },
        _ => None,
    };
    let mut buttons: Vec<(&'static str, DialogTone)> = Vec::new();
    let button_row = if deleting {
        buttons.push(("Cancel", DialogTone::Normal));
        buttons.push(("Delete console", DialogTone::Danger));
        Some(Rect::new(inner.x, inner.bottom().saturating_sub(2), inner.width, 1))
    } else {
        None
    };
    ConsoleManagerView { popup, title, inner, body, footer, input, hints: hints_for(mode), buttons, button_row }
}

/// What the body says besides the list: the search query line, the empty
/// list's note, the rename form's two lines, or the delete question.
pub open spec fn body_text(mode: ConsoleListMode, query: Seq<char>, records: usize, name: Seq<char>, input: Seq<char>) -> Seq<Seq<char>> {
    match mode {
        ConsoleListMode::Browse => if records == 0 { seq!["No matching consoles"@] } else { seq![] },
        ConsoleListMode::Search => seq!["/"@ + query] + (if records == 0 { seq!["No matching consoles"@] } else { seq![] }),
        ConsoleListMode::Rename { .. } => seq!["Rename "@ + name, ""@, "Name: "@ + input],
        ConsoleListMode::DeleteConfirm => seq!["Permanently delete '"@ + name + "' and its saved SQL file?"@, ""@, ""@],
    }
}

/// The body's text lines; `name` is the console being renamed or deleted
/// (`unknown` when it is gone) and `input` the rename field's text. A rename
/// error line follows, in the error colour.
pub fn console_body_text(mode: ConsoleListMode, query: &str, records: usize, name: &str, input: &str) -> (out: Vec<String>)
    ensures
        out@.len() == body_text(mode, query@, records, name@, input@).len(),
        forall|i: int| 0 <= i < out@.len() ==> (#[trigger] out@[i])@ == body_text(mode, query@, records, name@, input@)[i],
{
    let mut out: Vec<String> = Vec::new();
    match mode {
        ConsoleListMode::Browse | ConsoleListMode::Search => {
            if mode == ConsoleListMode::Search {
                let mut line = crate::text::owned("/");
                crate::text::push_str(&mut line, query);
                out.push(line);
            }
            if records == 0 {
                out.push(crate::text::owned("No matching consoles"));
            }
        },
        ConsoleListMode::Rename { .. } => {
            let mut first = crate::text::owned("Rename ");
            crate::text::push_str(&mut first, name);
            out.push(first);
            out.push(String::new());
            let mut field = crate::text::owned("Name: ");
            crate::text::push_str(&mut field, input);
            out.push(field);
        },
        ConsoleListMode::DeleteConfirm => {
            let mut question = crate::text::owned("Permanently delete '");
            crate::text::push_str(&mut question, name);
            crate::text::push_str(&mut question, "' and its saved SQL file?");
            out.push(question);
            out.push(String::new());
            out.push(String::new());
        },
    }
    proof { reveal_strlit(""); }
    assert(out@.len() == body_text(mode, query@, records, name@, input@).len());
    out
}

/// The columns of a console row `available` cells wide: the location column as
/// wide as the widest location (at most 28), the connection column as its widest
/// entry allows within what is left and three fifths of the row, and the name
/// the rest after the margins.
pub open spec fn row_columns(available: usize, widest_location: usize, widest_connection: usize) -> (usize, usize, usize) {
    let location = if widest_location < 28 { widest_location as int } else { 28 };
    let left = if available < location + 8 { 0 } else { available - location - 8 };
    let fifths = available * 3 / 5;
    let cap = if left < fifths { left } else { fifths };
    let connection = if widest_connection < cap { widest_connection as int } else { cap };
    let right = connection + location + 2;
    let name = if available < right + 6 { 0 } else { available - right - 6 };
    (name as usize, connection as usize, location as usize)
}

/// Name, connection and location widths of the console rows.
pub fn console_row_columns(available: u16, widest_location: usize, widest_connection: usize) -> (r: (usize, usize, usize))
    ensures
        r == row_columns(available as usize, widest_location, widest_connection),
{
    let available = available as usize;
    let location: usize = if widest_location < 28 { widest_location } else { 28 };
    let left = available.saturating_sub(location + 8);
    let fifths = available * 3 / 5;
    let cap = if left < fifths { left } else { fifths };
    let connection = if widest_connection < cap { widest_connection } else { cap };
    let right = connection + location + 2;
    let name = available.saturating_sub(right + 6);
    (name, connection, location)
}

} // verus!
