//! The confirmation overlays: where each popup goes, its title, the text it
//! shows, its two buttons, the hint under them and what a click on a button
//! means.
use vstd::prelude::*;
use crate::geometry::{Rect, sat_add, sat_sub, spec_bordered_inner, bordered_inner};
use crate::panes::{centered, centered_area, quad, row_split, split_rows};
use crate::dialog::{DialogTone, DialogButton, DialogActionArea, action_slots, measured_action_layout, row_width};
use crate::hits::HitRegion;
use crate::text::{owned, push_str};

verus! {

broadcast use vstd::string::group_string_axioms;

/// A confirmation overlay and which of its buttons has the focus.
#[derive(Clone, Debug)]
pub enum ConfirmOverlay {
    /// Cancelling a running query inside a transaction.
    ManualCancel { cancel_focused: bool },
    /// A transaction whose commit or rollback may not have reached the server.
    ClearTransactionOutcome { clear_focused: bool },
    /// Deleting a console; `name` is `unknown` when the console is gone.
    DeleteConsole { name: String, delete_focused: bool },
}

/// What a click on a confirmation button means.
#[derive(Clone, Copy, Debug, PartialEq, Eq, Structural)]
pub enum ConfirmTarget {
    KeepRunning,
    CancelQuery,
    KeepTransactionState,
    ClearTransactionState,
    KeepConsole,
    DeleteConsole,
    KeepEditing,
    DiscardChanges,
}

/// A confirmation popup laid out over the screen.
#[derive(Clone, Debug)]
pub struct ConfirmView {
    pub popup: Rect,
    pub title: &'static str,
    pub inner: Rect,
    pub body_area: Rect,
    /// The body's lines; the first is the heading.
    pub body: Vec<String>,
    pub buttons: Vec<(&'static str, DialogTone)>,
    pub focused: usize,
    pub action_row: Rect,
    pub hint_row: Rect,
    pub hint: &'static str,
    /// The buttons' click regions; `None` only when the buttons cannot be measured.
    pub hits: Option<Vec<HitRegion<ConfirmTarget>>>,
}

/// The popup's largest size.
pub open spec fn confirm_size(o: ConfirmOverlay) -> (u16, u16) {
    match o {
        ConfirmOverlay::ManualCancel { .. } => (76, 12),
        ConfirmOverlay::ClearTransactionOutcome { .. } => (78, 12),
        ConfirmOverlay::DeleteConsole { .. } => (76, 8),
    }
}

pub open spec fn confirm_title(o: ConfirmOverlay) -> Seq<char> {
    match o {
        ConfirmOverlay::ManualCancel { .. } => " CANCELLATION CONFIRMATION "@,
        ConfirmOverlay::ClearTransactionOutcome { .. } => " TRANSACTION OUTCOME UNKNOWN "@,
        ConfirmOverlay::DeleteConsole { .. } => " DELETE CONFIRMATION "@,
    }
}

/// The body: a heading, then what the choice means.
pub open spec fn confirm_body(o: ConfirmOverlay) -> Seq<Seq<char>> {
    match o {
        ConfirmOverlay::ManualCancel { .. } => seq![" CANCEL ACTIVE QUERY? "@,
            "Cancelling rolls back all uncommitted work in this transaction"@, ""@],
        ConfirmOverlay::ClearTransactionOutcome { .. } => seq![" VERIFY UNKNOWN OUTCOME "@,
            "LazyDB cannot know whether commit/rollback reached the server."@,
            "Verify externally before clearing this transaction state."@],
        ConfirmOverlay::DeleteConsole { name, .. } => seq![" DELETE SQL EDITOR? "@,
            "Permanently delete '"@ + name@ + "' and its saved SQL file?"@],
    }
}

/// Rows the body takes inside the frame.
pub open spec fn body_rows(o: ConfirmOverlay, inner: Rect) -> u16 {
    match o {
        ConfirmOverlay::ManualCancel { .. } => 3,
        ConfirmOverlay::ClearTransactionOutcome { .. } => 4,
        ConfirmOverlay::DeleteConsole { .. } => sat_sub(inner.height, 3),
    }
}

/// The buttons: the safe choice first, the destructive one second.
pub open spec fn confirm_buttons(o: ConfirmOverlay) -> Seq<(Seq<char>, DialogTone)> {
    match o {
        ConfirmOverlay::ManualCancel { .. } => seq![("Keep running"@, DialogTone::Normal), ("Cancel query + roll back"@, DialogTone::Danger)],
        ConfirmOverlay::ClearTransactionOutcome { .. } => seq![("Cancel"@, DialogTone::Normal), ("Clear after verification"@, DialogTone::Danger)],
        ConfirmOverlay::DeleteConsole { .. } => seq![("Cancel"@, DialogTone::Normal), ("Delete console"@, DialogTone::Danger)],
    }
}

/// The focused button: the second when the destructive choice has the focus.
pub open spec fn confirm_focus(o: ConfirmOverlay) -> usize {
    match o {
        ConfirmOverlay::ManualCancel { cancel_focused } => if cancel_focused { 1 } else { 0 },
        ConfirmOverlay::ClearTransactionOutcome { clear_focused } => if clear_focused { 1 } else { 0 },
        ConfirmOverlay::DeleteConsole { delete_focused, .. } => if delete_focused { 1 } else { 0 },
    }
}

/// What the first and the second button do.
pub open spec fn confirm_targets(o: ConfirmOverlay) -> (ConfirmTarget, ConfirmTarget) {
    match o {
        ConfirmOverlay::ManualCancel { .. } => (ConfirmTarget::KeepRunning, ConfirmTarget::CancelQuery),
        ConfirmOverlay::ClearTransactionOutcome { .. } => (ConfirmTarget::KeepTransactionState, ConfirmTarget::ClearTransactionState),
        ConfirmOverlay::DeleteConsole { .. } => (ConfirmTarget::KeepConsole, ConfirmTarget::DeleteConsole),
    }
}

pub open spec fn confirm_hint(o: ConfirmOverlay) -> Seq<char> {
    match o {
        ConfirmOverlay::ManualCancel { .. } => "Tab / Left / Right switch   Enter activate   Esc keep running"@,
        _ => "Tab / Left / Right switch   Enter activate   Esc cancel"@,
    }
}

pub open spec fn buttons_view(v: Seq<(&'static str, DialogTone)>) -> Seq<(Seq<char>, DialogTone)> {
    Seq::new(v.len(), |i: int| (v[i].0@, v[i].1))
}

pub open spec fn as_dialog_buttons(v: Seq<(&'static str, DialogTone)>) -> Seq<DialogButton<'static>> {
    Seq::new(v.len(), |i: int| DialogButton { label: v[i].0, tone: v[i].1, enabled: true })
}

/// The click regions of the placed buttons.
pub open spec fn button_hits(placed: Seq<DialogActionArea>, targets: (ConfirmTarget, ConfirmTarget)) -> Seq<HitRegion<ConfirmTarget>> {
    Seq::new(placed.len(), |i: int| HitRegion { area: placed[i].area, target: if placed[i].index == 0 { targets.0 } else { targets.1 } })
}

fn confirm_texts(o: &ConfirmOverlay) -> (r: (&'static str, Vec<String>, Vec<(&'static str, DialogTone)>, &'static str))
    ensures
        r.0@ == confirm_title(*o),
        r.1@.len() == confirm_body(*o).len(),
        forall|i: int| 0 <= i < r.1@.len() ==> (#[trigger] r.1@[i])@ == confirm_body(*o)[i],
        buttons_view(r.2@) == confirm_buttons(*o),
        r.3@ == confirm_hint(*o),
{
    let mut body: Vec<String> = Vec::new();
    let mut buttons: Vec<(&'static str, DialogTone)> = Vec::new();
    let r = match o {
        ConfirmOverlay::ManualCancel { .. } => {
            body.push(owned(" CANCEL ACTIVE QUERY? "));
            body.push(owned("Cancelling rolls back all uncommitted work in this transaction"));
            body.push(String::new());
            buttons.push(("Keep running", DialogTone::Normal));
            buttons.push(("Cancel query + roll back", DialogTone::Danger));
            proof { reveal_strlit(""); }
            (" CANCELLATION CONFIRMATION ", body, buttons, "Tab / Left / Right switch   Enter activate   Esc keep running")
        },
        ConfirmOverlay::ClearTransactionOutcome { .. } => {
            body.push(owned(" VERIFY UNKNOWN OUTCOME "));
            body.push(owned("LazyDB cannot know whether commit/rollback reached the server."));
            body.push(owned("Verify externally before clearing this transaction state."));
            buttons.push(("Cancel", DialogTone::Normal));
            buttons.push(("Clear after verification", DialogTone::Danger));
            (" TRANSACTION OUTCOME UNKNOWN ", body, buttons, "Tab / Left / Right switch   Enter activate   Esc cancel")
        },
        ConfirmOverlay::DeleteConsole { name, .. } => {
            body.push(owned(" DELETE SQL EDITOR? "));
            let mut question = owned("Permanently delete '");
            push_str(&mut question, name.as_str());
            push_str(&mut question, "' and its saved SQL file?");
            body.push(question);
            buttons.push(("Cancel", DialogTone::Normal));
            buttons.push(("Delete console", DialogTone::Danger));
            (" DELETE CONFIRMATION ", body, buttons, "Tab / Left / Right switch   Enter activate   Esc cancel")
        },
    };
    assert(buttons_view(r.2@) =~= confirm_buttons(*o));
    r
}

/// Lays out a confirmation overlay over `area`: the popup centred at its
/// largest size, the body at the top of its frame, the buttons two rows from
/// the bottom and the hint on the last row.
pub fn overlay_dialog(o: &ConfirmOverlay, area: Rect) -> (d: ConfirmView)
    ensures
        quad(d.popup) == centered_area(area, confirm_size(*o).0, confirm_size(*o).1),
        d.title@ == confirm_title(*o),
        d.inner == spec_bordered_inner(d.popup),
        d.body_area == Rect::spec_new(d.inner.x, d.inner.y, d.inner.width, body_rows(*o, d.inner)),
        d.body@.len() == confirm_body(*o).len(),
        forall|i: int| 0 <= i < d.body@.len() ==> (#[trigger] d.body@[i])@ == confirm_body(*o)[i],
        buttons_view(d.buttons@) == confirm_buttons(*o),
        d.focused == confirm_focus(*o),
        d.action_row == Rect::spec_new(d.inner.x, sat_sub(d.inner.spec_bottom(), 2), d.inner.width, 1),
        d.hint_row == Rect::spec_new(d.inner.x, sat_sub(d.inner.spec_bottom(), 1), d.inner.width, 1),
        d.hint@ == confirm_hint(*o),
        d.hits is Some <==> row_width(as_dialog_buttons(d.buttons@), 2) <= u16::MAX,
        d.hits matches Some(h) ==> exists|placed: Seq<DialogActionArea>|
            action_slots(d.action_row, as_dialog_buttons(d.buttons@), d.focused as int, placed)
            && h@ == button_hits(placed, confirm_targets(*o)),
{
    let (w, h): (u16, u16) = match o {
        ConfirmOverlay::ManualCancel { .. } => (76, 12),
        ConfirmOverlay::ClearTransactionOutcome { .. } => (78, 12),
        ConfirmOverlay::DeleteConsole { .. } => (76, 8),
    };
    let popup = centered(area, w, h);
    let inner = bordered_inner(popup);
    let rows: u16 = match o {
        ConfirmOverlay::DeleteConsole { .. } => inner.height.saturating_sub(3),
        ConfirmOverlay::ManualCancel { .. } => 3,
        ConfirmOverlay::ClearTransactionOutcome { .. } => 4,
    };
    let body_area = Rect::new(inner.x, inner.y, inner.width, rows);
    let (title, body, buttons, hint) = confirm_texts(o);
    let focused: usize = match o {
        ConfirmOverlay::ManualCancel { cancel_focused } => if *cancel_focused { 1 } else { 0 },
        ConfirmOverlay::ClearTransactionOutcome { clear_focused } => if *clear_focused { 1 } else { 0 },
        ConfirmOverlay::DeleteConsole { delete_focused, .. } => if *delete_focused { 1 } else { 0 },
    };
    let (t0, t1) = match o {
        ConfirmOverlay::ManualCancel { .. } => (ConfirmTarget::KeepRunning, ConfirmTarget::CancelQuery),
        ConfirmOverlay::ClearTransactionOutcome { .. } => (ConfirmTarget::KeepTransactionState, ConfirmTarget::ClearTransactionState),
        ConfirmOverlay::DeleteConsole { .. } => (ConfirmTarget::KeepConsole, ConfirmTarget::DeleteConsole),
    };
    let action_row = Rect::new(inner.x, inner.bottom().saturating_sub(2), inner.width, 1);
    let hint_row = Rect::new(inner.x, inner.bottom().saturating_sub(1), inner.width, 1);
    assert(buttons_view(buttons@).len() == 2);
    assert(buttons@.len() == 2);
    let mut dialog_buttons: Vec<DialogButton> = Vec::new();
    dialog_buttons.push(DialogButton { label: buttons[0].0, tone: buttons[0].1, enabled: true });
    dialog_buttons.push(DialogButton { label: buttons[1].0, tone: buttons[1].1, enabled: true });
    assert(dialog_buttons@ =~= as_dialog_buttons(buttons@));
    let hits = match measured_action_layout(action_row, dialog_buttons.as_slice(), focused) {
        None => None,
        Some(placed) => {
            let mut hits: Vec<HitRegion<ConfirmTarget>> = Vec::new();
            let mut i: usize = 0;
            while i < placed.len()
                invariant
                    i <= placed@.len(),
                    hits@ == button_hits(placed@, (t0, t1)).take(i as int),
                decreases placed@.len() - i,
            {
                let a = placed[i];
                hits.push(HitRegion { area: a.area, target: if a.index == 0 { t0 } else { t1 } });
                i = i + 1;
                assert(hits@ =~= button_hits(placed@, (t0, t1)).take(i as int));
            }
            assert(hits@ =~= button_hits(placed@, (t0, t1)));
            assert((t0, t1) == confirm_targets(*o));
            assert(action_slots(action_row, as_dialog_buttons(buttons@), focused as int, placed@)
                && hits@ == button_hits(placed@, confirm_targets(*o)));
            Some(hits)
        },
    };
    ConfirmView { popup, title, inner, body_area, body, buttons, focused, action_row, hint_row, hint, hits }
}

/// The table-changes discard dialog laid out over the screen.
#[derive(Clone, Debug)]
pub struct DiscardView {
    pub popup: Rect,
    pub compact: bool,
    pub inner: Rect,
    /// The dialog's rows: question, gap, explanation, spacer, buttons, hint.
    pub rows: Vec<Rect>,
    pub action_area: Rect,
    pub buttons: Vec<(&'static str, DialogTone)>,
    pub focused: usize,
    pub hint: &'static str,
    /// The buttons' click regions; `None` only when the buttons cannot be measured.
    pub hits: Option<Vec<HitRegion<ConfirmTarget>>>,
}

/// The dialog's width: at most 64 columns, leaving two on each side.
pub open spec fn discard_width(area: Rect) -> u16 {
    let w = sat_sub(area.width, 4);
    if w < 64 { w } else { 64 }
}

pub open spec fn discard_rows(compact: bool) -> Seq<(bool, u16)> {
    seq![(false, 1u16), (false, 1u16), (false, 2u16), (true, 0u16), (false, if compact { 2u16 } else { 1u16 }), (false, 1u16)]
}

/// The buttons' area: on a compact dialog at most 39 columns, centred.
pub open spec fn discard_action_area(row: Rect, compact: bool) -> Rect {
    if compact {
        let width = if row.width < 39 { row.width } else { 39 };
        Rect::spec_new(sat_add(row.x, ((row.width - width) / 2) as u16), row.y, width, row.height)
    } else {
        row
    }
}

pub open spec fn discard_buttons() -> Seq<(Seq<char>, DialogTone)> {
    seq![("Keep Editing"@, DialogTone::Normal), ("Discard Changes"@, DialogTone::Danger)]
}

/// Lays out the dialog that asks before unsaved table changes are discarded;
/// `discard_focused` says which button has the focus. A dialog narrower than
/// 54 columns is compact: a row more for its buttons and a shorter hint.
pub fn discard_dialog(area: Rect, discard_focused: bool) -> (d: DiscardView)
    ensures
        d.compact == (discard_width(area) < 54),
        quad(d.popup) == centered_area(area, discard_width(area), if d.compact { 12 } else { 11 }),
        d.inner == spec_bordered_inner(d.popup),
        d.rows@.len() == 6,
        Seq::new(6, |i: int| quad(d.rows@[i])) == row_split(quad(d.inner), discard_rows(d.compact)),
        d.action_area == discard_action_area(d.rows@[4], d.compact),
        buttons_view(d.buttons@) == discard_buttons(),
        d.focused == (if discard_focused { 1usize } else { 0usize }),
        d.hint@ == (if d.compact { "Tab move  Enter confirm  Esc back"@ } else { "Tab / Left / Right switch   Enter confirm   Esc back"@ }),
        d.hits is Some <==> row_width(as_dialog_buttons(d.buttons@), 2) <= u16::MAX,
        d.hits matches Some(h) ==> exists|placed: Seq<DialogActionArea>|
            action_slots(d.action_area, as_dialog_buttons(d.buttons@), d.focused as int, placed)
            && h@ == button_hits(placed, (ConfirmTarget::KeepEditing, ConfirmTarget::DiscardChanges)),
{
    let w0 = area.width.saturating_sub(4);
    let popup_width: u16 = if w0 < 64 { w0 } else { 64 };
    let compact = popup_width < 54;
    let popup = centered(area, popup_width, if compact { 12 } else { 11 });
    let inner = bordered_inner(popup);
    let mut constraints: Vec<(bool, u16)> = Vec::new();
    constraints.push((false, 1));
    constraints.push((false, 1));
    constraints.push((false, 2));
    constraints.push((true, 0));
    constraints.push((false, if compact { 2 } else { 1 }));
    constraints.push((false, 1));
    assert(constraints@ =~= discard_rows(compact));
    let rows = split_rows(inner, constraints.as_slice());
    let row = rows[4];
    let action_area = if compact {
        let width: u16 = if row.width < 39 { row.width } else { 39 };
        Rect::new(row.x.saturating_add((row.width - width) / 2), row.y, width, row.height)
    } else {
        row
    };
    let mut buttons: Vec<(&'static str, DialogTone)> = Vec::new();
    buttons.push(("Keep Editing", DialogTone::Normal));
    buttons.push(("Discard Changes", DialogTone::Danger));
    assert(buttons_view(buttons@) =~= discard_buttons());
    let focused: usize = if discard_focused { 1 } else { 0 };
    let mut dialog_buttons: Vec<DialogButton> = Vec::new();
    dialog_buttons.push(DialogButton { label: buttons[0].0, tone: buttons[0].1, enabled: true });
    dialog_buttons.push(DialogButton { label: buttons[1].0, tone: buttons[1].1, enabled: true });
    assert(dialog_buttons@ =~= as_dialog_buttons(buttons@));
    let targets = (ConfirmTarget::KeepEditing, ConfirmTarget::DiscardChanges);
    let hits = match measured_action_layout(action_area, dialog_buttons.as_slice(), focused) {
        None => None,
        Some(placed) => {
            let mut hits: Vec<HitRegion<ConfirmTarget>> = Vec::new();
            let mut i: usize = 0;
            while i < placed.len()
                invariant
                    i <= placed@.len(),
                    hits@ == button_hits(placed@, targets).take(i as int),
                decreases placed@.len() - i,
            {
                let a = placed[i];
                hits.push(HitRegion { area: a.area, target: if a.index == 0 { targets.0 } else { targets.1 } });
                i = i + 1;
                assert(hits@ =~= button_hits(placed@, targets).take(i as int));
            }
            assert(hits@ =~= button_hits(placed@, targets));
            Some(hits)
        },
    };
    let hint = if compact { "Tab move  Enter confirm  Esc back" } else { "Tab / Left / Right switch   Enter confirm   Esc back" };
    DiscardView { popup, compact, inner, rows, action_area, buttons, focused, hint, hits }
}

} // verus!
