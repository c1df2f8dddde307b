//! The connection-group popups: the picker that assigns a connection to a
//! group, the form that names a group, and the question asked before a group
//! is deleted. Each says where its parts go and what a click on them reaches.
use vstd::prelude::*;
use crate::cells::{cell_width, printable_ascii};
use crate::geometry::{Rect, sat_add, sat_sub, spec_bordered_inner, bordered_inner};
use crate::hits::{HitRegion, topmost};
use crate::panes::{centered, centered_area, quad};
use crate::text::{owned, push_str, push_decimal, decimal};

verus! {

broadcast use vstd::string::group_string_axioms;

/// What a click in a group popup reaches.
#[derive(Clone, Copy, Debug, PartialEq, Eq, Structural)]
pub enum GroupTarget {
    /// A row of the picker, by its index among the picker's choices.
    Choice(usize),
    /// The group-name input.
    Name,
    Confirm,
    Cancel,
}

/// One choice of the picker as drawn.
#[derive(Clone, Debug)]
pub struct GroupRow {
    /// The marker (`›` on the selected row), a space and the choice's name.
    pub label: String,
    pub active: bool,
    pub area: Rect,
}

/// The picker's layout.
#[derive(Clone, Debug)]
pub struct GroupPickerView {
    pub popup: Rect,
    pub title: &'static str,
    pub inner: Rect,
    /// The heading row, which reads `ASSIGN CONNECTION`.
    pub heading: Rect,
    pub rows: Vec<GroupRow>,
    pub hits: Vec<HitRegion<GroupTarget>>,
    pub footer: Rect,
    /// What the footer says while the assignment is being saved.
    pub status: Option<&'static str>,
    /// The footer's shortcut hints (key, description) when it is not busy.
    pub hints: Vec<(&'static str, &'static str)>,
}

/// The picker's height: two rows more than its choices (`Ungrouped` and
/// `+ Create group...` beside the groups), with five rows of frame, heading and
/// footer, and kept between 8 and 22. The choice count is taken modulo 2^16.
pub open spec fn picker_height(groups: nat) -> u16 {
    let raw = (groups + 2) % 65536 + 5;
    if raw < 8 { 8 } else if raw > 22 { 22 } else { raw as u16 }
}

/// The `i`-th choice of the picker.
pub open spec fn picker_choice(groups: Seq<String>, i: int) -> Seq<char> {
    if i == 0 {
        "Ungrouped"@
    } else if i == groups.len() + 1 {
        "+ Create group..."@
    } else {
        groups[i - 1]@
    }
}

/// How many of `n` choices get a row: the rows under the heading and above the
/// footer.
pub open spec fn shown_choices(inner: Rect, n: nat) -> int {
    let limit = sat_sub(inner.spec_bottom(), 1);
    let room = limit - inner.y - 1;
    if room < 0 { 0 } else if room < n { room } else { n as int }
}

pub open spec fn marker(active: bool) -> Seq<char> {
    if active { "›"@ } else { " "@ }
}

pub open spec fn pairs_view(v: Seq<(&'static str, &'static str)>) -> Seq<(Seq<char>, Seq<char>)> {
    Seq::new(v.len(), |i: int| (v[i].0@, v[i].1@))
}

/// The row of choice `i`.
pub open spec fn choice_area(inner: Rect, i: int) -> Rect {
    Rect::spec_new(inner.x, (inner.y + 1 + i) as u16, inner.width, 1)
}

/// The click regions of the first `n` choices' rows, in order.
pub open spec fn choice_hits(inner: Rect, n: nat) -> Seq<HitRegion<GroupTarget>> {
    Seq::new(n, |i: int| HitRegion { area: choice_area(inner, i), target: GroupTarget::Choice(i as usize) })
}

/// A click on the row of a shown choice, anywhere across the popup's inside,
/// reaches that choice: the rows do not overlap.
pub proof fn law_click_on_a_row_picks_its_choice(inner: Rect, n: nat, i: int, column: u16)
    requires
        0 <= i < n,
        inner.y + 1 + n <= u16::MAX,
        inner.x <= column < inner.spec_right(),
    ensures
        topmost(choice_hits(inner, n), column, (inner.y + 1 + i) as u16) == Some(i),
    decreases n,
{
    let hits = choice_hits(inner, n);
    let row = (inner.y + 1 + i) as u16;
    assert(hits.last() == HitRegion { area: choice_area(inner, n - 1), target: GroupTarget::Choice((n - 1) as usize) });
    if i == n - 1 {
        assert(hits.last().area.spec_contains(column, row));
    } else {
        assert(!hits.last().area.spec_contains(column, row));
        assert(hits.drop_last() =~= choice_hits(inner, (n - 1) as nat));
        law_click_on_a_row_picks_its_choice(inner, (n - 1) as nat, i, column);
    }
}

fn picker_hints() -> (out: Vec<(&'static str, &'static str)>)
    ensures
        pairs_view(out@) == seq![("↑/↓"@, "select"@), ("Enter"@, "apply"@), ("Esc"@, "cancel"@)],
{
    let mut out: Vec<(&'static str, &'static str)> = Vec::new();
    out.push(("↑/↓", "select"));
    out.push(("Enter", "apply"));
    out.push(("Esc", "cancel"));
    assert(pairs_view(out@) =~= seq![("↑/↓"@, "select"@), ("Enter"@, "apply"@), ("Esc"@, "cancel"@)]);
    out
}

/// Lays out the group picker over `area` for the connection groups named in
/// `groups`, with choice `selected` marked; while `busy` the rows take no clicks
/// and the footer says that the group is being updated.
pub fn group_picker_view(groups: &[String], selected: usize, busy: bool, area: Rect) -> (v: GroupPickerView)
    requires
        groups@.len() + 2 <= usize::MAX,
        (groups@.len() + 2) % 65536 + 5 <= u16::MAX,
    ensures
        quad(v.popup) == centered_area(area, 64, picker_height(groups@.len())),
        v.title@ == " SELECT CONNECTION GROUP "@,
        v.inner == spec_bordered_inner(v.popup),
        v.heading == Rect::spec_new(v.inner.x, v.inner.y, v.inner.width, 1),
        v.rows@.len() == shown_choices(v.inner, groups@.len() + 2),
        forall|i: int| 0 <= i < v.rows@.len() ==> {
            &&& (#[trigger] v.rows@[i]).label@ == marker(i == selected) + " "@ + picker_choice(groups@, i)
            &&& v.rows@[i].active == (i == selected)
            &&& v.rows@[i].area == choice_area(v.inner, i)
        },
        busy ==> v.hits@.len() == 0,
        !busy ==> v.hits@.len() == v.rows@.len(),
        !busy ==> v.hits@ == choice_hits(v.inner, v.rows@.len()),
        v.rows@.len() == 0 || v.inner.y + 1 + v.rows@.len() <= u16::MAX,
        v.footer == Rect::spec_new(v.inner.x, sat_sub(v.inner.spec_bottom(), 1), v.inner.width, 1),
        busy ==> v.status == Some("Updating group..."),
        !busy ==> v.status is None,
        pairs_view(v.hints@) == (if busy { seq![] } else {
            seq![("↑/↓"@, "select"@), ("Enter"@, "apply"@), ("Esc"@, "cancel"@)]
        }),
{
    let count: usize = groups.len() + 2;
    let raw: u16 = (count % 65536) as u16 + 5;
    let height: u16 = if raw < 8 { 8 } else if raw > 22 { 22 } else { raw };
    let popup = centered(area, 64, height);
    let inner = bordered_inner(popup);
    let heading = Rect::new(inner.x, inner.y, inner.width, 1);
    let limit: u16 = inner.bottom().saturating_sub(1);
    let room: usize = if limit > inner.y { (limit - inner.y - 1) as usize } else { 0 };
    let shown: usize = if room < count { room } else { count };
    assert(shown == shown_choices(inner, groups@.len() + 2));
    let mut rows: Vec<GroupRow> = Vec::new();
    let mut hits: Vec<HitRegion<GroupTarget>> = Vec::new();
    let mut index: usize = 0;
    while index < shown
        invariant
            shown == shown_choices(inner, groups@.len() + 2),
            shown <= count,
            count == groups@.len() + 2,
            index <= shown,
            shown <= 65533,
            rows@.len() == index,
            forall|i: int| 0 <= i < index ==> {
                &&& (#[trigger] rows@[i]).label@ == marker(i == selected) + " "@ + picker_choice(groups@, i)
                &&& rows@[i].active == (i == selected)
                &&& rows@[i].area == choice_area(inner, i)
            },
            busy ==> hits@.len() == 0,
            !busy ==> hits@.len() == index,
            !busy ==> forall|i: int| 0 <= i < index ==>
                (#[trigger] hits@[i]).area == rows@[i].area && hits@[i].target == GroupTarget::Choice(i as usize),
        decreases shown - index,
    {
        let y: u16 = inner.y + 1 + index as u16;
        let area = Rect::new(inner.x, y, inner.width, 1);
        let active = index == selected;
        let mut label = if active { owned("›") } else { owned(" ") };
        push_str(&mut label, " ");
        let name: &str = if index == 0 {
            "Ungrouped"
        } else if index == groups.len() + 1 {
            "+ Create group..."
        } else {
            groups[index - 1].as_str()
        };
        push_str(&mut label, name);
        rows.push(GroupRow { label, active, area });
        if !busy {
            hits.push(HitRegion { area, target: GroupTarget::Choice(index) });
        }
        index = index + 1;
    }
    let footer = Rect::new(inner.x, inner.bottom().saturating_sub(1), inner.width, 1);
    let (status, hints) = if busy {
        (Some("Updating group..."), Vec::new())
    } else {
        (None, picker_hints())
    };
    proof {
        if busy {
            assert(pairs_view(hints@) =~= seq![]);
        } else {
            assert(hits@ =~= choice_hits(inner, rows@.len()));
        }
    }
    GroupPickerView { popup, title: " SELECT CONNECTION GROUP ", inner, heading, rows, hits, footer, status, hints }
}

/// The group form: naming a new or existing group, or confirming a deletion.
#[derive(Clone, Copy, Debug, PartialEq, Eq, Structural)]
pub enum GroupForm {
    Edit { existing: bool, has_error: bool, busy: bool },
    DeleteConfirm { member_count: usize, cancel_selected: bool, busy: bool },
}

/// The form's confirm and cancel buttons, centred in their row.
#[derive(Clone, Debug)]
pub struct GroupButtons {
    /// The confirm button's text, its label in brackets.
    pub confirm_text: String,
    pub confirm: Rect,
    /// The cancel button, which reads `[ Cancel ]`.
    pub cancel: Rect,
    /// Whether a button is drawn as the focused one.
    pub confirm_focused: bool,
    pub cancel_focused: bool,
}

/// The form's layout.
#[derive(Clone, Debug)]
pub struct GroupFormView {
    pub popup: Rect,
    pub title: &'static str,
    pub inner: Rect,
    /// The heading above the name field, and whether it is in the warning colour.
    pub heading: Option<(&'static str, bool)>,
    /// The name field's label text, the label's area and the input's area.
    pub field: Option<(&'static str, Rect, Rect)>,
    /// The row of the error message, when there is one.
    pub error_row: Option<Rect>,
    /// The deletion question and where it goes.
    pub question: Option<(Rect, String)>,
    pub buttons: GroupButtons,
    pub hint_row: Rect,
    pub hints: Vec<(&'static str, &'static str)>,
    pub hits: Vec<HitRegion<GroupTarget>>,
}

pub open spec fn form_title(f: GroupForm) -> Seq<char> {
    match f {
        GroupForm::Edit { existing, .. } => if existing { " EDIT CONNECTION GROUP "@ } else { " NEW CONNECTION GROUP "@ },
        GroupForm::DeleteConfirm { .. } => " DELETE CONNECTION GROUP "@,
    }
}

pub open spec fn form_busy(f: GroupForm) -> bool {
    match f {
        GroupForm::Edit { busy, .. } => busy,
        GroupForm::DeleteConfirm { busy, .. } => busy,
    }
}

pub open spec fn form_cancel_selected(f: GroupForm) -> bool {
    match f {
        GroupForm::Edit { .. } => false,
        GroupForm::DeleteConfirm { cancel_selected, .. } => cancel_selected,
    }
}

pub open spec fn confirm_label(f: GroupForm) -> Seq<char> {
    match f {
        GroupForm::Edit { busy, .. } => if busy { "Saving..."@ } else { "Save group"@ },
        GroupForm::DeleteConfirm { busy, .. } => if busy { "Deleting..."@ } else { "Delete group"@ },
    }
}

pub open spec fn form_hints(f: GroupForm) -> Seq<(Seq<char>, Seq<char>)> {
    match f {
        GroupForm::Edit { .. } => seq![("Enter"@, "save"@), ("Esc"@, "cancel"@), ("Ctrl-W/U/A/E"@, "edit"@)],
        GroupForm::DeleteConfirm { .. } => seq![("Tab/←/→"@, "switch"@), ("Enter"@, "confirm"@), ("Esc"@, "cancel"@)],
    }
}

/// What the deletion asks, for a group with `members` connections.
pub open spec fn delete_question(members: nat) -> Seq<char> {
    "Delete this group?\n\n"@ + decimal(members) + " connection(s) will move to Ungrouped."@
}

/// The confirm button (`confirm_width` cells) and the ten-cell cancel button,
/// one cell apart, centred in `row`.
pub open spec fn button_areas(row: Rect, confirm_width: u16) -> (Rect, Rect) {
    let total = (confirm_width + 11) as u16;
    let x = sat_add(row.x, (sat_sub(row.width, total) / 2) as u16);
    let confirm = Rect::spec_new(x, row.y, confirm_width, 1);
    (confirm, Rect::spec_new(sat_add(confirm.spec_right(), 1), row.y, 10, 1))
}

/// The name field's row.
pub open spec fn field_y(inner: Rect) -> u16 {
    sat_add(inner.y, 2)
}

pub open spec fn label_width(inner: Rect) -> u16 {
    if inner.width < 16 { inner.width } else { 16 }
}

fn bracketed(label: &str) -> (out: String)
    ensures
        out@ == "[ "@ + label@ + " ]"@,
{
    let mut out = owned("[ ");
    push_str(&mut out, label);
    push_str(&mut out, " ]");
    out
}

fn group_buttons(row: Rect, label: &str, enabled: bool, cancel_selected: bool) -> (b: GroupButtons)
    requires
        printable_ascii(label@),
        label@.len() <= 20,
    ensures
        b.confirm_text@ == "[ "@ + label@ + " ]"@,
        (b.confirm, b.cancel) == button_areas(row, (label@.len() + 4) as u16),
        b.confirm_focused == (enabled && !cancel_selected),
        b.cancel_focused == (enabled && cancel_selected),
{
    let confirm_text = bracketed(label);
    proof {
        reveal_strlit("[ ");
        reveal_strlit(" ]");
        reveal_strlit("[ Cancel ]");
        let t = confirm_text@;
        assert forall|i: int| 0 <= i < t.len() implies 0x20 <= (#[trigger] t[i] as u32) < 0x7F by {
            if 2 <= i < t.len() - 2 {
                assert(t[i] == label@[i - 2]);
            }
        }
        assert(printable_ascii("[ Cancel ]"@));
    }
    let confirm_width: u16 = cell_width(confirm_text.as_str());
    let cancel_width: u16 = cell_width("[ Cancel ]");
    let total: u16 = confirm_width + cancel_width + 1;
    let x: u16 = row.x.saturating_add(row.width.saturating_sub(total) / 2);
    let confirm = Rect::new(x, row.y, confirm_width, 1);
    let cancel = Rect::new(confirm.right().saturating_add(1), row.y, cancel_width, 1);
    GroupButtons {
        confirm_text,
        confirm,
        cancel,
        confirm_focused: enabled && !cancel_selected,
        cancel_focused: enabled && cancel_selected,
    }
}

fn form_hint_pairs(f: GroupForm) -> (out: Vec<(&'static str, &'static str)>)
    ensures
        pairs_view(out@) == form_hints(f),
{
    let mut out: Vec<(&'static str, &'static str)> = Vec::new();
    match f {
        GroupForm::Edit { .. } => {
            out.push(("Enter", "save"));
            out.push(("Esc", "cancel"));
            out.push(("Ctrl-W/U/A/E", "edit"));
        },
        GroupForm::DeleteConfirm { .. } => {
            out.push(("Tab/←/→", "switch"));
            out.push(("Enter", "confirm"));
            out.push(("Esc", "cancel"));
        },
    }
    assert(pairs_view(out@) =~= form_hints(f));
    out
}

/// Lays out the group form over `area`: a 64-by-8 popup whose last two rows
/// hold the buttons and the hints. The name form has a heading, the name field
/// and, when there is one, the error's row; the deletion asks its question over
/// the rows above the buttons. While busy nothing in it takes a click.
pub fn group_form_view(form: GroupForm, area: Rect) -> (v: GroupFormView)
    ensures
        quad(v.popup) == centered_area(area, 64, 8),
        v.title@ == form_title(form),
        v.inner == spec_bordered_inner(v.popup),
        match form {
            GroupForm::Edit { has_error, busy, .. } => {
                let y = field_y(v.inner);
                let lw = label_width(v.inner);
                let label = Rect::spec_new(v.inner.x, y, lw, 1);
                let input = Rect::spec_new(sat_add(v.inner.x, lw), y, sat_sub(v.inner.width, lw), 1);
                &&& v.heading matches Some((text, warning)) && text@ == (if busy { "BUSY // SAVING GROUP"@ } else { "GROUP DETAILS"@ }) && warning == busy
                &&& v.field matches Some((text, l, i)) && text@ == "› Group name"@ && l == label && i == input
                &&& v.error_row == (if has_error { Some(Rect::spec_new(v.inner.x, sat_add(y, 1), v.inner.width, 1)) } else { None })
                &&& v.question is None
                &&& busy ==> v.hits@.len() == 0
                &&& !busy ==> v.hits@.len() == 3 && v.hits@[0].area == input && v.hits@[0].target == GroupTarget::Name
                    && v.hits@[1].area == v.buttons.confirm && v.hits@[1].target == GroupTarget::Confirm
                    && v.hits@[2].area == v.buttons.cancel && v.hits@[2].target == GroupTarget::Cancel
            },
            GroupForm::DeleteConfirm { member_count, busy, .. } => {
                &&& v.heading is None && v.field is None && v.error_row is None
                &&& v.question matches Some((r, text))
                    && r == Rect::spec_new(v.inner.x, v.inner.y, v.inner.width, sat_sub(v.inner.height, 2))
                    && text@ == delete_question(member_count as nat)
                &&& busy ==> v.hits@.len() == 0
                &&& !busy ==> v.hits@.len() == 2
                    && v.hits@[0].area == v.buttons.confirm && v.hits@[0].target == GroupTarget::Confirm
                    && v.hits@[1].area == v.buttons.cancel && v.hits@[1].target == GroupTarget::Cancel
            },
        },
        v.buttons.confirm_text@ == "[ "@ + confirm_label(form) + " ]"@,
        (v.buttons.confirm, v.buttons.cancel) == button_areas(
            Rect::spec_new(v.inner.x, sat_sub(v.inner.spec_bottom(), 2), v.inner.width, 1),
            (confirm_label(form).len() + 4) as u16),
        v.buttons.confirm_focused == (!form_busy(form) && !form_cancel_selected(form)),
        v.buttons.cancel_focused == (!form_busy(form) && form_cancel_selected(form)),
        v.hint_row == Rect::spec_new(v.inner.x, sat_sub(v.inner.spec_bottom(), 1), v.inner.width, 1),
        pairs_view(v.hints@) == form_hints(form),
{
    let popup = centered(area, 64, 8);
    let inner = bordered_inner(popup);
    let title = match form {
        GroupForm::Edit { existing, .. } => if existing { " EDIT CONNECTION GROUP " } else { " NEW CONNECTION GROUP " },
        GroupForm::DeleteConfirm { .. } => " DELETE CONNECTION GROUP ",
    };
    let busy = match form {
        GroupForm::Edit { busy, .. } => busy,
        GroupForm::DeleteConfirm { busy, .. } => busy,
    };
    let cancel_selected = match form {
        GroupForm::Edit { .. } => false,
        GroupForm::DeleteConfirm { cancel_selected, .. } => cancel_selected,
    };
    let label: &str = match form {
        GroupForm::Edit { busy, .. } => if busy { "Saving..." } else { "Save group" },
        GroupForm::DeleteConfirm { busy, .. } => if busy { "Deleting..." } else { "Delete group" },
    };
    proof {
        reveal_strlit("Saving...");
        reveal_strlit("Save group");
        reveal_strlit("Deleting...");
        reveal_strlit("Delete group");
    }
    let mut hits: Vec<HitRegion<GroupTarget>> = Vec::new();
    let mut heading: Option<(&'static str, bool)> = None;
    let mut field: Option<(&'static str, Rect, Rect)> = None;
    let mut error_row: Option<Rect> = None;
    let mut question: Option<(Rect, String)> = None;
    match form {
        GroupForm::Edit { has_error, busy, .. } => {
            heading = Some((if busy { "BUSY // SAVING GROUP" } else { "GROUP DETAILS" }, busy));
            let y: u16 = inner.y.saturating_add(2);
            let lw: u16 = if inner.width < 16 { inner.width } else { 16 };
            let label_area = Rect::new(inner.x, y, lw, 1);
            let input_area = Rect::new(inner.x.saturating_add(lw), y, inner.width.saturating_sub(lw), 1);
            field = Some(("› Group name", label_area, input_area));
            if !busy {
                hits.push(HitRegion { area: input_area, target: GroupTarget::Name });
            }
            if has_error {
                error_row = Some(Rect::new(inner.x, y.saturating_add(1), inner.width, 1));
            }
        },
        GroupForm::DeleteConfirm { member_count, .. } => {
            let mut text = owned("Delete this group?\n\n");
            push_decimal(&mut text, member_count as u64);
            push_str(&mut text, " connection(s) will move to Ungrouped.");
            question = Some((Rect::new(inner.x, inner.y, inner.width, inner.height.saturating_sub(2)), text));
        },
    }
    let row = Rect::new(inner.x, inner.bottom().saturating_sub(2), inner.width, 1);
    let buttons = group_buttons(row, label, !busy, cancel_selected);
    if !busy {
        hits.push(HitRegion { area: buttons.confirm, target: GroupTarget::Confirm });
        hits.push(HitRegion { area: buttons.cancel, target: GroupTarget::Cancel });
    }
    let hint_row = Rect::new(inner.x, inner.bottom().saturating_sub(1), inner.width, 1);
    GroupFormView { popup, title, inner, heading, field, error_row, question, buttons, hint_row, hints: form_hint_pairs(form), hits }
}

} // verus!
