//! Dialog buttons: their labels and where a row of them is placed.
use vstd::prelude::*;
use crate::cells::{str_width, unicode_str_width};
use crate::geometry::{Rect, sat_add, sat_sub};
use crate::text::{push_str, owned};

verus! {

broadcast use vstd::string::group_string_axioms;

/// Colour family of a dialog button.
#[derive(Clone, Copy, Debug, PartialEq, Eq, Structural)]
pub enum DialogTone {
    Normal,
    Danger,
}

/// A button in a dialog's action row.
#[derive(Clone, Copy, Debug, PartialEq, Eq)]
pub struct DialogButton<'a> {
    pub label: &'a str,
    pub tone: DialogTone,
    pub enabled: bool,
}

/// Where the button with index `index` was drawn.
#[derive(Clone, Copy, Debug, PartialEq, Eq, Structural)]
pub struct DialogActionArea {
    pub index: usize,
    pub area: Rect,
}

/// `[ > label ]` for the focused button, `[   label ]` otherwise.
pub open spec fn button_text(label: Seq<char>, focused: bool) -> Seq<char> {
    (if focused { "[ > "@ } else { "[   "@ }) + label + " ]"@
}

/// The text of a button.
pub fn format_button(label: &str, focused: bool) -> (out: String)
    ensures
        out@ == button_text(label@, focused),
{
    let mut out = if focused { owned("[ > ") } else { owned("[   ") };
    push_str(&mut out, label);
    push_str(&mut out, " ]");
    out
}

/// Display width of button `i`'s text, as the `u16` the layout uses.
pub open spec fn button_width(buttons: Seq<DialogButton>, i: int, focused: bool) -> u16 {
    unicode_str_width(button_text(buttons[i].label@, focused)) as u16
}

/// Sum of the unfocused widths of the first `n` buttons.
pub open spec fn row_width(buttons: Seq<DialogButton>, n: int) -> int
    decreases n,
{
    if n <= 0 { 0 } else { row_width(buttons, n - 1) + button_width(buttons, n - 1, false) }
}

/// Width of the whole row: the buttons plus two cells between neighbours.
pub open spec fn total_width(buttons: Seq<DialogButton>) -> u16 {
    sat_add(row_width(buttons, buttons.len() as int) as u16, ((if buttons.len() == 0 { 0 } else { buttons.len() - 1 }) * 2) as u16)
}

/// Column where button `i` starts in a row centred in `area`.
pub open spec fn slot_x(buttons: Seq<DialogButton>, focused: int, area: Rect, i: int) -> u16
    decreases i,
{
    if i <= 0 {
        sat_add(area.x, sat_sub(area.width, total_width(buttons)) / 2)
    } else {
        sat_add(sat_add(slot_x(buttons, focused, area, i - 1), button_width(buttons, i - 1, i - 1 == focused)), 2)
    }
}

/// The rows a stacked layout fills: one button per row from the top of `area`,
/// stopping at the first row below it.
pub open spec fn stacked_count(area: Rect, n: int, k: int) -> bool {
    &&& 0 <= k <= n
    &&& forall|i: int| 0 <= i < k ==> #[trigger] sat_add(area.y, i as u16) < area.spec_bottom()
    &&& (k == n || sat_add(area.y, k as u16) >= area.spec_bottom())
}

/// Where each button of a dialog's action row goes: one centred row with two cells
/// between buttons when they fit the width of `area`, otherwise one button per row
/// (clipped to the width) for as many rows as `area` has.
pub open spec fn action_slots(area: Rect, buttons: Seq<DialogButton>, focused: int, out: Seq<DialogActionArea>) -> bool {
    if buttons.len() == 0 || area.height == 0 || area.width == 0 {
        out.len() == 0
    } else if total_width(buttons) > area.width {
        &&& stacked_count(area, buttons.len() as int, out.len() as int)
        &&& forall|i: int| 0 <= i < out.len() ==> #[trigger] out[i] == (DialogActionArea {
            index: i as usize,
            area: Rect::spec_new(area.x, sat_add(area.y, i as u16),
                (if (unicode_str_width(button_text(buttons[i].label@, i == focused)) as int) < area.width as int {
                    unicode_str_width(button_text(buttons[i].label@, i == focused)) as u16
                } else { area.width }), 1),
        })
    } else {
        &&& out.len() == buttons.len()
        &&& forall|i: int| 0 <= i < out.len() ==> #[trigger] out[i] == (DialogActionArea {
            index: i as usize,
            area: Rect::spec_new(slot_x(buttons, focused, area, i), area.y, button_width(buttons, i, i == focused), 1),
        })
    }
}

/// Places the buttons of a dialog's action row inside `area`.
pub fn action_layout(area: Rect, buttons: &[DialogButton], focused: usize) -> (out: Vec<DialogActionArea>)
    requires
        buttons@.len() < usize::MAX / 2,
        row_width(buttons@, buttons@.len() as int) <= u16::MAX,
    ensures
        action_slots(area, buttons@, focused as int, out@),
{
    let mut out: Vec<DialogActionArea> = Vec::new();
    if buttons.len() == 0 || area.height == 0 || area.width == 0 {
        return out;
    }
    let mut total: u16 = 0;
    let mut i: usize = 0;
    while i < buttons.len()
        invariant
            i <= buttons@.len(),
            row_width(buttons@, buttons@.len() as int) <= u16::MAX,
            total as int == row_width(buttons@, i as int),
        decreases buttons@.len() - i,
    {
        proof { lemma_row_width_mono(buttons@, i as int + 1, buttons@.len() as int); }
        let label = format_button(buttons[i].label, false);
        let w = #[verifier::truncate] (str_width(label.as_str()) as u16);
        total = total + w;
        i = i + 1;
    }
    let spacing = #[verifier::truncate] (((buttons.len() - 1) * 2) as u16);
    let row_total = total.saturating_add(spacing);
    if row_total > area.width {
        let mut index: usize = 0;
        while index < buttons.len()
            invariant
                index <= buttons@.len(),
                out@.len() == index,
                row_total == total_width(buttons@),
                row_total > area.width,
                forall|k: int| 0 <= k < index ==> #[trigger] sat_add(area.y, k as u16) < area.spec_bottom(),
                forall|k: int| 0 <= k < index ==> #[trigger] out@[k] == (DialogActionArea {
                    index: k as usize,
                    area: Rect::spec_new(area.x, sat_add(area.y, k as u16),
                        (if (unicode_str_width(button_text(buttons@[k].label@, k == focused)) as int) < area.width as int {
                            unicode_str_width(button_text(buttons@[k].label@, k == focused)) as u16
                        } else { area.width }), 1),
                }),
            ensures
                out@.len() == index,
                index == buttons@.len() || sat_add(area.y, index as u16) >= area.spec_bottom(),
            decreases buttons@.len() - index,
        {
            let y = area.y.saturating_add(#[verifier::truncate] (index as u16));
            if y >= area.bottom() {
                break;
            }
            let label = format_button(buttons[index].label, index == focused);
            let lw = str_width(label.as_str());
            let width: u16 = if lw < area.width as usize { lw as u16 } else { area.width };
            out.push(DialogActionArea { index, area: Rect::new(area.x, y, width, 1) });
            index = index + 1;
        }
        return out;
    }
    let mut x = area.x.saturating_add(area.width.saturating_sub(row_total) / 2);
    let mut index: usize = 0;
    while index < buttons.len()
        invariant
            index <= buttons@.len(),
            out@.len() == index,
            row_total == total_width(buttons@),
            x == slot_x(buttons@, focused as int, area, index as int),
            forall|k: int| 0 <= k < index ==> #[trigger] out@[k] == (DialogActionArea {
                index: k as usize,
                area: Rect::spec_new(slot_x(buttons@, focused as int, area, k), area.y, button_width(buttons@, k, k == focused), 1),
            }),
        decreases buttons@.len() - index,
    {
        let label = format_button(buttons[index].label, index == focused);
        let width = #[verifier::truncate] (str_width(label.as_str()) as u16);
        out.push(DialogActionArea { index, area: Rect::new(x, area.y, width, 1) });
        x = x.saturating_add(width).saturating_add(2);
        index = index + 1;
    }
    out
}

/// Places the buttons after measuring them: `None` when their widths would not
/// fit in 16 bits.
pub fn measured_action_layout(area: Rect, buttons: &[DialogButton], focused: usize) -> (out: Option<Vec<DialogActionArea>>)
    requires
        buttons@.len() < usize::MAX / 2,
    ensures
        out is Some <==> row_width(buttons@, buttons@.len() as int) <= u16::MAX,
        out matches Some(v) ==> action_slots(area, buttons@, focused as int, v@),
{
    let mut total: u32 = 0;
    let mut i: usize = 0;
    while i < buttons.len()
        invariant
            i <= buttons@.len(),
            total as int == row_width(buttons@, i as int),
            total <= u16::MAX,
        decreases buttons@.len() - i,
    {
        let label = format_button(buttons[i].label, false);
        let w = #[verifier::truncate] (str_width(label.as_str()) as u16);
        if total + w as u32 > u16::MAX as u32 {
            proof { lemma_row_width_mono(buttons@, i as int + 1, buttons@.len() as int); }
            return None;
        }
        total = total + w as u32;
        i = i + 1;
    }
    Some(action_layout(area, buttons, focused))
}

proof fn lemma_row_width_mono(buttons: Seq<DialogButton>, i: int, j: int)
    requires
        0 <= i <= j,
    ensures
        row_width(buttons, i) <= row_width(buttons, j),
    decreases j - i,
{
    if i < j {
        lemma_row_width_mono(buttons, i, j - 1);
    }
}

/// The placed buttons, in order, whose button is enabled.
pub open spec fn clickable(buttons: Seq<DialogButton>, placed: Seq<DialogActionArea>) -> Seq<DialogActionArea>
    decreases placed.len(),
{
    if placed.len() == 0 {
        seq![]
    } else {
        let rest = clickable(buttons, placed.drop_last());
        let a = placed.last();
        if a.index < buttons.len() && buttons[a.index as int].enabled { rest.push(a) } else { rest }
    }
}

/// The placed buttons that can be clicked: those whose button is enabled.
pub fn enabled_actions(buttons: &[DialogButton], placed: &[DialogActionArea]) -> (out: Vec<DialogActionArea>)
    ensures
        out@ == clickable(buttons@, placed@),
{
    let mut out: Vec<DialogActionArea> = Vec::new();
    let mut i: usize = 0;
    while i < placed.len()
        invariant
            i <= placed@.len(),
            out@ == clickable(buttons@, placed@.take(i as int)),
        decreases placed@.len() - i,
    {
        let a = placed[i];
        assert(placed@.take(i as int + 1).drop_last() =~= placed@.take(i as int));
        if a.index < buttons.len() && buttons[a.index].enabled {
            out.push(a);
        }
        i = i + 1;
    }
    assert(placed@.take(placed@.len() as int) =~= placed@);
    out
}

} // verus!
