//! The small selection popups: the page size, the Redis value format and the
//! transaction mode menu.
use vstd::prelude::*;
use crate::geometry::{Rect, sat_add, sat_sub};
use crate::hits::HitRegion;
use crate::panes::{centered, centered_area, quad};
use crate::text::{owned, push_str, push_decimal, decimal};

verus! {

broadcast use vstd::string::group_string_axioms;

/// A selection popup: where it goes, its title, the heading line above the
/// choices (if any), each choice's line and whether it is selected, and the
/// lines under the choices.
#[derive(Clone, Debug)]
pub struct SelectorView {
    pub popup: Rect,
    pub title: &'static str,
    pub heading: Option<&'static str>,
    pub items: Vec<(String, bool)>,
    pub footer: Vec<&'static str>,
}

pub open spec fn items_view(items: Seq<(String, bool)>) -> Seq<(Seq<char>, bool)> {
    Seq::new(items.len(), |i: int| (items[i].0@, items[i].1))
}

pub open spec fn strs_view(v: Seq<&'static str>) -> Seq<Seq<char>> {
    Seq::new(v.len(), |i: int| v[i]@)
}

pub open spec fn pointer(selected: bool) -> Seq<char> {
    if selected { ">"@ } else { " "@ }
}

/// The page size choices: the pointer on the selected one, then the size.
pub open spec fn page_size_items(sizes: Seq<u64>, selected: usize) -> Seq<(Seq<char>, bool)> {
    Seq::new(sizes.len(), |i: int| (pointer(i == selected) + " "@ + decimal(sizes[i] as nat), i == selected))
}

/// The page size selector over `area` for the sizes offered, with `selected`
/// marked; `relation` says whether it sets a relation's page size or a
/// result's. Its height counts the sizes modulo 2^16.
pub fn page_size_selector(area: Rect, sizes: &[u64], selected: usize, relation: bool) -> (v: SelectorView)
    requires
        sizes@.len() % 65536 + 4 <= u16::MAX,
    ensures
        quad(v.popup) == centered_area(area, 28, (sizes@.len() % 65536 + 4) as u16),
        v.title@ == (if relation { " RELATION PAGE SIZE "@ } else { " RESULT PAGE SIZE "@ }),
        v.heading matches Some(h) && h@ == " PAGE SIZE "@,
        items_view(v.items@) == page_size_items(sizes@, selected),
        strs_view(v.footer@) == seq!["j/k select  Enter apply  Esc cancel"@],
{
    let height: u16 = (sizes.len() % 65536) as u16 + 4;
    let popup = centered(area, 28, height);
    let mut items: Vec<(String, bool)> = Vec::new();
    let mut i: usize = 0;
    while i < sizes.len()
        invariant
            i <= sizes@.len(),
            items_view(items@) == page_size_items(sizes@, selected).take(i as int),
        decreases sizes@.len() - i,
    {
        let chosen = i == selected;
        let mut line = owned(if chosen { ">" } else { " " });
        push_str(&mut line, " ");
        push_decimal(&mut line, sizes[i]);
        proof {
            reveal_strlit(">");
            reveal_strlit(" ");
            assert(line@ == page_size_items(sizes@, selected)[i as int].0);
        }
        let ghost before = items@;
        let ghost entry = (line@, chosen);
        items.push((line, chosen));
        proof {
            assert(items_view(items@) =~= items_view(before).push(entry));
            assert(page_size_items(sizes@, selected).take(i + 1) =~= page_size_items(sizes@, selected).take(i as int).push(page_size_items(sizes@, selected)[i as int]));
        }
        i = i + 1;
    }
    assert(page_size_items(sizes@, selected).take(i as int) =~= page_size_items(sizes@, selected));
    let mut footer: Vec<&'static str> = Vec::new();
    footer.push("j/k select  Enter apply  Esc cancel");
    assert(strs_view(footer@) =~= seq!["j/k select  Enter apply  Esc cancel"@]);
    SelectorView {
        popup,
        title: if relation { " RELATION PAGE SIZE " } else { " RESULT PAGE SIZE " },
        heading: Some(" PAGE SIZE "),
        items,
        footer,
    }
}

/// The value formats in the order the selector lists them.
pub open spec fn format_names() -> Seq<Seq<char>> {
    seq!["Auto"@, "RAW"@, "JSON"@, "YAML"@, "Table"@, "Hex"@, "Java Serialization"@, "PHP Serialization"@, "Python Pickle"@]
}

pub open spec fn format_items(selected: usize) -> Seq<(Seq<char>, bool)> {
    Seq::new(9, |i: int| (" "@ + pointer(i == selected) + " "@ + format_names()[i], i == selected))
}

/// The Redis value format selector over `area`, with `selected` marked.
pub fn value_format_selector(area: Rect, selected: usize) -> (v: SelectorView)
    ensures
        quad(v.popup) == centered_area(area, 42, 13),
        v.title@ == " VALUE FORMAT "@,
        v.heading is None,
        items_view(v.items@) == format_items(selected),
        strs_view(v.footer@) == seq![""@, " j/k select  Enter apply  Esc cancel"@],
{
    let popup = centered(area, 42, 13);
    let mut labels: Vec<&'static str> = Vec::new();
    labels.push("Auto");
    labels.push("RAW");
    labels.push("JSON");
    labels.push("YAML");
    labels.push("Table");
    labels.push("Hex");
    labels.push("Java Serialization");
    labels.push("PHP Serialization");
    labels.push("Python Pickle");
    assert(strs_view(labels@) =~= format_names());
    let mut items: Vec<(String, bool)> = Vec::new();
    let mut i: usize = 0;
    while i < 9
        invariant
            i <= 9,
            labels@.len() == 9,
            strs_view(labels@) == format_names(),
            items_view(items@) == format_items(selected).take(i as int),
        decreases 9 - i,
    {
        let chosen = i == selected;
        let mut line = owned(" ");
        push_str(&mut line, if chosen { ">" } else { " " });
        push_str(&mut line, " ");
        push_str(&mut line, labels[i]);
        proof {
            reveal_strlit(">");
            reveal_strlit(" ");
            assert(labels@[i as int]@ == strs_view(labels@)[i as int]);
            assert(line@ == format_items(selected)[i as int].0);
        }
        let ghost before = items@;
        let ghost entry = (line@, chosen);
        items.push((line, chosen));
        proof {
            assert(items_view(items@) =~= items_view(before).push(entry));
            assert(format_items(selected).take(i + 1) =~= format_items(selected).take(i as int).push(format_items(selected)[i as int]));
        }
        i = i + 1;
    }
    assert(format_items(selected).take(9) =~= format_items(selected));
    let mut footer: Vec<&'static str> = Vec::new();
    footer.push("");
    footer.push(" j/k select  Enter apply  Esc cancel");
    assert(strs_view(footer@) =~= seq![""@, " j/k select  Enter apply  Esc cancel"@]);
    SelectorView { popup, title: " VALUE FORMAT ", heading: None, items, footer }
}

/// A transaction menu entry as drawn.
#[derive(Clone, Debug)]
pub struct MenuEntry {
    pub text: String,
    pub selected: bool,
    pub enabled: bool,
    /// The entry names the console's current mode.
    pub current: bool,
}

/// What a click on the transaction menu reaches.
#[derive(Clone, Copy, Debug, PartialEq, Eq, Structural)]
pub enum TransactionMenuTarget {
    Item(usize),
    Cancel,
}

/// The transaction menu's layout.
#[derive(Clone, Debug)]
pub struct TransactionMenuView {
    pub popup: Rect,
    pub entries: Vec<MenuEntry>,
    pub hits: Vec<HitRegion<TransactionMenuTarget>>,
}

pub open spec fn menu_label(i: int) -> Seq<char> {
    if i == 0 { "Auto"@ } else if i == 1 { "Manual"@ } else if i == 2 { "Resolve Transaction"@ } else { "Cancel"@ }
}

/// Entry `i` is the console's current mode (Auto for the first entry, Manual
/// for the second).
pub open spec fn is_current(i: int, manual: Option<bool>) -> bool {
    match manual {
        Some(m) => (i == 0 && !m) || (i == 1 && m),
        None => false,
    }
}

/// An entry's text: the pointer, the label, then why it is unavailable or
/// that it is current.
pub open spec fn menu_text(i: int, selected: usize, availability: Seq<(bool, String)>, manual: Option<bool>) -> Seq<char> {
    pointer(i == selected) + " "@ + menu_label(i)
        + (if !availability[i].0 { availability[i].1@ } else if is_current(i, manual) { " (current)"@ } else { ""@ })
}

/// Entry `i`'s row inside the popup's frame, when the popup reaches it.
pub open spec fn menu_row(popup: Rect, i: int) -> u16 {
    sat_add(popup.y, (2 + i) as u16)
}

pub open spec fn menu_hits(popup: Rect, n: int) -> Seq<HitRegion<TransactionMenuTarget>>
    decreases n,
{
    if n <= 0 {
        seq![]
    } else {
        let i = n - 1;
        menu_hits(popup, i) + (if menu_row(popup, i) < popup.spec_bottom() {
            seq![HitRegion {
                area: Rect::spec_new(sat_add(popup.x, 1), menu_row(popup, i), sat_sub(popup.width, 2), 1),
                target: if i == 3 { TransactionMenuTarget::Cancel } else { TransactionMenuTarget::Item(i as usize) },
            }]
        } else {
            seq![]
        })
    }
}

/// The transaction menu over `area`: Auto, Manual, Resolve Transaction and
/// Cancel, each with whether it is available (and why not); `manual` is the
/// active console's mode, if there is one. The title is ` TRANSACTION `, the
/// heading ` TRANSACTION MODE ` and the last line
/// `Up/Down select; Enter choose; Esc cancels`.
pub fn transaction_menu(area: Rect, selected: usize, availability: &[(bool, String)], manual: Option<bool>) -> (v: TransactionMenuView)
    requires
        availability@.len() == 4,
    ensures
        quad(v.popup) == centered_area(area, 58, 9),
        v.entries@.len() == 4,
        forall|i: int| 0 <= i < 4 ==> {
            &&& (#[trigger] v.entries@[i]).text@ == menu_text(i, selected, availability@, manual)
            &&& v.entries@[i].selected == (i == selected)
            &&& v.entries@[i].enabled == availability@[i].0
            &&& v.entries@[i].current == is_current(i, manual)
        },
        v.hits@ == menu_hits(v.popup, 4),
{
    let popup = centered(area, 58, 9);
    let mut entries: Vec<MenuEntry> = Vec::new();
    let mut hits: Vec<HitRegion<TransactionMenuTarget>> = Vec::new();
    let mut i: usize = 0;
    while i < 4
        invariant
            i <= 4,
            availability@.len() == 4,
            entries@.len() == i,
            forall|k: int| 0 <= k < i ==> {
                &&& (#[trigger] entries@[k]).text@ == menu_text(k, selected, availability@, manual)
                &&& entries@[k].selected == (k == selected)
                &&& entries@[k].enabled == availability@[k].0
                &&& entries@[k].current == is_current(k, manual)
            },
            hits@ == menu_hits(popup, i as int),
        decreases 4 - i,
    {
        let (enabled, reason) = (availability[i].0, &availability[i].1);
        let current = match manual {
            Some(m) => (i == 0 && !m) || (i == 1 && m),
            None => false,
        };
        let mut text = owned(if i == selected { ">" } else { " " });
        push_str(&mut text, " ");
        push_str(&mut text, if i == 0 { "Auto" } else if i == 1 { "Manual" } else if i == 2 { "Resolve Transaction" } else { "Cancel" });
        if !enabled {
            push_str(&mut text, reason.as_str());
        } else if current {
            push_str(&mut text, " (current)");
        }
        proof {
            reveal_strlit(">");
            reveal_strlit(" ");
            reveal_strlit("");
            assert(text@ =~= menu_text(i as int, selected, availability@, manual));
        }
        entries.push(MenuEntry { text, selected: i == selected, enabled, current });
        let row = popup.y.saturating_add(2 + i as u16);
        if row < popup.bottom() {
            hits.push(HitRegion {
                area: Rect::new(popup.x.saturating_add(1), row, popup.width.saturating_sub(2), 1),
                target: if i == 3 { TransactionMenuTarget::Cancel } else { TransactionMenuTarget::Item(i) },
            });
        }
        proof {
            assert(menu_hits(popup, i as int + 1) =~= menu_hits(popup, i as int) + (if menu_row(popup, i as int) < popup.spec_bottom() {
                seq![HitRegion {
                    area: Rect::spec_new(sat_add(popup.x, 1), menu_row(popup, i as int), sat_sub(popup.width, 2), 1),
                    target: if i == 3 { TransactionMenuTarget::Cancel } else { TransactionMenuTarget::Item(i) },
                }]
            } else {
                seq![]
            }));
        }
        i = i + 1;
    }
    TransactionMenuView { popup, entries, hits }
}

} // verus!
