//! Shared dialog footer: a status/actions row above a help area, with optional
//! separator rows.
use vstd::prelude::*;
use crate::cells::{str_width, unicode_str_width};
use crate::geometry::{Rect, sat_add, sat_sub};

verus! {

/// Whether the footer may use separator rows.
#[derive(Clone, Copy, Debug, PartialEq, Eq, Structural)]
pub enum FooterDensity {
    Standard,
    Compact,
}

/// Rows of a dialog footer.
#[derive(Clone, Copy, Debug, PartialEq, Eq, Structural)]
pub struct FooterLayout {
    pub status_and_actions: Rect,
    pub help: Rect,
    pub content_separator: Option<Rect>,
    pub help_separator: Option<Rect>,
    pub density: FooterDensity,
}

pub open spec fn min16(a: u16, b: u16) -> u16 {
    if a < b { a } else { b }
}

pub open spec fn max16(a: u16, b: u16) -> u16 {
    if a < b { b } else { a }
}

impl FooterLayout {
    pub open spec fn spec_height(self) -> u16 {
        sat_add(
            sat_add(sat_add(self.status_and_actions.height, self.help.height), if self.content_separator is Some { 1 } else { 0 }),
            if self.help_separator is Some { 1 } else { 0 },
        )
    }

    /// Rows the footer takes, separators included.
    pub fn height(self) -> (r: u16)
        ensures
            r == self.spec_height(),
    {
        self.status_and_actions
            .height
            .saturating_add(self.help.height)
            .saturating_add(if self.content_separator.is_some() { 1 } else { 0 })
            .saturating_add(if self.help_separator.is_some() { 1 } else { 0 })
    }

    pub open spec fn spec_status_width(self, action_width: u16, gap: u16) -> u16 {
        sat_sub(self.status_and_actions.width, sat_add(action_width, gap))
    }

    /// Width left for the status text once the actions and the gap are placed.
    pub fn status_width(self, action_width: u16, gap: u16) -> (r: u16)
        ensures
            r == self.spec_status_width(action_width, gap),
    {
        self.status_and_actions.width.saturating_sub(action_width.saturating_add(gap))
    }

    pub open spec fn spec_status_area(self, action_width: u16, gap: u16) -> Rect {
        Rect::spec_new(self.status_and_actions.x, self.status_and_actions.y,
            self.spec_status_width(action_width, gap), self.status_and_actions.height)
    }

    pub open spec fn spec_action_area(self, action_width: u16) -> Rect {
        let width = min16(action_width, self.status_and_actions.width);
        Rect::spec_new(sat_sub(self.status_and_actions.spec_right(), width),
            self.status_and_actions.y, width, self.status_and_actions.height)
    }

    /// The status text area: the left part of the status/actions row.
    pub fn status_area(self, action_width: u16, gap: u16) -> (r: Rect)
        ensures
            r == self.spec_status_area(action_width, gap),
    {
        Rect::new(
            self.status_and_actions.x,
            self.status_and_actions.y,
            self.status_width(action_width, gap),
            self.status_and_actions.height,
        )
    }

    /// The actions area: right-aligned in the status/actions row.
    pub fn action_area(self, action_width: u16, _gap: u16) -> (r: Rect)
        ensures
            r == self.spec_action_area(action_width),
    {
        let width = action_width.min(self.status_and_actions.width);
        Rect::new(
            self.status_and_actions.right().saturating_sub(width),
            self.status_and_actions.y,
            width,
            self.status_and_actions.height,
        )
    }
}

/// Law: on the status/actions row the status text ends before the actions
/// begin, `gap` columns before them whenever there is room for any status text,
/// and the actions end at the row's right edge.
pub proof fn law_status_and_actions_keep_apart(layout: FooterLayout, action_width: u16, gap: u16)
    requires
        layout.status_and_actions.x + layout.status_and_actions.width <= u16::MAX,
        action_width + gap <= u16::MAX,
    ensures
        ({
            let s = layout.spec_status_area(action_width, gap);
            let a = layout.spec_action_area(action_width);
            &&& s.x + s.width <= a.x
            &&& s.width > 0 ==> s.x + s.width + gap == a.x
            &&& a.x + a.width == layout.status_and_actions.spec_right()
        }),
{
}

/// The footer placed at the bottom of `area`: the standard layout (a separator row,
/// the status/actions row, a separator row, then the help rows) when asked for and
/// `area` has room for it, the compact layout (status/actions row then help rows)
/// otherwise.
pub open spec fn footer(area: Rect, help_height: u16, density: FooterDensity) -> FooterLayout {
    if area.spec_is_empty() {
        FooterLayout {
            status_and_actions: Rect { x: 0, y: 0, width: 0, height: 0 },
            help: Rect { x: 0, y: 0, width: 0, height: 0 },
            content_separator: None,
            help_separator: None,
            density,
        }
    } else {
        let requested_help = max16(help_height, 1);
        let requested_height = sat_add(sat_add(requested_help, 1), 2);
        let standard = density == FooterDensity::Standard && area.height >= requested_height;
        let separators: u16 = if standard { 2 } else { 0 };
        let help = max16(min16(requested_help, sat_sub(area.height, (1 + separators) as u16)), min16(1, area.height));
        let total = min16(sat_add(sat_add(help, 1), separators), area.height);
        let top = sat_sub(area.spec_bottom(), total);
        let action_y = sat_add(top, if standard { 1 } else { 0 });
        let help_y = sat_add(action_y, if standard { 2 } else { 1 });
        FooterLayout {
            status_and_actions: Rect::spec_new(area.x, action_y, area.width, 1),
            help: Rect::spec_new(area.x, help_y, area.width, min16(help, sat_sub(area.spec_bottom(), help_y))),
            content_separator: if standard { Some(Rect::spec_new(area.x, top, area.width, 1)) } else { None },
            help_separator: if standard { Some(Rect::spec_new(area.x, sat_sub(help_y, 1), area.width, 1)) } else { None },
            density: if standard { FooterDensity::Standard } else { FooterDensity::Compact },
        }
    }
}

/// Lays out a dialog footer at the bottom of `area`.
pub fn measure(area: Rect, _action_width: u16, help_height: u16, density: FooterDensity) -> (r: FooterLayout)
    ensures
        r == footer(area, help_height, density),
{
    if area.is_empty() {
        return FooterLayout {
            status_and_actions: Rect::zero(),
            help: Rect::zero(),
            content_separator: None,
            help_separator: None,
            density,
        };
    }
    let standard_extra = 2u16;
    let requested_help = help_height.max(1);
    let requested_height = requested_help.saturating_add(1).saturating_add(standard_extra);
    let use_standard = density == FooterDensity::Standard && area.height >= requested_height;
    let actual_density = if use_standard { FooterDensity::Standard } else { FooterDensity::Compact };
    let separators: u16 = if use_standard { 2 } else { 0 };
    let help_height = requested_help
        .min(area.height.saturating_sub(1 + separators))
        .max(1u16.min(area.height));
    let total_height = help_height.saturating_add(1).saturating_add(separators).min(area.height);
    let top = area.bottom().saturating_sub(total_height);
    let action_y = top.saturating_add(if use_standard { 1 } else { 0 });
    let help_y = action_y.saturating_add(if use_standard { 2 } else { 1 });
    FooterLayout {
        status_and_actions: Rect::new(area.x, action_y, area.width, 1),
        help: Rect::new(area.x, help_y, area.width, help_height.min(area.bottom().saturating_sub(help_y))),
        content_separator: if use_standard { Some(Rect::new(area.x, top, area.width, 1)) } else { None },
        help_separator: if use_standard { Some(Rect::new(area.x, help_y.saturating_sub(1), area.width, 1)) } else { None },
        density: actual_density,
    }
}

/// Sum of the display widths of the first `n` labels, as a `u16` sum.
pub open spec fn labels_width(labels: Seq<&str>, n: int) -> int
    decreases n,
{
    if n <= 0 { 0 } else { labels_width(labels, n - 1) + ((unicode_str_width(labels[n - 1]@) as u16) as int) }
}

/// Cells a row of action labels takes: the labels' widths plus `gap` between
/// neighbours, saturating at `u16::MAX`.
pub fn action_width(labels: &[&str], gap: u16) -> (r: u16)
    requires
        labels_width(labels@, labels@.len() as int) <= u16::MAX,
    ensures
        r == sat_add(labels_width(labels@, labels@.len() as int) as u16,
            if gap * (if labels@.len() == 0 { 0 } else { (labels@.len() - 1) as u16 as int }) > u16::MAX { u16::MAX }
            else { (gap * (if labels@.len() == 0 { 0 } else { (labels@.len() - 1) as u16 as int })) as u16 }),
{
    let mut total: u16 = 0;
    let mut i: usize = 0;
    while i < labels.len()
        invariant
            i <= labels@.len(),
            labels_width(labels@, labels@.len() as int) <= u16::MAX,
            total as int == labels_width(labels@, i as int),
        decreases labels@.len() - i,
    {
        proof { lemma_labels_width_mono(labels@, i as int + 1, labels@.len() as int); }
        let w = #[verifier::truncate] (str_width(labels[i]) as u16);
        total = total + w;
        i = i + 1;
    }
    let count = #[verifier::truncate] (labels.len().saturating_sub(1) as u16);
    let g = gap as u32;
    let c = count as u32;
    assert(g * c <= 0xFFFF * 0xFFFF) by (nonlinear_arith)
        requires g <= 0xFFFF, c <= 0xFFFF;
    let product = g * c;
    let spacing: u16 = if product > 0xFFFF { u16::MAX } else { product as u16 };
    total.saturating_add(spacing)
}

proof fn lemma_labels_width_mono(labels: Seq<&str>, i: int, j: int)
    requires
        0 <= i <= j,
    ensures
        labels_width(labels, i) <= labels_width(labels, j),
    decreases j - i,
{
    if i < j {
        lemma_labels_width_mono(labels, i, j - 1);
    }
}

} // verus!
