//! Which workspace tabs fit in the tab bar, and cell-bounded tab titles.
use vstd::prelude::*;
use crate::cells::{cell_width, single_control, char_width, char_cells, ratatui_cell_width, is_cell_fit, fit_prefix};
use crate::geometry::{sat_sub};
use crate::text::{chars_of, owned, push_char};

verus! {

/// Columns the overflow arrows take when not every tab fits.
pub const TAB_OVERFLOW_CONTROLS_WIDTH: u16 = 2;

/// The range `start..end` of tabs shown, and whether some tabs are hidden.
#[derive(Clone, Copy, Debug, PartialEq, Eq, Structural)]
pub struct TabViewport {
    pub start: usize,
    pub end: usize,
    pub overflowed: bool,
}

/// Sum of `w[i..j]`.
pub open spec fn wsum(w: Seq<u16>, i: int, j: int) -> int
    decreases j - i,
{
    if j <= i {
        0
    } else {
        wsum(w, i, j - 1) + w[j - 1]
    }
}

pub proof fn lemma_wsum_front(w: Seq<u16>, i: int, j: int)
    requires
        i < j,
    ensures
        wsum(w, i, j) == w[i] + wsum(w, i + 1, j),
    decreases j - i,
{
    if i + 1 < j {
        lemma_wsum_front(w, i, j - 1);
        assert(wsum(w, i + 1, j) == wsum(w, i + 1, j - 1) + w[j - 1]);
    } else {
        assert(wsum(w, i, j) == wsum(w, i, i) + w[i]);
    }
}

pub proof fn lemma_wsum_nonneg(w: Seq<u16>, i: int, j: int)
    ensures
        wsum(w, i, j) >= 0,
    decreases j - i,
{
    if i < j {
        lemma_wsum_nonneg(w, i, j - 1);
    }
}

/// Sum of all widths, saturating at `u16::MAX`.
pub open spec fn saturated_total(w: Seq<u16>) -> int {
    let s = wsum(w, 0, w.len() as int);
    if s > u16::MAX { u16::MAX as int } else { s }
}

/// The tab the viewport is built around: `active`, clamped to the last tab.
pub open spec fn anchor(len: int, active: int) -> int {
    if active < len - 1 { active } else { len - 1 }
}

/// Width left for tabs once the overflow arrows are drawn.
pub open spec fn tab_space(area_width: u16) -> int {
    sat_sub(area_width, TAB_OVERFLOW_CONTROLS_WIDTH) as int
}

/// Cells the anchor tab takes: its width, but never more than the whole space.
pub open spec fn anchor_cells(w: Seq<u16>, a: int, space: int) -> int {
    if w[a] < space { w[a] as int } else { space }
}

/// The overflowing viewport: the anchor tab, then as many tabs to its right as fit,
/// then as many tabs to its left as still fit.
pub open spec fn greedy_viewport(w: Seq<u16>, active: int, area_width: u16, v: TabViewport) -> bool {
    let a = anchor(w.len() as int, active);
    let space = tab_space(area_width);
    let first = anchor_cells(w, a, space);
    let right = first + wsum(w, a + 1, v.end as int);
    &&& v.overflowed
    &&& v.start <= a < v.end <= w.len()
    &&& right <= space
    &&& (v.end == w.len() || right + w[v.end as int] > space)
    &&& right + wsum(w, v.start as int, a) <= space
    &&& (v.start == 0 || right + wsum(w, v.start - 1, a) > space)
}

/// The tabs shown: none without tabs, all of them when their widths fit
/// `area_width`, otherwise the greedy window around the active tab.
pub open spec fn chosen_viewport(w: Seq<u16>, active: int, area_width: u16, v: TabViewport) -> bool {
    &&& w.len() == 0 ==> v == (TabViewport { start: 0, end: 0, overflowed: false })
    &&& w.len() > 0 && saturated_total(w) <= area_width ==> v == (TabViewport { start: 0, end: w.len() as usize, overflowed: false })
    &&& w.len() > 0 && saturated_total(w) > area_width ==> greedy_viewport(w, active, area_width, v)
}

/// Law: the active tab is always among the tabs shown, and the ones shown are
/// a range of real tabs.
pub proof fn law_active_tab_is_shown(w: Seq<u16>, active: int, area_width: u16, v: TabViewport)
    requires
        0 <= active < w.len() <= usize::MAX,
        chosen_viewport(w, active, area_width, v),
    ensures
        v.start <= active < v.end <= w.len(),
{
}

/// Chooses the tabs to show: all of them when their widths fit `area_width`,
/// otherwise a window around the active tab that leaves room for the overflow arrows.
pub fn tab_viewport(widths: &[u16], active: usize, area_width: u16) -> (v: TabViewport)
    ensures
        chosen_viewport(widths@, active as int, area_width, v),
{
    let ghost w = widths@;
    if widths.len() == 0 {
        return TabViewport { start: 0, end: 0, overflowed: false };
    }
    let mut total: u16 = 0;
    let mut k: usize = 0;
    while k < widths.len()
        invariant
            k <= w.len(),
            w == widths@,
            total as int == if wsum(w, 0, k as int) > u16::MAX { u16::MAX as int } else { wsum(w, 0, k as int) },
        decreases w.len() - k,
    {
        proof { lemma_wsum_nonneg(w, 0, k as int); }
        total = total.saturating_add(widths[k]);
        k = k + 1;
    }
    if total <= area_width {
        return TabViewport { start: 0, end: widths.len(), overflowed: false };
    }
    let active = if active < widths.len() - 1 { active } else { widths.len() - 1 };
    let available = area_width.saturating_sub(TAB_OVERFLOW_CONTROLS_WIDTH);
    let mut start = active;
    let mut end = active + 1;
    let mut used = if widths[active] < available { widths[active] } else { available };
    let ghost first = used as int;
    while end < widths.len() && used.saturating_add(widths[end]) <= available
        invariant
            w == widths@,
            active < end <= w.len(),
            available as int == tab_space(area_width),
            available <= u16::MAX - 2,
            used as int == first + wsum(w, active + 1, end as int),
            used <= available,
        decreases w.len() - end,
    {
        used = used.saturating_add(widths[end]);
        end = end + 1;
    }
    let ghost right = used as int;
    while start > 0 && used.saturating_add(widths[start - 1]) <= available
        invariant
            w == widths@,
            start <= active,
            active < w.len(),
            available as int == tab_space(area_width),
            available <= u16::MAX - 2,
            used as int == right + wsum(w, start as int, active as int),
            used <= available,
        decreases start,
    {
        proof { lemma_wsum_front(w, start - 1, active as int); }
        start = start - 1;
        used = used.saturating_add(widths[start]);
    }
    proof {
        if start > 0 {
            lemma_wsum_front(w, start - 1, active as int);
        }
    }
    TabViewport { start, end, overflowed: true }
}

/// `value` when it fits `max_width` cells; otherwise its longest prefix that leaves
/// room for `…`, followed by `…` when `…` itself fits.
pub open spec fn cell_truncation(value: Seq<char>, max_width: u16, out: Seq<char>) -> bool {
    if ratatui_cell_width(value) <= max_width {
        out == value
    } else if max_width == 0 {
        out.len() == 0
    } else {
        let ell = char_cells('…') as int;
        let limit = if max_width < ell { 0 } else { max_width - ell };
        let keep = out.len() - (if max_width >= ell { 1int } else { 0int });
        &&& is_cell_fit(value, keep, limit)
        &&& out.take(keep) == value.take(keep)
        &&& (max_width >= ell ==> out == value.take(keep).push('…'))
        &&& (max_width < ell ==> out == value.take(keep))
    }
}

/// Shortens `value` to `max_width` cells without splitting a wide character,
/// marking a cut with `…`.
pub fn truncate_to_cell_width(value: &str, max_width: u16) -> (out: String)
    requires
        !single_control(value@),
    ensures
        cell_truncation(value@, max_width, out@),
{
    if cell_width(value) <= max_width {
        return owned(value);
    }
    if max_width == 0 {
        return String::new();
    }
    let ellipsis_width: u16 = match char_width('…') {
        Some(w) => w as u16,
        None => 1,
    };
    assert(('…' as u32) == 0x2026);
    assert(ellipsis_width as int == char_cells('…'));
    let limit = max_width.saturating_sub(ellipsis_width);
    let chars = chars_of(value);
    let (n, _) = fit_prefix(chars.as_slice(), limit as usize);
    let mut out = String::new();
    let mut i: usize = 0;
    while i < n
        invariant
            n <= chars@.len(),
            chars@ == value@,
            i <= n,
            out@ == chars@.take(i as int),
        decreases n - i,
    {
        push_char(&mut out, chars[i]);
        i = i + 1;
        assert(out@ =~= chars@.take(i as int));
    }
    let ghost kept = out@;
    if max_width >= ellipsis_width {
        push_char(&mut out, '…');
        assert(out@.take(n as int) =~= value@.take(n as int));
        assert(out@ == kept.push('…'));
    }
    assert(out@.len() - (if max_width >= ellipsis_width { 1int } else { 0int }) == n);
    assert(is_cell_fit(value@, n as int, limit as int));
    let ghost ell = char_cells('…') as int;
    let ghost lim = if max_width < ell { 0 } else { max_width - ell };
    assert(lim == limit);
    assert(!(ratatui_cell_width(value@) <= max_width));
    assert(out@.take(n as int) == value@.take(n as int));
    assert(max_width >= ell ==> out@ == value@.take(n as int).push('…'));
    assert(max_width < ell ==> out@ == value@.take(n as int));
    out
}

} // verus!
