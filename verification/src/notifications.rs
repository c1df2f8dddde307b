//! Notification cards and the notification history popup: sizes and titles.
use vstd::prelude::*;
use crate::cells::{str_width, unicode_str_width, truncate_cells, is_cell_fit};
use crate::geometry::{Rect, sat_sub};
use crate::theme::{Color, Theme};
use crate::text::{owned, push_char, string_from, text_lines, lemma_first_newline};

verus! {

broadcast use vstd::string::group_string_axioms;

pub const MAX_CARDS: usize = 4;
pub const MIN_WIDTH: u16 = 24;
pub const MAX_WIDTH: u16 = 56;

/// Severity of a notification.
#[derive(Clone, Copy, Debug, PartialEq, Eq, Structural)]
pub enum NotificationLevel {
    Info,
    Success,
    Warning,
    Error,
}

/// The theme colour of a notification's level.
pub fn level_color(level: NotificationLevel, theme: &Theme) -> (c: Color)
    ensures
        c == match level {
            NotificationLevel::Info => theme.action,
            NotificationLevel::Success => theme.accent,
            NotificationLevel::Warning => theme.warning,
            NotificationLevel::Error => theme.error,
        },
{
    match level {
        NotificationLevel::Info => theme.action,
        NotificationLevel::Success => theme.accent,
        NotificationLevel::Warning => theme.warning,
        NotificationLevel::Error => theme.error,
    }
}

/// A notification as the cards and the history show it.
#[derive(Clone, Debug)]
pub struct Notification {
    pub id: u64,
    pub level: NotificationLevel,
    pub title: String,
    pub body: String,
}

/// A history title cut to `width` cells: unchanged when it fits, otherwise the
/// longest prefix that fits `width - 1` cells followed by `~` (empty for width 0).
pub open spec fn history_title(value: Seq<char>, width: int, out: Seq<char>) -> bool {
    if unicode_str_width(value) <= width {
        out == value
    } else if width == 0 {
        out.len() == 0
    } else {
        &&& out.len() >= 1
        &&& out.last() == '~'
        &&& out.drop_last() == value.take(out.len() - 1)
        &&& is_cell_fit(value, out.len() - 1, width - 1)
    }
}

/// Shortens a history title to `width` cells, marking a cut with `~`.
pub fn truncate_history_title(value: &str, width: usize) -> (out: String)
    ensures
        history_title(value@, width as int, out@),
{
    if str_width(value) <= width {
        return owned(value);
    }
    if width == 0 {
        return String::new();
    }
    let mut out = truncate_cells(value, width - 1);
    let ghost kept = out@;
    push_char(&mut out, '~');
    assert(out@.drop_last() =~= kept);
    out
}

/// Width wanted for one notification: its wider text plus eight cells of chrome.
pub open spec fn wanted_width(n: Notification) -> int {
    let t = unicode_str_width(n.title@);
    let b = unicode_str_width(n.body@);
    ((if t < b { b } else { t }) as u16) + 8
}

/// Widest wanted width among the first `k` entries (`MIN_WIDTH` when there are none).
pub open spec fn widest_wanted(entries: Seq<&Notification>, k: int) -> int
    decreases k,
{
    if k <= 0 {
        MIN_WIDTH as int
    } else if k == 1 {
        wanted_width(*entries[0])
    } else {
        let rest = widest_wanted(entries, k - 1);
        let w = wanted_width(*entries[k - 1]);
        if rest < w { w } else { rest }
    }
}

/// Card width: the widest wanted width, at most `MAX_WIDTH` and the viewport, at
/// least `MIN_WIDTH` where the viewport allows; zero for a zero-width viewport.
pub open spec fn card_width_of(viewport_width: u16, entries: Seq<&Notification>) -> u16 {
    if viewport_width == 0 {
        0
    } else {
        let wanted = widest_wanted(entries, entries.len() as int);
        let capped = if wanted < MAX_WIDTH { wanted } else { MAX_WIDTH as int };
        let fitted = if capped < viewport_width { capped } else { viewport_width as int };
        let floor = if MIN_WIDTH < viewport_width { MIN_WIDTH as int } else { viewport_width as int };
        (if fitted < floor { floor } else { fitted }) as u16
    }
}

/// Law: a card is never wider than the viewport or `MAX_WIDTH`, and at least
/// `MIN_WIDTH` wide where the viewport has room for it.
pub proof fn law_card_width_is_clamped(viewport_width: u16, entries: Seq<&Notification>)
    ensures
        card_width_of(viewport_width, entries) <= viewport_width,
        card_width_of(viewport_width, entries) <= MAX_WIDTH,
        card_width_of(viewport_width, entries) >= if MIN_WIDTH < viewport_width { MIN_WIDTH } else { viewport_width },
{
}

/// Width of the live cards, measuring the entries first: `None` when an
/// entry's wanted width (its widest text, kept to 16 bits, plus 8) would not fit
/// in 16 bits, which would overflow.
pub fn measured_card_width(viewport_width: u16, entries: &[&Notification]) -> (r: Option<u16>)
    ensures
        r is Some <==> forall|i: int| 0 <= i < entries@.len() ==> wanted_width(*#[trigger] entries@[i]) <= u16::MAX,
        r matches Some(w) ==> w == card_width_of(viewport_width, entries@),
{
    let mut i: usize = 0;
    while i < entries.len()
        invariant
            i <= entries@.len(),
            forall|k: int| 0 <= k < i ==> wanted_width(*#[trigger] entries@[k]) <= u16::MAX,
        decreases entries@.len() - i,
    {
        let n = entries[i];
        let t = str_width(n.title.as_str());
        let b = str_width(n.body.as_str());
        let wider = if t < b { b } else { t };
        let cut = #[verifier::truncate] (wider as u16);
        if cut > u16::MAX - 8 {
            assert(wanted_width(*entries@[i as int]) > u16::MAX);
            return None;
        }
        i = i + 1;
    }
    Some(card_width(viewport_width, entries))
}

/// Width of the live notification cards.
pub fn card_width(viewport_width: u16, entries: &[&Notification]) -> (r: u16)
    requires
        forall|i: int| 0 <= i < entries@.len() ==> wanted_width(*#[trigger] entries@[i]) <= u16::MAX,
    ensures
        r == card_width_of(viewport_width, entries@),
{
    if viewport_width == 0 {
        return 0;
    }
    let mut wanted: u16 = MIN_WIDTH;
    let mut i: usize = 0;
    while i < entries.len()
        invariant
            i <= entries@.len(),
            forall|k: int| 0 <= k < entries@.len() ==> wanted_width(*#[trigger] entries@[k]) <= u16::MAX,
            wanted as int == widest_wanted(entries@, i as int),
        decreases entries@.len() - i,
    {
        let n = entries[i];
        let t = str_width(n.title.as_str());
        let b = str_width(n.body.as_str());
        let wider = if t < b { b } else { t };
        assert(wanted_width(*entries@[i as int]) <= u16::MAX);
        let w = (#[verifier::truncate] (wider as u16)) + 8;
        if i == 0 || wanted < w {
            wanted = w;
        }
        i = i + 1;
    }
    wanted.min(MAX_WIDTH).min(viewport_width).max(MIN_WIDTH.min(viewport_width))
}

/// Rows a line of the given width takes when wrapped at `width` cells (at least one).
pub open spec fn rows_for(line_width: nat, width: nat) -> nat {
    let w = if line_width < 1 { 1 } else { line_width };
    ((w + width - 1) / width as int) as nat
}

/// Rows all lines take, each line wrapped on its own.
pub open spec fn total_rows(lines: Seq<Seq<char>>, width: nat) -> nat
    decreases lines.len(),
{
    if lines.len() == 0 { 0 } else { total_rows(lines.drop_last(), width) + rows_for(unicode_str_width(lines.last()), width) }
}

/// Number of rows `value` needs at `width` cells: each line's width rounded up to
/// whole rows (an empty line takes one row), at least one row in all; one row when
/// `width` is zero. The count saturates at `usize::MAX`.
pub open spec fn wrapped_rows(value: Seq<char>, width: nat) -> nat {
    if width == 0 {
        1
    } else {
        let total = total_rows(text_lines(value), width);
        let at_least_one = if total < 1 { 1 } else { total };
        if at_least_one > usize::MAX { usize::MAX as nat } else { at_least_one }
    }
}

/// How many rows `value` needs when every line wraps at `width` cells.
pub fn wrapped_line_count(value: &str, width: usize) -> (r: usize)
    ensures
        r == wrapped_rows(value@, width as nat),
{
    if width == 0 {
        return 1;
    }
    let chars = crate::text::chars_of(value);
    let ghost s = value@;
    let mut total: usize = 0;
    let mut start: usize = 0;
    let mut i: usize = 0;
    let ghost mut done: Seq<Seq<char>> = seq![];
    assert(s.skip(0) =~= s);
    assert(done + text_lines(s.skip(0)) =~= text_lines(s));
    while i < chars.len()
        invariant
            width > 0,
            chars@ == s,
            start <= i <= s.len(),
            forall|k: int| start <= k < i ==> s[k] != '\n',
            done + text_lines(s.skip(start as int)) == text_lines(s),
            total as nat == if total_rows(done, width as nat) > usize::MAX { usize::MAX as nat } else { total_rows(done, width as nat) },
        decreases s.len() - i,
    {
        if chars[i] == '\n' {
            let mut end = i;
            if end > start && chars[end - 1] == '\r' {
                end = end - 1;
            }
            let line = string_from(&chars.as_slice()[start..end]);
            let w = str_width(line.as_str());
            let rows = rows_of(w, width);
            proof {
                let rest = s.skip(start as int);
                assert forall|k: int| 0 <= k < i - start implies rest[k] != '\n' by {
                    assert(rest[k] == s[start + k]);
                }
                lemma_first_newline(rest, i - start);
                assert(rest.take(i - start) =~= s.subrange(start as int, i as int));
                assert(rest.skip(i - start + 1) =~= s.skip(i + 1));
                assert(line@ =~= text_lines(rest)[0]);
                assert(text_lines(rest) =~= seq![line@] + text_lines(s.skip(i + 1)));
                assert((done.push(line@)).drop_last() =~= done);
                assert(done.push(line@) + text_lines(s.skip(i + 1)) =~= done + text_lines(rest));
                done = done.push(line@);
            }
            total = total.saturating_add(rows);
            start = i + 1;
        }
        i = i + 1;
    }
    if start < chars.len() {
        let line = string_from(&chars.as_slice()[start..chars.len()]);
        let w = str_width(line.as_str());
        let rows = rows_of(w, width);
        proof {
            let rest = s.skip(start as int);
            assert forall|k: int| 0 <= k < rest.len() implies rest[k] != '\n' by {
                assert(rest[k] == s[start + k]);
            }
            lemma_first_newline(rest, rest.len() as int);
            assert(line@ =~= rest);
            assert(text_lines(rest) == seq![rest]);
            assert((done.push(line@)).drop_last() =~= done);
            assert(done.push(line@) =~= done + text_lines(rest));
            done = done.push(line@);
        }
        total = total.saturating_add(rows);
    } else {
        proof {
            assert(s.skip(start as int).len() == 0);
            assert(done =~= done + text_lines(s.skip(start as int)));
        }
    }
    if total < 1 { 1 } else { total }
}

/// `max(line_width, 1)` rounded up to whole rows of `width` cells.
fn rows_of(line_width: usize, width: usize) -> (r: usize)
    requires
        width > 0,
    ensures
        r == rows_for(line_width as nat, width as nat),
{
    let w = if line_width < 1 { 1 } else { line_width };
    let q = w / width;
    let m = w % width;
    assert(w == q * width + m && m < width) by (nonlinear_arith)
        requires q == w / width, m == w % width, width > 0;
    if m == 0 {
        assert(((w + width - 1) / (width as int)) == q) by (nonlinear_arith)
            requires w == q * width, width > 0;
        q
    } else {
        assert(q < usize::MAX) by (nonlinear_arith)
            requires w == q * width + m, 0 < m < width, w <= usize::MAX;
        assert(((w + width - 1) / (width as int)) == q + 1) by (nonlinear_arith)
            requires w == q * width + m, 0 < m < width;
        q + 1
    }
}

/// Height of a notification card showing `body` at `width` cells: the body's rows
/// plus four rows of chrome, between four and eight rows.
pub fn card_height(body: &str, width: u16) -> (r: u16)
    ensures
        ({
            let rows = wrapped_rows(body@, sat_sub(width, 2) as nat) + 4;
            r == if rows > 8 { 8 } else { rows }
        }),
{
    let content_width = width.saturating_sub(2) as usize;
    let body_lines = wrapped_line_count(body, content_width);
    if body_lines >= 4 { 8 } else { (body_lines + 4) as u16 }
}

/// Width of the history popup: two columns short of the area on narrow
/// terminals, otherwise four short of it and at most 100.
pub open spec fn history_width(area: Rect, narrow: bool) -> u16 {
    if narrow { sat_sub(area.width, 2) } else if 100 < sat_sub(area.width, 4) { 100 } else { sat_sub(area.width, 4) }
}

/// Height of the history popup: two rows short of the area, between 6 and 18.
pub open spec fn history_height(area: Rect) -> u16 {
    let shorter = if 18 < sat_sub(area.height, 2) { 18u16 } else { sat_sub(area.height, 2) };
    if shorter < 6 { 6 } else { shorter }
}

/// The history popup: nearly the full width on narrow terminals, otherwise at most
/// 100 columns; between 6 and 18 rows; centred in `area`.
pub fn centered_history(area: Rect, narrow: bool) -> (r: Rect)
    requires
        area.x + sat_sub(area.width, history_width(area, narrow)) / 2 <= u16::MAX,
        area.y + sat_sub(area.height, history_height(area)) / 2 <= u16::MAX,
    ensures
        r == Rect::spec_new((area.x + sat_sub(area.width, history_width(area, narrow)) / 2) as u16,
            (area.y + sat_sub(area.height, history_height(area)) / 2) as u16,
            history_width(area, narrow), history_height(area)),
{
    let width = if narrow { area.width.saturating_sub(2) } else { 100u16.min(area.width.saturating_sub(4)) };
    let height = 18u16.min(area.height.saturating_sub(2)).max(6);
    Rect::new(
        area.x + area.width.saturating_sub(width) / 2,
        area.y + area.height.saturating_sub(height) / 2,
        width,
        height,
    )
}

} // verus!
