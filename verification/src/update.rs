//! The update center dialog: which buttons it offers and what they say, the
//! shortcut hints under them, and how its text wraps.
use vstd::prelude::*;
use crate::cells::{char_cells, cells_of_char, str_width, unicode_str_width};
use crate::text::{chars_of, string_from};
use crate::shortcut_hints::{ShortcutHint, KeyPress};

verus! {

broadcast use vstd::string::group_string_axioms;

/// Whether `c` has the Unicode `White_Space` property (what `char::is_whitespace`
/// and the `trim` functions of `str` test).
pub open spec fn is_white_space(c: char) -> bool {
    let v = c as u32;
    ||| 0x09 <= v <= 0x0D
    ||| v == 0x20
    ||| v == 0x85
    ||| v == 0xA0
    ||| v == 0x1680
    ||| 0x2000 <= v <= 0x200A
    ||| v == 0x2028
    ||| v == 0x2029
    ||| v == 0x202F
    ||| v == 0x205F
    ||| v == 0x3000
}

fn white_space(c: char) -> (r: bool)
    ensures
        r == is_white_space(c),
{
    let v = c as u32;
    (0x09 <= v && v <= 0x0D) || v == 0x20 || v == 0x85 || v == 0xA0 || v == 0x1680
        || (0x2000 <= v && v <= 0x200A) || v == 0x2028 || v == 0x2029 || v == 0x202F
        || v == 0x205F || v == 0x3000
}

/// Number of white-space characters that start `s`.
pub open spec fn leading_white(s: Seq<char>) -> nat
    decreases s.len(),
{
    if s.len() > 0 && is_white_space(s[0]) { 1 + leading_white(s.drop_first()) } else { 0 }
}

/// `s` without its leading white space (`str::trim_start`).
pub open spec fn trim_start(s: Seq<char>) -> Seq<char> {
    s.skip(leading_white(s) as int)
}

/// Length of `s` once its trailing white space is removed.
pub open spec fn kept_before_white(s: Seq<char>) -> nat
    decreases s.len(),
{
    if s.len() > 0 && is_white_space(s.last()) { kept_before_white(s.drop_last()) } else { s.len() }
}

/// `s` without its trailing white space (`str::trim_end`).
pub open spec fn trim_end(s: Seq<char>) -> Seq<char> {
    s.take(kept_before_white(s) as int)
}

/// Index of the last space in `s`, if any.
pub open spec fn last_space(s: Seq<char>) -> Option<int>
    decreases s.len(),
{
    if s.len() == 0 {
        None
    } else if s.last() == ' ' {
        Some(s.len() - 1)
    } else {
        last_space(s.drop_last())
    }
}

proof fn lemma_last_space(s: Seq<char>)
    ensures
        last_space(s) matches Some(i) ==> 0 <= i < s.len() && s[i] == ' ',
    decreases s.len(),
{
    if s.len() > 0 && s.last() != ' ' {
        lemma_last_space(s.drop_last());
    }
}

pub(crate) proof fn lemma_leading_white_bound(s: Seq<char>)
    ensures
        leading_white(s) <= s.len(),
    decreases s.len(),
{
    if s.len() > 0 && is_white_space(s[0]) {
        lemma_leading_white_bound(s.drop_first());
    }
}

pub(crate) proof fn lemma_kept_bound(s: Seq<char>)
    ensures
        kept_before_white(s) <= s.len(),
    decreases s.len(),
{
    if s.len() > 0 && is_white_space(s.last()) {
        lemma_kept_bound(s.drop_last());
    }
}

/// Lines so far, the line being filled, its width, and where its last space is.
pub type WrapState = (Seq<Seq<char>>, Seq<char>, int, Option<int>);

/// Adds one character. When it would overflow the line, the line breaks at its
/// last space (the rest, without leading blanks, starts the next line) or, with no
/// space, right before the character.
pub open spec fn wrap_step(st: WrapState, c: char, width: int) -> WrapState {
    let (lines, current, used, space) = st;
    let w = char_cells(c) as int;
    let (lines, current, used, space) = if used + w > width {
        match space {
            Some(i) => {
                let rest = trim_start(current.skip(i));
                (lines.push(trim_end(current.take(i))), rest, unicode_str_width(rest) as int, last_space(rest))
            },
            None => (lines.push(current), Seq::<char>::empty(), 0int, None::<int>),
        }
    } else {
        (lines, current, used, space)
    };
    let space = if c == ' ' { Some(current.len() as int) } else { space };
    (lines, current.push(c), used + w, space)
}

/// The state after the characters of `s`.
pub open spec fn wrap_walk(s: Seq<char>, width: int) -> WrapState
    decreases s.len(),
{
    if s.len() == 0 {
        (Seq::<Seq<char>>::empty(), Seq::<char>::empty(), 0int, None::<int>)
    } else {
        wrap_step(wrap_walk(s.drop_last(), width), s.last(), width)
    }
}

/// `text` wrapped at word boundaries to `width` cells (at least one); a word
/// longer than a line is split. The last line loses its trailing blanks.
pub open spec fn wrapped_text(text: Seq<char>, width: int) -> Seq<Seq<char>> {
    let (lines, current, _, _) = wrap_walk(text, if width < 1 { 1 } else { width });
    lines.push(trim_end(current))
}

/// The characters of `s` that are not white space, in order.
pub open spec fn visible_chars(s: Seq<char>) -> Seq<char>
    decreases s.len(),
{
    if s.len() == 0 { seq![] } else if is_white_space(s.last()) { visible_chars(s.drop_last()) } else { visible_chars(s.drop_last()).push(s.last()) }
}

/// The lines, one after another.
pub open spec fn joined_lines(lines: Seq<Seq<char>>) -> Seq<char>
    decreases lines.len(),
{
    if lines.len() == 0 { seq![] } else { joined_lines(lines.drop_last()) + lines.last() }
}

proof fn lemma_visible_concat(a: Seq<char>, b: Seq<char>)
    ensures
        visible_chars(a + b) == visible_chars(a) + visible_chars(b),
    decreases b.len(),
{
    if b.len() == 0 {
        assert(a + b =~= a);
    } else {
        lemma_visible_concat(a, b.drop_last());
        assert((a + b).drop_last() =~= a + b.drop_last());
        assert((a + b).last() == b.last());
    }
}

proof fn lemma_visible_all_white(s: Seq<char>)
    requires
        forall|i: int| 0 <= i < s.len() ==> is_white_space(#[trigger] s[i]),
    ensures
        visible_chars(s) == Seq::<char>::empty(),
    decreases s.len(),
{
    if s.len() > 0 {
        lemma_visible_all_white(s.drop_last());
    }
}

proof fn lemma_leading_white_is_white(s: Seq<char>, i: int)
    requires
        0 <= i < leading_white(s),
    ensures
        is_white_space(s[i]),
    decreases s.len(),
{
    lemma_leading_white_bound(s);
    assert(s.len() > 0 && is_white_space(s[0]));
    if i > 0 {
        lemma_leading_white_is_white(s.drop_first(), i - 1);
        assert(s.drop_first()[i - 1] == s[i]);
    }
}

proof fn lemma_trailing_white_is_white(s: Seq<char>, i: int)
    requires
        kept_before_white(s) <= i < s.len(),
    ensures
        is_white_space(s[i]),
    decreases s.len(),
{
    if i < s.len() - 1 {
        lemma_trailing_white_is_white(s.drop_last(), i);
    }
}

proof fn lemma_visible_trims(s: Seq<char>)
    ensures
        visible_chars(trim_start(s)) == visible_chars(s),
        visible_chars(trim_end(s)) == visible_chars(s),
{
    let k = leading_white(s) as int;
    lemma_leading_white_bound(s);
    assert(s =~= s.take(k) + s.skip(k));
    assert forall|i: int| 0 <= i < s.take(k).len() implies is_white_space(#[trigger] s.take(k)[i]) by {
        lemma_leading_white_is_white(s, i);
    }
    lemma_visible_all_white(s.take(k));
    lemma_visible_concat(s.take(k), s.skip(k));
    assert(visible_chars(s.take(k)) + visible_chars(s.skip(k)) =~= visible_chars(s.skip(k)));
    let m = kept_before_white(s) as int;
    lemma_kept_bound(s);
    assert(s =~= s.take(m) + s.skip(m));
    assert forall|i: int| 0 <= i < s.skip(m).len() implies is_white_space(#[trigger] s.skip(m)[i]) by {
        lemma_trailing_white_is_white(s, m + i);
    }
    lemma_visible_all_white(s.skip(m));
    lemma_visible_concat(s.take(m), s.skip(m));
    assert(visible_chars(s.take(m)) + visible_chars(s.skip(m)) =~= visible_chars(s.take(m)));
}

proof fn lemma_wrap_walk_keeps(s: Seq<char>, width: int)
    ensures
        ({
            let (lines, current, _, space) = wrap_walk(s, width);
            &&& visible_chars(joined_lines(lines) + current) == visible_chars(s)
            &&& space matches Some(i) ==> 0 <= i <= current.len()
        }),
    decreases s.len(),
{
    if s.len() > 0 {
        lemma_wrap_walk_keeps(s.drop_last(), width);
        let (lines, current, used, space) = wrap_walk(s.drop_last(), width);
        let c = s.last();
        let w = char_cells(c) as int;
        let (lines1, current1, used1, space1) = if used + w > width {
            match space {
                Some(i) => {
                    let rest = trim_start(current.skip(i));
                    (lines.push(trim_end(current.take(i))), rest, unicode_str_width(rest) as int, last_space(rest))
                },
                None => (lines.push(current), Seq::<char>::empty(), 0int, None::<int>),
            }
        } else {
            (lines, current, used, space)
        };
        lemma_visible_concat(joined_lines(lines), current);
        if used + w > width {
            assert(lines1.drop_last() =~= lines);
            match space {
                Some(i) => {
                    assert(current =~= current.take(i) + current.skip(i));
                    lemma_visible_concat(current.take(i), current.skip(i));
                    lemma_visible_trims(current.take(i));
                    lemma_visible_trims(current.skip(i));
                    lemma_last_space(current1);
                    lemma_visible_concat(joined_lines(lines), trim_end(current.take(i)));
                    lemma_visible_concat(joined_lines(lines1), current1);
                },
                None => {
                    lemma_visible_concat(joined_lines(lines1), current1);
                    assert(joined_lines(lines1) + current1 =~= joined_lines(lines) + current);
                },
            }
        }
        lemma_visible_concat(joined_lines(lines1), current1);
        lemma_visible_concat(joined_lines(lines1), current1.push(c));
        assert(current1.push(c) =~= current1 + seq![c]);
        lemma_visible_concat(current1, seq![c]);
        assert(seq![c].drop_last() =~= Seq::<char>::empty());
        assert(visible_chars(Seq::<char>::empty()) == Seq::<char>::empty());
        assert(visible_chars(seq![c]) == if is_white_space(c) { Seq::<char>::empty() } else { seq![c] });
        assert(visible_chars(joined_lines(lines1) + current1) == visible_chars(s.drop_last()));
        assert(visible_chars(s) == if is_white_space(c) { visible_chars(s.drop_last()) } else { visible_chars(s.drop_last()).push(c) });
        assert(visible_chars(joined_lines(lines1) + current1.push(c))
            == visible_chars(joined_lines(lines1)) + visible_chars(current1) + visible_chars(seq![c]));
        assert(visible_chars(joined_lines(lines1) + current1.push(c)) =~= visible_chars(s));
        let space2 = if c == ' ' { Some(current1.len() as int) } else { space1 };
        assert(wrap_walk(s, width) == (lines1, current1.push(c), used1 + w, space2));
    } else {
        assert(joined_lines(Seq::<Seq<char>>::empty()) + Seq::<char>::empty() =~= Seq::<char>::empty());
    }
}

/// Law: wrapping drops nothing but white space: the lines' characters other
/// than white space are the text's, in order.
pub proof fn law_wrapping_drops_only_white_space(text: Seq<char>, width: int)
    ensures
        visible_chars(joined_lines(wrapped_text(text, width))) == visible_chars(text),
{
    let w = if width < 1 { 1 } else { width };
    lemma_wrap_walk_keeps(text, w);
    let (lines, current, _, _) = wrap_walk(text, w);
    let all = lines.push(trim_end(current));
    assert(all.drop_last() =~= lines);
    lemma_visible_concat(joined_lines(lines), trim_end(current));
    lemma_visible_concat(joined_lines(lines), current);
    lemma_visible_trims(current);
}

pub(crate) fn sub_chars(v: &Vec<char>, from: usize, to: usize) -> (out: Vec<char>)
    requires
        from <= to <= v@.len(),
    ensures
        out@ == v@.subrange(from as int, to as int),
{
    let mut out: Vec<char> = Vec::new();
    let mut i: usize = from;
    while i < to
        invariant
            from <= i <= to <= v@.len(),
            out@ == v@.subrange(from as int, i as int),
        decreases to - i,
    {
        out.push(v[i]);
        i = i + 1;
        assert(out@ =~= v@.subrange(from as int, i as int));
    }
    out
}

pub(crate) fn count_leading_white(v: &Vec<char>) -> (k: usize)
    ensures
        k == leading_white(v@),
{
    let mut k: usize = 0;
    assert(v@.skip(0) =~= v@);
    while k < v.len() && white_space(v[k])
        invariant
            k <= v@.len(),
            leading_white(v@) == k + leading_white(v@.skip(k as int)),
        decreases v@.len() - k,
    {
        assert(v@.skip(k as int).drop_first() =~= v@.skip(k as int + 1));
        k = k + 1;
    }
    k
}

pub(crate) fn kept_length(v: &Vec<char>) -> (k: usize)
    ensures
        k == kept_before_white(v@),
{
    let mut k: usize = v.len();
    assert(v@.take(k as int) =~= v@);
    while k > 0 && white_space(v[k - 1])
        invariant
            k <= v@.len(),
            kept_before_white(v@) == kept_before_white(v@.take(k as int)),
        decreases k,
    {
        assert(v@.take(k as int).drop_last() =~= v@.take(k as int - 1));
        k = k - 1;
    }
    k
}

fn find_last_space(v: &Vec<char>) -> (r: Option<usize>)
    ensures
        r matches Some(i) ==> last_space(v@) == Some(i as int),
        r is None ==> last_space(v@) is None,
{
    let mut k: usize = v.len();
    assert(v@.take(k as int) =~= v@);
    while k > 0
        invariant
            k <= v@.len(),
            last_space(v@) == last_space(v@.take(k as int)),
        decreases k,
    {
        assert(v@.take(k as int).drop_last() =~= v@.take(k as int - 1));
        if v[k - 1] == ' ' {
            return Some(k - 1);
        }
        k = k - 1;
    }
    None
}

/// Wraps `text` to `width` cells, breaking at spaces where it can.
pub fn wrap_text(text: &str, width: usize) -> (out: Vec<String>)
    ensures
        out@.len() == wrapped_text(text@, width as int).len(),
        forall|i: int| 0 <= i < out@.len() ==> (#[trigger] out@[i])@ == wrapped_text(text@, width as int)[i],
{
    let width: usize = if width < 1 { 1 } else { width };
    let chars = chars_of(text);
    let mut lines: Vec<String> = Vec::new();
    let mut current: Vec<char> = Vec::new();
    let mut used: u128 = 0;
    let mut space: Option<usize> = None;
    let mut i: usize = 0;
    while i < chars.len()
        invariant
            chars@ == text@,
            1 <= width,
            i <= chars@.len(),
            used <= usize::MAX + 3 * i,
            space matches Some(k) ==> k < current@.len(),
            ({
                let (ls, cur, u, sp) = wrap_walk(text@.take(i as int), width as int);
                &&& ls.len() == lines@.len()
                &&& (forall|j: int| 0 <= j < lines@.len() ==> (#[trigger] lines@[j])@ == ls[j])
                &&& cur == current@
                &&& u == used
                &&& sp == (match space { Some(k) => Some(k as int), None => None::<int> })
            }),
        decreases chars@.len() - i,
    {
        let c = chars[i];
        let w = cells_of_char(c) as u128;
        assert(text@.take(i as int + 1).drop_last() =~= text@.take(i as int));
        assert(text@.take(i as int + 1).last() == c);
        if used + w > width as u128 {
            match space {
                Some(index) => {
                    let tail = sub_chars(&current, index, current.len());
                    let skip = count_leading_white(&tail);
                    proof { lemma_leading_white_bound(tail@); }
                    let rest = sub_chars(&tail, skip, tail.len());
                    assert(rest@ =~= trim_start(current@.skip(index as int)));
                    let head = sub_chars(&current, 0, index);
                    let keep = kept_length(&head);
                    proof { lemma_kept_bound(head@); }
                    let kept = sub_chars(&head, 0, keep);
                    assert(head@ =~= current@.take(index as int));
                    assert(kept@ =~= trim_end(current@.take(index as int)));
                    lines.push(string_from(kept.as_slice()));
                    let rest_text = string_from(rest.as_slice());
                    used = str_width(rest_text.as_str()) as u128;
                    space = find_last_space(&rest);
                    proof { lemma_last_space(rest@); }
                    current = rest;
                },
                None => {
                    lines.push(string_from(current.as_slice()));
                    current = Vec::new();
                    used = 0;
                },
            }
        }
        if c == ' ' {
            space = Some(current.len());
        }
        current.push(c);
        used = used + w;
        i = i + 1;
    }
    assert(text@.take(i as int) =~= text@);
    let keep = kept_length(&current);
    proof { lemma_kept_bound(current@); }
    let kept = sub_chars(&current, 0, keep);
    assert(kept@ =~= trim_end(current@));
    lines.push(string_from(kept.as_slice()));
    lines
}

/// Widest the dialog gets without, and with, the update instructions shown.
pub const NARROW_WIDTH: u16 = 64;
pub const WIDE_WIDTH: u16 = 76;
/// Columns kept free on each side of the dialog text.
pub const HORIZONTAL_PADDING: u16 = 2;

/// What a button of the update dialog does.
#[derive(Clone, Copy, Debug, PartialEq, Eq, Structural)]
pub enum UpdateDialogAction {
    Check,
    Install,
    ShowInstructions,
    CopyCommand,
    Restart,
    Close,
}

/// Where the update check or installation stands.
#[derive(Clone, Copy, Debug, PartialEq, Eq, Structural)]
pub enum UpdateStateKind {
    Idle,
    Checking,
    UpToDate,
    Available,
    Installing,
    ReadyToRestart,
    ManagerActionRequired,
    Failed,
}

/// Widest the dialog may be.
pub fn max_width(instructions: bool) -> (r: u16)
    ensures
        r == if instructions { WIDE_WIDTH } else { NARROW_WIDTH },
{
    if instructions { WIDE_WIDTH } else { NARROW_WIDTH }
}

/// The caption of `action`'s button in state `kind` when the dialog offers
/// `count` buttons. Closing reads "Not now" beside other choices; alone it reads
/// after the state.
pub open spec fn action_caption(action: UpdateDialogAction, kind: UpdateStateKind, count: int) -> Seq<char> {
    match action {
        UpdateDialogAction::Check => if kind == UpdateStateKind::Failed { "Check again"@ } else { "Check now"@ },
        UpdateDialogAction::Install => "Update"@,
        UpdateDialogAction::ShowInstructions => "How to update"@,
        UpdateDialogAction::CopyCommand => "Copy update command"@,
        UpdateDialogAction::Restart => "Restart now"@,
        UpdateDialogAction::Close => if count > 1 {
            "Not now"@
        } else {
            match kind {
                UpdateStateKind::Installing => "Run in background"@,
                UpdateStateKind::Checking => "Close"@,
                _ => "OK"@,
            }
        },
    }
}

/// The caption of a button.
pub fn action_label(action: UpdateDialogAction, kind: UpdateStateKind, count: usize) -> (r: &'static str)
    ensures
        r@ == action_caption(action, kind, count as int),
{
    match action {
        UpdateDialogAction::Check => match kind {
            UpdateStateKind::Failed => "Check again",
            _ => "Check now",
        },
        UpdateDialogAction::Install => "Update",
        UpdateDialogAction::ShowInstructions => "How to update",
        UpdateDialogAction::CopyCommand => "Copy update command",
        UpdateDialogAction::Restart => "Restart now",
        UpdateDialogAction::Close => {
            if count > 1 {
                "Not now"
            } else {
                match kind {
                    UpdateStateKind::UpToDate => "OK",
                    UpdateStateKind::Installing => "Run in background",
                    UpdateStateKind::Checking => "Close",
                    _ => "OK",
                }
            }
        },
    }
}

/// Cells the first `n` buttons take: each label (its width as a `u16`) with six
/// cells of frame and padding.
pub open spec fn buttons_cells(labels: Seq<&str>, n: int) -> int
    decreases n,
{
    if n <= 0 { 0 } else { buttons_cells(labels, n - 1) + (unicode_str_width(labels[n - 1]@) as u16) + 6 }
}

proof fn lemma_buttons_cells_grow(labels: Seq<&str>, i: int, j: int)
    requires
        0 <= i <= j,
    ensures
        buttons_cells(labels, i) + 6 * (j - i) <= buttons_cells(labels, j),
    decreases j - i,
{
    if i < j {
        lemma_buttons_cells_grow(labels, i, j - 1);
    }
}

/// Rows the buttons need, measuring their captions first: `None` when the
/// buttons' cells would not fit in 16 bits.
pub fn measured_actions_height(labels: &[&str], width: u16) -> (r: Option<u16>)
    ensures
        r is Some <==> buttons_cells(labels@, labels@.len() as int) <= u16::MAX,
        r matches Some(h) ==> (labels@.len() == 0 ==> h == 0) && (labels@.len() > 0 ==> {
            let spaced = buttons_cells(labels@, labels@.len() as int) + 2 * (labels@.len() - 1);
            let total = if spaced > u16::MAX { u16::MAX as int } else { spaced };
            h == if total > width { labels@.len() } else { 1 }
        }),
{
    let mut total: u64 = 0;
    let mut i: usize = 0;
    while i < labels.len()
        invariant
            i <= labels@.len(),
            total as int == buttons_cells(labels@, i as int),
            total <= u16::MAX,
        decreases labels@.len() - i,
    {
        let w = #[verifier::truncate] (str_width(labels[i]) as u16);
        let next = total + w as u64 + 6;
        if next > u16::MAX as u64 {
            proof { lemma_buttons_cells_grow(labels@, i as int + 1, labels@.len() as int); }
            return None;
        }
        total = next;
        i = i + 1;
    }
    Some(actions_height(labels, width))
}

/// Rows the buttons need at `width`: one when they fit side by side with two
/// cells between them, one each otherwise, none without buttons.
pub fn actions_height(labels: &[&str], width: u16) -> (r: u16)
    requires
        buttons_cells(labels@, labels@.len() as int) <= u16::MAX,
    ensures
        labels@.len() == 0 ==> r == 0,
        labels@.len() > 0 ==> {
            let spaced = buttons_cells(labels@, labels@.len() as int) + 2 * (labels@.len() - 1);
            let total = if spaced > u16::MAX { u16::MAX as int } else { spaced };
            r == if total > width { labels@.len() } else { 1 }
        },
{
    if labels.len() == 0 {
        return 0;
    }
    proof { lemma_buttons_cells_grow(labels@, 0, labels@.len() as int); }
    let mut total: u16 = 0;
    let mut i: usize = 0;
    while i < labels.len()
        invariant
            i <= labels@.len(),
            buttons_cells(labels@, labels@.len() as int) <= u16::MAX,
            total as int == buttons_cells(labels@, i as int),
        decreases labels@.len() - i,
    {
        proof { lemma_buttons_cells_grow(labels@, i as int + 1, labels@.len() as int); }
        let w = #[verifier::truncate] (str_width(labels[i]) as u16);
        total = total + w + 6;
        i = i + 1;
    }
    let count = labels.len() as u16;
    let total = total.saturating_add(2 * (count - 1));
    if total > width { count } else { 1 }
}

/// The dialog's footer hints: selecting the next button when there are several,
/// confirming, checking again when that is possible, and closing.
pub open spec fn update_hints(action_count: int, can_check_again: bool) -> Seq<(Seq<char>, Seq<char>, KeyPress)> {
    let select = if action_count > 1 { seq![("Tab"@, "select next"@, KeyPress::Tab)] } else { seq![] };
    let again = if can_check_again { seq![("r"@, "check again"@, KeyPress::Char('r'))] } else { seq![] };
    select + seq![("Enter"@, "confirm"@, KeyPress::Enter)] + again + seq![("Esc"@, "close"@, KeyPress::Esc)]
}

fn push_hint(out: &mut Vec<ShortcutHint<KeyPress>>, key: &str, description: &str, press: KeyPress)
    ensures
        final(out)@.len() == old(out)@.len() + 1,
        forall|i: int| 0 <= i < old(out)@.len() ==> final(out)@[i] == old(out)@[i],
        final(out)@.last().key@ == key@,
        final(out)@.last().description@ == description@,
        final(out)@.last().activation == Some(press),
{
    out.push(ShortcutHint::with_keys(key, description, press));
}

/// The hints under the update dialog's buttons.
pub fn hints(action_count: usize, can_check_again: bool) -> (out: Vec<ShortcutHint<KeyPress>>)
    ensures
        out@.len() == update_hints(action_count as int, can_check_again).len(),
        forall|i: int| 0 <= i < out@.len() ==> {
            let (key, description, press) = #[trigger] update_hints(action_count as int, can_check_again)[i];
            &&& out@[i].key@ == key
            &&& out@[i].description@ == description
            &&& out@[i].activation == Some(press)
        },
{
    let ghost want = update_hints(action_count as int, can_check_again);
    let mut out: Vec<ShortcutHint<KeyPress>> = Vec::new();
    if action_count > 1 {
        push_hint(&mut out, "Tab", "select next", KeyPress::Tab);
    }
    push_hint(&mut out, "Enter", "confirm", KeyPress::Enter);
    if can_check_again {
        push_hint(&mut out, "r", "check again", KeyPress::Char('r'));
    }
    push_hint(&mut out, "Esc", "close", KeyPress::Esc);
    assert(out@.len() == want.len());
    out
}

/// What the update check found about the installation.
#[derive(Clone, Debug)]
pub struct UpdateInspection {
    pub running_version: String,
    pub target_version: Option<String>,
    pub installed_version: Option<String>,
    /// The release channel's name.
    pub channel: String,
    /// The installation manager's name.
    pub manager: String,
    /// Whether the native installer manages the installation.
    pub native: bool,
    /// What the installation says to do to update, if anything.
    pub action: Option<String>,
}

/// Where the update check or installation stands, with what it found.
#[derive(Clone, Debug)]
pub enum UpdateState {
    Idle,
    Checking,
    UpToDate(UpdateInspection),
    Available(UpdateInspection),
    Installing(UpdateInspection),
    ReadyToRestart(UpdateInspection),
    ManagerActionRequired(UpdateInspection),
    /// The failure, already free of terminal control sequences.
    Failed(String),
}

/// How the status line is coloured.
#[derive(Clone, Copy, Debug, PartialEq, Eq, Structural)]
pub enum StatusTone {
    Text,
    Action,
    Success,
    Error,
}

/// The text of the update dialog.
#[derive(Clone, Debug)]
pub struct UpdateView {
    pub max_width: u16,
    pub status: String,
    pub tone: StatusTone,
    pub details: Vec<String>,
    pub instruction: Option<String>,
    pub command: Option<String>,
    pub has_progress: bool,
    /// The state's buttons, each with its caption.
    pub actions: Vec<(UpdateDialogAction, &'static str)>,
}

/// The kind of a state.
pub open spec fn state_kind(s: UpdateState) -> UpdateStateKind {
    match s {
        UpdateState::Idle => UpdateStateKind::Idle,
        UpdateState::Checking => UpdateStateKind::Checking,
        UpdateState::UpToDate(_) => UpdateStateKind::UpToDate,
        UpdateState::Available(_) => UpdateStateKind::Available,
        UpdateState::Installing(_) => UpdateStateKind::Installing,
        UpdateState::ReadyToRestart(_) => UpdateStateKind::ReadyToRestart,
        UpdateState::ManagerActionRequired(_) => UpdateStateKind::ManagerActionRequired,
        UpdateState::Failed(_) => UpdateStateKind::Failed,
    }
}

/// The kind of a state.
pub fn kind_of(state: &UpdateState) -> (k: UpdateStateKind)
    ensures
        k == state_kind(*state),
{
    match state {
        UpdateState::Idle => UpdateStateKind::Idle,
        UpdateState::Checking => UpdateStateKind::Checking,
        UpdateState::UpToDate(_) => UpdateStateKind::UpToDate,
        UpdateState::Available(_) => UpdateStateKind::Available,
        UpdateState::Installing(_) => UpdateStateKind::Installing,
        UpdateState::ReadyToRestart(_) => UpdateStateKind::ReadyToRestart,
        UpdateState::ManagerActionRequired(_) => UpdateStateKind::ManagerActionRequired,
        UpdateState::Failed(_) => UpdateStateKind::Failed,
    }
}

/// The buttons, in order, each with its caption in state `kind`.
pub fn labelled_actions(actions: &[UpdateDialogAction], kind: UpdateStateKind) -> (out: Vec<(UpdateDialogAction, &'static str)>)
    ensures
        out@.len() == actions@.len(),
        forall|k: int| 0 <= k < actions@.len() ==> (#[trigger] out@[k]).0 == actions@[k]
            && out@[k].1@ == action_caption(actions@[k], kind, actions@.len() as int),
{
    let mut out: Vec<(UpdateDialogAction, &'static str)> = Vec::new();
    let mut i: usize = 0;
    while i < actions.len()
        invariant
            i <= actions@.len(),
            out@.len() == i,
            forall|k: int| 0 <= k < i ==> (#[trigger] out@[k]).0 == actions@[k]
                && out@[k].1@ == action_caption(actions@[k], kind, actions@.len() as int),
        decreases actions@.len() - i,
    {
        out.push((actions[i], action_label(actions[i], kind, actions.len())));
        i = i + 1;
    }
    out
}

pub open spec fn opt_or(v: Option<String>, fallback: Seq<char>) -> Seq<char> {
    match v {
        Some(s) => s@,
        None => fallback,
    }
}

/// The running version is behind the channel's latest.
pub open spec fn is_ahead(i: UpdateInspection) -> bool {
    match i.target_version {
        Some(t) => t@ != i.running_version@,
        None => false,
    }
}

/// Status line, its tone and the detail lines for a state.
pub open spec fn view_text(state: UpdateState) -> (Seq<char>, StatusTone, Seq<Seq<char>>) {
    match state {
        UpdateState::Idle => ("Ready to check for updates"@, StatusTone::Text, seq!["No update check has run yet."@]),
        UpdateState::Checking => ("Checking for updates…"@, StatusTone::Action, seq!["This only takes a moment."@]),
        UpdateState::UpToDate(i) => (
            if is_ahead(i) { "✓ No update needed"@ } else { "✓ You're up to date"@ },
            StatusTone::Success,
            if is_ahead(i) {
                seq!["Current "@ + i.running_version@ + " · "@ + i.channel@, "Channel latest "@ + i.target_version->0@]
            } else {
                seq!["Current "@ + i.running_version@ + " · "@ + i.channel@]
            },
        ),
        UpdateState::Available(i) => ("↑ Update available"@, StatusTone::Action,
            seq!["Current "@ + i.running_version@ + " → Latest "@ + opt_or(i.target_version, "unknown"@) + " · "@ + i.channel@]),
        UpdateState::Installing(i) => ("Updating LazyDB"@, StatusTone::Action,
            seq!["Installing "@ + opt_or(i.target_version, "the update"@) + " · "@ + i.channel@, "You can keep working while this runs."@]),
        UpdateState::ReadyToRestart(i) => ("✓ Update installed"@, StatusTone::Success,
            seq!["Restart to use "@ + opt_or(i.installed_version, "the new version"@)]),
        UpdateState::ManagerActionRequired(i) => ("↑ Update available"@, StatusTone::Action,
            seq!["Latest "@ + opt_or(i.target_version, "unknown"@) + " · "@ + i.manager@]),
        UpdateState::Failed(message) => ("× Update failed"@, StatusTone::Error, seq![message@]),
    }
}

/// Whether the instructions of the installation's manager are shown: when asked
/// for, and the update is up to a manager other than the native installer.
pub open spec fn shows_instructions(state: UpdateState, instructions: bool) -> bool {
    instructions && match state {
        UpdateState::Available(i) => !i.native,
        UpdateState::ManagerActionRequired(_) => true,
        _ => false,
    }
}

fn join3(a: &str, b: &str, c: &str) -> (out: String)
    ensures
        out@ == a@ + b@ + c@,
{
    let mut out = crate::text::owned(a);
    crate::text::push_str(&mut out, b);
    crate::text::push_str(&mut out, c);
    out
}

fn or_text<'a>(v: &'a Option<String>, fallback: &'a str) -> (r: &'a str)
    ensures
        r@ == opt_or(*v, fallback@),
{
    match v {
        Some(s) => s.as_str(),
        None => fallback,
    }
}

/// The dialog's text for `state`. `manager_message` and `manager_command` are
/// the manager's own update message and command, shown with the instructions
/// (the installation's recorded action stands in for a missing message).
pub fn view_for_state(state: &UpdateState, actions: &[UpdateDialogAction], instructions: bool, manager_message: Option<String>, manager_command: Option<String>) -> (v: UpdateView)
    ensures
        v.actions@.len() == actions@.len(),
        forall|k: int| 0 <= k < actions@.len() ==> (#[trigger] v.actions@[k]).0 == actions@[k]
            && v.actions@[k].1@ == action_caption(actions@[k], state_kind(*state), actions@.len() as int),
        v.max_width == if instructions { WIDE_WIDTH } else { NARROW_WIDTH },
        ({
            let (status, tone, details) = view_text(*state);
            &&& v.status@ == status
            &&& v.tone == tone
            &&& v.details@.len() == details.len()
            &&& forall|k: int| 0 <= k < details.len() ==> (#[trigger] v.details@[k])@ == details[k]
        }),
        v.has_progress == (*state is Installing),
        shows_instructions(*state, instructions) ==> {
            let action = match *state {
                UpdateState::Available(i) => i.action,
                UpdateState::ManagerActionRequired(i) => i.action,
                _ => None,
            };
            &&& v.instruction == (match manager_message { Some(m) => Some(m), None => action })
            &&& v.command == manager_command
        },
        !shows_instructions(*state, instructions) ==> v.instruction is None && v.command is None,
{
    let mut details: Vec<String> = Vec::new();
    let mut instruction: Option<String> = None;
    let mut command: Option<String> = None;
    let (status, tone) = match state {
        UpdateState::Idle => {
            details.push(crate::text::owned("No update check has run yet."));
            ("Ready to check for updates", StatusTone::Text)
        },
        UpdateState::Checking => {
            details.push(crate::text::owned("This only takes a moment."));
            ("Checking for updates…", StatusTone::Action)
        },
        UpdateState::UpToDate(i) => {
            let ahead = match &i.target_version {
                Some(t) => !crate::text::same_text(t.as_str(), i.running_version.as_str()),
                None => false,
            };
            let mut current = join3("Current ", i.running_version.as_str(), " · ");
            crate::text::push_str(&mut current, i.channel.as_str());
            details.push(current);
            if ahead {
                match &i.target_version {
                    Some(t) => details.push(join3("Channel latest ", t.as_str(), "")),
                    None => {},
                }
                proof { reveal_strlit(""); }
            }
            (if ahead { "✓ No update needed" } else { "✓ You're up to date" }, StatusTone::Success)
        },
        UpdateState::Available(i) => {
            let mut line = join3("Current ", i.running_version.as_str(), " → Latest ");
            crate::text::push_str(&mut line, or_text(&i.target_version, "unknown"));
            crate::text::push_str(&mut line, " · ");
            crate::text::push_str(&mut line, i.channel.as_str());
            details.push(line);
            if instructions && !i.native {
                instruction = match manager_message { Some(m) => Some(m), None => i.action.clone() };
                command = manager_command;
            }
            ("↑ Update available", StatusTone::Action)
        },
        UpdateState::Installing(i) => {
            let mut line = join3("Installing ", or_text(&i.target_version, "the update"), " · ");
            crate::text::push_str(&mut line, i.channel.as_str());
            details.push(line);
            details.push(crate::text::owned("You can keep working while this runs."));
            ("Updating LazyDB", StatusTone::Action)
        },
        UpdateState::ReadyToRestart(i) => {
            details.push(join3("Restart to use ", or_text(&i.installed_version, "the new version"), ""));
            proof { reveal_strlit(""); }
            ("✓ Update installed", StatusTone::Success)
        },
        UpdateState::ManagerActionRequired(i) => {
            let mut line = join3("Latest ", or_text(&i.target_version, "unknown"), " · ");
            crate::text::push_str(&mut line, i.manager.as_str());
            details.push(line);
            if instructions {
                instruction = match manager_message { Some(m) => Some(m), None => i.action.clone() };
                command = manager_command;
            }
            ("↑ Update available", StatusTone::Action)
        },
        UpdateState::Failed(message) => {
            details.push(message.clone());
            ("× Update failed", StatusTone::Error)
        },
    };
    let has_progress = match state {
        UpdateState::Installing(_) => true,
        _ => false,
    };
    UpdateView {
        max_width: max_width(instructions),
        status: crate::text::owned(status),
        tone,
        details,
        instruction,
        command,
        has_progress,
        actions: labelled_actions(actions, kind_of(state)),
    }
}

/// What a line of the dialog's body shows.
#[derive(Clone, Copy, Debug, PartialEq, Eq, Structural)]
pub enum BodyRole {
    Status,
    Detail,
    Blank,
    Instruction,
    Command,
    Progress,
}

pub type BodyLine = (BodyRole, Seq<char>);

pub open spec fn body_view(v: Seq<(BodyRole, String)>) -> Seq<BodyLine> {
    Seq::new(v.len(), |i: int| (v[i].0, v[i].1@))
}

/// `text` wrapped to `width`, every line in `role`.
pub open spec fn wrapped_role(text: Seq<char>, width: int, role: BodyRole) -> Seq<BodyLine> {
    let lines = wrapped_text(text, width);
    Seq::new(lines.len(), |i: int| (role, lines[i]))
}

/// The first `n` details, each wrapped.
pub open spec fn detail_body(details: Seq<String>, width: int, n: int) -> Seq<BodyLine>
    decreases n,
{
    if n <= 0 { seq![] } else { detail_body(details, width, n - 1) + wrapped_role(details[n - 1]@, width, BodyRole::Detail) }
}

/// A blank line and then `text` wrapped in `role`, when there is a text.
pub open spec fn section(text: Option<String>, width: int, role: BodyRole) -> Seq<BodyLine> {
    match text {
        Some(t) => seq![(BodyRole::Blank, Seq::<char>::empty())] + wrapped_role(t@, width, role),
        None => seq![],
    }
}

/// The dialog's body: the status line, the wrapped details, the instruction
/// and the command after a blank line each, and the progress line after one.
pub open spec fn body(view: UpdateView, width: int) -> Seq<BodyLine> {
    seq![(BodyRole::Status, view.status@)]
        + detail_body(view.details@, width, view.details@.len() as int)
        + section(view.instruction, width, BodyRole::Instruction)
        + section(view.command, width, BodyRole::Command)
        + (if view.has_progress { seq![(BodyRole::Blank, Seq::<char>::empty()), (BodyRole::Progress, Seq::<char>::empty())] } else { seq![] })
}

fn push_line(out: &mut Vec<(BodyRole, String)>, role: BodyRole, text: String)
    ensures
        body_view(final(out)@) == body_view(old(out)@).push((role, text@)),
{
    let ghost before = out@;
    out.push((role, text));
    assert(body_view(out@) =~= body_view(before).push((role, text@)));
}

fn push_wrapped(out: &mut Vec<(BodyRole, String)>, text: &str, width: usize, role: BodyRole)
    ensures
        body_view(final(out)@) == body_view(old(out)@) + wrapped_role(text@, width as int, role),
{
    let lines = wrap_text(text, width);
    let ghost start = body_view(out@);
    let ghost want = wrapped_role(text@, width as int, role);
    let mut i: usize = 0;
    while i < lines.len()
        invariant
            i <= lines@.len(),
            lines@.len() == wrapped_text(text@, width as int).len(),
            forall|k: int| 0 <= k < lines@.len() ==> (#[trigger] lines@[k])@ == wrapped_text(text@, width as int)[k],
            want == wrapped_role(text@, width as int, role),
            body_view(out@) == start + want.take(i as int),
        decreases lines@.len() - i,
    {
        push_line(out, role, lines[i].clone());
        i = i + 1;
        assert(body_view(out@) =~= start + want.take(i as int));
    }
    assert(want.take(i as int) =~= want);
}

fn push_section(out: &mut Vec<(BodyRole, String)>, text: &Option<String>, width: usize, role: BodyRole)
    ensures
        body_view(final(out)@) == body_view(old(out)@) + section(*text, width as int, role),
{
    match text {
        Some(t) => {
            let ghost before = body_view(out@);
            push_line(out, BodyRole::Blank, String::new());
            push_wrapped(out, t.as_str(), width, role);
            assert(body_view(out@) =~= before + section(*text, width as int, role));
        },
        None => {
            assert(body_view(out@) =~= body_view(out@) + section(*text, width as int, role));
        },
    }
}

/// The lines of the dialog's body at `text_width` columns; the progress line is
/// only marked, the caller draws the bar.
pub fn body_lines(view: &UpdateView, text_width: usize) -> (out: Vec<(BodyRole, String)>)
    ensures
        body_view(out@) == body(*view, text_width as int),
{
    let mut out: Vec<(BodyRole, String)> = Vec::new();
    assert(body_view(out@) =~= Seq::<BodyLine>::empty());
    push_line(&mut out, BodyRole::Status, view.status.clone());
    let ghost head = body_view(out@);
    let mut i: usize = 0;
    while i < view.details.len()
        invariant
            i <= view.details@.len(),
            body_view(out@) == head + detail_body(view.details@, text_width as int, i as int),
        decreases view.details@.len() - i,
    {
        push_wrapped(&mut out, view.details[i].as_str(), text_width, BodyRole::Detail);
        i = i + 1;
        assert(body_view(out@) =~= head + detail_body(view.details@, text_width as int, i as int));
    }
    push_section(&mut out, &view.instruction, text_width, BodyRole::Instruction);
    push_section(&mut out, &view.command, text_width, BodyRole::Command);
    let ghost before = body_view(out@);
    if view.has_progress {
        push_line(&mut out, BodyRole::Blank, String::new());
        push_line(&mut out, BodyRole::Progress, String::new());
    }
    assert(body_view(out@) =~= body(*view, text_width as int));
    out
}

/// How the download bar is lit: the first `n` cells for a download of known
/// size, or a segment that sweeps round from `offset` while the size is unknown.
#[derive(Clone, Copy, Debug, PartialEq, Eq, Structural)]
pub enum BarFill {
    Filled(usize),
    Sweep(usize),
}

/// Cells of the download bar at a dialog `width`: what 14 columns of text
/// leave, at least 8.
pub open spec fn bar_width(width: u16) -> int {
    if width < 22 { 8 } else { width - 14 }
}

/// The sweeping segment: a quarter of the bar, at least two cells, at most all.
pub open spec fn sweep_segment(bar: int) -> int {
    let quarter = if bar / 4 < 2 { 2 } else { bar / 4 };
    if quarter < bar { quarter } else { bar }
}

/// Whether cell `i` of a bar of `bar` cells is lit; the segment wraps round the end.
pub open spec fn lit_cell(fill: BarFill, bar: int, i: int) -> bool {
    match fill {
        BarFill::Filled(n) => i < n,
        BarFill::Sweep(offset) => (i - offset) % bar < sweep_segment(bar),
    }
}

/// The bar in brackets: `█` for a lit cell, `░` for the others.
pub open spec fn bar_text(width: u16, fill: BarFill) -> Seq<char> {
    let bar = bar_width(width);
    seq!['['] + Seq::new(bar as nat, |i: int| if lit_cell(fill, bar, i) { '█' } else { '░' }) + seq![']']
}

proof fn lemma_sweep_position(i: int, offset: int, bar: int)
    requires
        0 <= i < bar,
        0 <= offset,
        0 < bar,
    ensures
        (i + bar - offset % bar) % bar == (i - offset) % bar,
{
    vstd::arithmetic::div_mod::lemma_mod_bound(offset, bar);
    vstd::arithmetic::div_mod::lemma_mod_add_multiples_vanish(i - offset % bar, bar);
    vstd::arithmetic::div_mod::lemma_sub_mod_noop_right(i, offset, bar);
}

/// Cells of the download bar at a dialog `width`.
pub fn progress_bar_width(width: u16) -> (r: usize)
    ensures
        r == bar_width(width),
{
    if width < 22 { 8 } else { (width - 14) as usize }
}

/// Draws the download bar for a dialog `width` columns wide.
pub fn progress_bar(width: u16, fill: BarFill) -> (out: String)
    ensures
        out@ == bar_text(width, fill),
{
    let bar = progress_bar_width(width);
    let quarter: usize = if bar / 4 < 2 { 2 } else { bar / 4 };
    let segment: usize = if quarter < bar { quarter } else { bar };
    let ghost cells = Seq::new(bar as nat, |i: int| if lit_cell(fill, bar as int, i) { '█' } else { '░' });
    let mut out: Vec<char> = Vec::new();
    out.push('[');
    let mut i: usize = 0;
    while i < bar
        invariant
            i <= bar,
            8 <= bar <= 65535,
            bar == bar_width(width),
            segment == sweep_segment(bar as int),
            cells == Seq::new(bar as nat, |i: int| if lit_cell(fill, bar as int, i) { '█' } else { '░' }),
            out@ == seq!['['] + cells.take(i as int),
        decreases bar - i,
    {
        let lit = match fill {
            BarFill::Filled(n) => i < n,
            BarFill::Sweep(offset) => {
                proof { lemma_sweep_position(i as int, offset as int, bar as int); }
                (i + bar - offset % bar) % bar < segment
            },
        };
        out.push(if lit { '█' } else { '░' });
        assert(cells.take(i as int + 1) =~= cells.take(i as int).push(cells[i as int]));
        i = i + 1;
    }
    out.push(']');
    assert(cells.take(bar as int) =~= cells);
    assert(out@ =~= bar_text(width, fill));
    string_from(out.as_slice())
}

/// The update dialog's detail lines name the versions they are about: an
/// available update shows the running version and the channel's latest (or
/// `unknown`), and an update left to the installation's manager shows the
/// latest version (or `unknown`) and that manager, never the running version
/// in its place.
pub proof fn law_update_details_name_the_latest_version(i: UpdateInspection)
    ensures
        view_text(UpdateState::ManagerActionRequired(i)).2 == seq![
            "Latest "@ + (match i.target_version { Some(t) => t@, None => "unknown"@ }) + " · "@ + i.manager@],
        view_text(UpdateState::Available(i)).2 == seq![
            "Current "@ + i.running_version@ + " → Latest "@
                + (match i.target_version { Some(t) => t@, None => "unknown"@ }) + " · "@ + i.channel@],
        view_text(UpdateState::Installing(i)).2[0] ==
            "Installing "@ + (match i.target_version { Some(t) => t@, None => "the update"@ }) + " · "@ + i.channel@,
        view_text(UpdateState::ReadyToRestart(i)).2 == seq![
            "Restart to use "@ + (match i.installed_version { Some(t) => t@, None => "the new version"@ })],
        view_text(UpdateState::UpToDate(i)).2[0] == "Current "@ + i.running_version@ + " · "@ + i.channel@,
        (i.target_version matches Some(t) && t@ != i.running_version@) ==> {
            &&& view_text(UpdateState::UpToDate(i)).0 == "✓ No update needed"@
            &&& view_text(UpdateState::UpToDate(i)).2 == seq![
                "Current "@ + i.running_version@ + " · "@ + i.channel@, "Channel latest "@ + i.target_version->0@]
        },
        !(i.target_version matches Some(t) && t@ != i.running_version@) ==> {
            &&& view_text(UpdateState::UpToDate(i)).0 == "✓ You're up to date"@
            &&& view_text(UpdateState::UpToDate(i)).2.len() == 1
        },
        view_text(UpdateState::Available(i)).0 == "↑ Update available"@,
        view_text(UpdateState::ManagerActionRequired(i)).0 == "↑ Update available"@,
        view_text(UpdateState::Installing(i)).1 == StatusTone::Action,
        view_text(UpdateState::ReadyToRestart(i)).1 == StatusTone::Success,
        view_text(UpdateState::UpToDate(i)).1 == StatusTone::Success,
{
}

} // verus!
