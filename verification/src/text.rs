//! String building blocks: characters in, characters out.
use vstd::prelude::*;

verus! {

broadcast use vstd::string::group_string_axioms;

/// Pushes one character onto the end of a string (`String::push`).
#[verifier::external_body]
pub(crate) fn push_char(s: &mut String, c: char)
    ensures
        final(s)@ == old(s)@.push(c),
{
    s.push(c);
}

/// Appends a string slice (`String::push_str`).
pub(crate) fn push_str(s: &mut String, t: &str)
    ensures
        final(s)@ == old(s)@ + t@,
{
    s.append(t);
}

/// The characters of `s`, in order.
pub fn chars_of(s: &str) -> (out: Vec<char>)
    ensures
        out@ == s@,
{
    let mut out: Vec<char> = Vec::new();
    for c in iter: s.chars()
        invariant
            iter.seq() == s@,
            out@ == s@.take(iter.index() as int),
    {
        out.push(c);
    }
    out
}

/// A string made of the given characters.
pub fn string_from(chars: &[char]) -> (out: String)
    ensures
        out@ == chars@,
{
    let mut out = String::new();
    let mut i: usize = 0;
    while i < chars.len()
        invariant
            i <= chars@.len(),
            out@ == chars@.take(i as int),
        decreases chars@.len() - i,
    {
        push_char(&mut out, chars[i]);
        i = i + 1;
        assert(out@ =~= chars@.take(i as int));
    }
    assert(chars@.take(i as int) =~= chars@);
    out
}

/// An owned copy of a string slice.
pub fn owned(s: &str) -> (out: String)
    ensures
        out@ == s@,
{
    s.to_owned()
}

/// The decimal digit character for `d < 10`.
pub open spec fn digit_char(d: nat) -> char {
    if d == 0 { '0' } else if d == 1 { '1' } else if d == 2 { '2' } else if d == 3 { '3' }
    else if d == 4 { '4' } else if d == 5 { '5' } else if d == 6 { '6' } else if d == 7 { '7' }
    else if d == 8 { '8' } else { '9' }
}

/// The decimal representation of `n`, most significant digit first, without leading zeros.
pub open spec fn decimal(n: nat) -> Seq<char>
    decreases n,
{
    if n < 10 {
        seq![digit_char(n)]
    } else {
        decimal(n / 10).push(digit_char(n % 10))
    }
}

/// The decimal representation of `n` padded on the left with zeros to at least `width` digits.
pub open spec fn zero_padded(n: nat, width: nat) -> Seq<char> {
    let digits = decimal(n);
    if digits.len() >= width {
        digits
    } else {
        Seq::new((width - digits.len()) as nat, |i: int| '0') + digits
    }
}

fn digit(d: u64) -> (c: char)
    requires
        d < 10,
    ensures
        c == digit_char(d as nat),
{
    if d == 0 { '0' } else if d == 1 { '1' } else if d == 2 { '2' } else if d == 3 { '3' }
    else if d == 4 { '4' } else if d == 5 { '5' } else if d == 6 { '6' } else if d == 7 { '7' }
    else if d == 8 { '8' } else { '9' }
}

/// Appends the decimal representation of `n` (what `format!("{n}")` writes).
pub fn push_decimal(s: &mut String, n: u64)
    ensures
        final(s)@ == old(s)@ + decimal(n as nat),
    decreases n,
{
    if n < 10 {
        push_char(s, digit(n));
        assert(decimal(n as nat) =~= seq![digit_char(n as nat)]);
    } else {
        push_decimal(s, n / 10);
        push_char(s, digit(n % 10));
        assert(decimal(n as nat) == decimal((n / 10) as nat).push(digit_char((n % 10) as nat)));
    }
}

/// The decimal representation of `n` as a new string.
pub fn decimal_string(n: u64) -> (out: String)
    ensures
        out@ == decimal(n as nat),
{
    let mut out = String::new();
    push_decimal(&mut out, n);
    assert(out@ =~= decimal(n as nat));
    out
}

/// Ten to the power `k`.
pub open spec fn pow10(k: nat) -> nat
    decreases k,
{
    if k == 0 { 1 } else { 10 * pow10((k - 1) as nat) }
}

/// The decimal representation of `n` is made of ASCII digits, and has at most `k`
/// of them when `n < 10^k`.
pub proof fn lemma_decimal_digits(n: nat, k: nat)
    requires
        1 <= k,
        n < pow10(k),
    ensures
        1 <= decimal(n).len() <= k,
        forall|i: int| 0 <= i < decimal(n).len() ==> 0x30 <= (#[trigger] decimal(n)[i] as u32) <= 0x39,
    decreases n,
{
    if n >= 10 {
        assert(k >= 2) by {
            if k == 1 {
                assert(pow10(1) == 10) by { reveal_with_fuel(pow10, 2); }
            }
        }
        let k1 = (k - 1) as nat;
        assert(pow10(k) == 10 * pow10(k1));
        assert(n / 10 < pow10(k1)) by (nonlinear_arith)
            requires n < 10 * pow10(k1), n >= 10;
        lemma_decimal_digits(n / 10, k1);
    }
}

/// Every `u64` has at most twenty decimal digits.
pub proof fn lemma_decimal_u64(n: nat)
    requires
        n <= u64::MAX,
    ensures
        1 <= decimal(n).len() <= 20,
        forall|i: int| 0 <= i < decimal(n).len() ==> 0x30 <= (#[trigger] decimal(n)[i] as u32) <= 0x39,
{
    assert(pow10(20) == 100000000000000000000) by { reveal_with_fuel(pow10, 21); }
    lemma_decimal_digits(n, 20);
}

/// Appends `n` in decimal, left-padded with zeros to `width` digits (`format!("{n:0width$}")`).
pub fn push_zero_padded(s: &mut String, n: u64, width: usize)
    ensures
        final(s)@ == old(s)@ + zero_padded(n as nat, width as nat),
{
    let digits = decimal_string(n);
    let len = chars_of(digits.as_str()).len();
    let ghost start = s@;
    let mut pad: usize = 0;
    if len < width {
        pad = width - len;
    }
    let mut i: usize = 0;
    while i < pad
        invariant
            i <= pad,
            s@ == start + Seq::new(i as nat, |k: int| '0'),
        decreases pad - i,
    {
        push_char(s, '0');
        i = i + 1;
        assert(s@ =~= start + Seq::new(i as nat, |k: int| '0'));
    }
    push_str(s, digits.as_str());
    assert(s@ =~= start + zero_padded(n as nat, width as nat));
}

/// Index of the first `\n` in `s`, or `s.len()` when there is none.
pub open spec fn first_newline(s: Seq<char>) -> int
    decreases s.len(),
{
    if s.len() == 0 {
        0
    } else if s[0] == '\n' {
        0
    } else {
        1 + first_newline(s.drop_first())
    }
}

pub proof fn lemma_first_newline_bounds(s: Seq<char>)
    ensures
        0 <= first_newline(s) <= s.len(),
    decreases s.len(),
{
    if s.len() > 0 && s[0] != '\n' {
        lemma_first_newline_bounds(s.drop_first());
    }
}

/// The lines of `s` as `str::lines` yields them: split at `\n`, a `\r` right before a
/// `\n` dropped, no empty line after a final `\n`.
pub open spec fn text_lines(s: Seq<char>) -> Seq<Seq<char>>
    decreases s.len(),
{
    if s.len() == 0 {
        seq![]
    } else if first_newline(s) == s.len() {
        seq![s]
    } else {
        let i = first_newline(s);
        proof { lemma_first_newline_bounds(s); }
        let line = s.take(i);
        let line = if line.len() > 0 && line.last() == '\r' { line.drop_last() } else { line };
        seq![line] + text_lines(s.skip(i + 1))
    }
}

pub proof fn lemma_first_newline(s: Seq<char>, i: int)
    requires
        0 <= i <= s.len(),
        i == s.len() || s[i] == '\n',
        forall|k: int| 0 <= k < i ==> s[k] != '\n',
    ensures
        first_newline(s) == i,
    decreases i,
{
    if i > 0 {
        assert(s[0] != '\n');
        assert forall|k: int| 0 <= k < i - 1 implies s.drop_first()[k] != '\n' by {
            assert(s.drop_first()[k] == s[k + 1]);
        }
        lemma_first_newline(s.drop_first(), i - 1);
    }
}

/// Whether two strings hold the same characters.
pub fn same_text(a: &str, b: &str) -> (r: bool)
    ensures
        r == (a@ == b@),
{
    let x = chars_of(a);
    let y = chars_of(b);
    if x.len() != y.len() {
        return false;
    }
    let mut i: usize = 0;
    while i < x.len()
        invariant
            x@ == a@,
            y@ == b@,
            x@.len() == y@.len(),
            i <= x@.len(),
            forall|j: int| 0 <= j < i ==> x@[j] == y@[j],
        decreases x@.len() - i,
    {
        if x[i] != y[i] {
            return false;
        }
        i = i + 1;
    }
    assert(x@ =~= y@);
    true
}

/// Bytes the UTF-8 encoding of `c` takes.
pub open spec fn utf8_len(c: char) -> int {
    let v = c as u32;
    if v < 0x80 { 1 } else if v < 0x800 { 2 } else if v < 0x10000 { 3 } else { 4 }
}

/// Byte offset of character `i` of `chars` (the UTF-8 length of those before it).
pub open spec fn byte_offset(chars: Seq<char>, i: int) -> int
    decreases i,
{
    if i <= 0 { 0 } else { byte_offset(chars, i - 1) + utf8_len(chars[i - 1]) }
}

/// The first character index, from `i` on, whose byte offset is `p` (the end
/// counts).
pub open spec fn find_offset(chars: Seq<char>, p: int, i: int) -> Option<int>
    decreases chars.len() + 1 - i,
{
    if i < 0 || i > chars.len() {
        None
    } else if byte_offset(chars, i) == p {
        Some(i)
    } else {
        find_offset(chars, p, i + 1)
    }
}

/// The byte offset of every character of `chars`, and of the end.
pub fn char_offsets(chars: &Vec<char>) -> (out: Vec<u128>)
    ensures
        out@.len() == chars@.len() + 1,
        forall|i: int| 0 <= i <= chars@.len() ==> out@[i] == byte_offset(chars@, i),
{
    let mut out: Vec<u128> = Vec::new();
    out.push(0);
    let mut total: u128 = 0;
    let mut i: usize = 0;
    while i < chars.len()
        invariant
            i <= chars@.len(),
            out@.len() == i + 1,
            total == byte_offset(chars@, i as int),
            total <= 4 * i,
            forall|k: int| 0 <= k <= i ==> out@[k] == byte_offset(chars@, k),
        decreases chars@.len() - i,
    {
        let c = chars[i];
        let v = c as u32;
        let len: u128 = if v < 0x80 { 1 } else if v < 0x800 { 2 } else if v < 0x10000 { 3 } else { 4 };
        total = total + len;
        out.push(total);
        i = i + 1;
    }
    out
}

pub fn find_char(offsets: &Vec<u128>, chars: Ghost<Seq<char>>, p: usize) -> (r: Option<usize>)
    requires
        offsets@.len() == chars@.len() + 1,
        forall|i: int| 0 <= i <= chars@.len() ==> offsets@[i] == byte_offset(chars@, i),
    ensures
        match r {
            Some(i) => find_offset(chars@, p as int, 0) == Some(i as int),
            None => find_offset(chars@, p as int, 0) is None,
        },
{
    let mut i: usize = 0;
    while i < offsets.len()
        invariant
            i <= offsets@.len(),
            offsets@.len() == chars@.len() + 1,
            forall|k: int| 0 <= k <= chars@.len() ==> offsets@[k] == byte_offset(chars@, k),
            find_offset(chars@, p as int, 0) == find_offset(chars@, p as int, i as int),
        decreases offsets@.len() - i,
    {
        if offsets[i] == p as u128 {
            return Some(i);
        }
        i = i + 1;
    }
    None
}

pub proof fn lemma_find_offset_bound(chars: Seq<char>, p: int, i: int)
    ensures
        find_offset(chars, p, i) matches Some(k) ==> i <= k <= chars.len(),
    decreases chars.len() + 1 - i,
{
    if 0 <= i <= chars.len() && byte_offset(chars, i) != p {
        lemma_find_offset_bound(chars, p, i + 1);
    }
}

} // verus!
