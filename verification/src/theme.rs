//! External colour themes: parsing their colours and tracking a theme file's
//! changes without reporting the same problem twice.
use vstd::prelude::*;
use crate::text::{owned, push_str, push_decimal, decimal, same_text};
use vstd::utf8::{encode_utf8, is_char_boundary};
use crate::highlight::SyntaxColor;

verus! {

broadcast use vstd::string::group_string_axioms;

impl Theme {
    /// The theme colour of a syntax colour: its own colour, plain text in the
    /// text colour.
    pub open spec fn spec_syntax_color(self, color: SyntaxColor) -> Color {
        match color {
            SyntaxColor::Keyword => self.syntax_keyword,
            SyntaxColor::Identifier => self.syntax_identifier,
            SyntaxColor::Relation => self.syntax_relation,
            SyntaxColor::RelationAlias => self.syntax_relation_alias,
            SyntaxColor::Column => self.syntax_column,
            SyntaxColor::Type => self.syntax_type,
            SyntaxColor::Function => self.syntax_function,
            SyntaxColor::String => self.syntax_string,
            SyntaxColor::Number => self.syntax_number,
            SyntaxColor::Comment => self.syntax_comment,
            SyntaxColor::Operator => self.syntax_operator,
            SyntaxColor::Punctuation => self.syntax_punctuation,
            SyntaxColor::Parameter => self.syntax_parameter,
            SyntaxColor::Plain => self.text,
        }
    }

    /// The theme colour of a syntax colour.
    pub fn syntax_color(&self, color: SyntaxColor) -> (c: Color)
        ensures
            c == self.spec_syntax_color(color),
    {
        match color {
            SyntaxColor::Keyword => self.syntax_keyword,
            SyntaxColor::Identifier => self.syntax_identifier,
            SyntaxColor::Relation => self.syntax_relation,
            SyntaxColor::RelationAlias => self.syntax_relation_alias,
            SyntaxColor::Column => self.syntax_column,
            SyntaxColor::Type => self.syntax_type,
            SyntaxColor::Function => self.syntax_function,
            SyntaxColor::String => self.syntax_string,
            SyntaxColor::Number => self.syntax_number,
            SyntaxColor::Comment => self.syntax_comment,
            SyntaxColor::Operator => self.syntax_operator,
            SyntaxColor::Punctuation => self.syntax_punctuation,
            SyntaxColor::Parameter => self.syntax_parameter,
            SyntaxColor::Plain => self.text,
        }
    }
}

/// Theme format version this build reads.
pub const EXPECTED_VERSION: u64 = 1;
/// Largest theme file read, in bytes.
pub const MAX_SOURCE_BYTES: usize = 16384;
/// Number of colours a theme defines.
pub const COLOR_COUNT: usize = 33;

/// A theme colour: the terminal's default, or an RGB value.
#[derive(Clone, Copy, Debug, PartialEq, Eq, Structural)]
pub enum Color {
    Reset,
    Rgb(u8, u8, u8),
}

/// Every colour of the interface.
#[derive(Clone, Copy, Debug, PartialEq, Eq, Structural)]
pub struct Theme {
    pub background: Color,
    pub surface: Color,
    pub surface_raised: Color,
    pub border: Color,
    pub grid_header: Color,
    pub grid_header_text: Color,
    pub grid_border: Color,
    pub text: Color,
    pub muted: Color,
    pub accent: Color,
    pub action: Color,
    pub syntax_relation: Color,
    pub syntax_relation_alias: Color,
    pub syntax_column: Color,
    pub syntax_function: Color,
    pub success: Color,
    pub warning: Color,
    pub error: Color,
    pub selection: Color,
    pub mouse_selection: Color,
    pub row_updated: Color,
    pub row_deleted: Color,
    pub row_deleted_background: Color,
    pub row_inserted: Color,
    pub syntax_keyword: Color,
    pub syntax_identifier: Color,
    pub syntax_number: Color,
    pub syntax_parameter: Color,
    pub syntax_type: Color,
    pub syntax_string: Color,
    pub syntax_comment: Color,
    pub syntax_operator: Color,
    pub syntax_punctuation: Color,
}

/// The colour strings of a theme document, one per theme colour.
#[derive(Clone, Debug)]
pub struct ThemeColors {
    pub background: String,
    pub surface: String,
    pub surface_raised: String,
    pub border: String,
    pub grid_header: String,
    pub grid_header_text: String,
    pub grid_border: String,
    pub text: String,
    pub muted: String,
    pub accent: String,
    pub action: String,
    pub syntax_relation: String,
    pub syntax_relation_alias: String,
    pub syntax_column: String,
    pub syntax_function: String,
    pub success: String,
    pub warning: String,
    pub error: String,
    pub selection: String,
    pub mouse_selection: String,
    pub row_updated: String,
    pub row_deleted: String,
    pub row_deleted_background: String,
    pub row_inserted: String,
    pub syntax_keyword: String,
    pub syntax_identifier: String,
    pub syntax_number: String,
    pub syntax_parameter: String,
    pub syntax_type: String,
    pub syntax_string: String,
    pub syntax_comment: String,
    pub syntax_operator: String,
    pub syntax_punctuation: String,
}

/// Name of the `i`-th theme colour, in document order.
pub open spec fn color_name(i: int) -> Seq<char> {
    if i == 0 { "background"@ }
    else if i == 1 { "surface"@ }
    else if i == 2 { "surface_raised"@ }
    else if i == 3 { "border"@ }
    else if i == 4 { "grid_header"@ }
    else if i == 5 { "grid_header_text"@ }
    else if i == 6 { "grid_border"@ }
    else if i == 7 { "text"@ }
    else if i == 8 { "muted"@ }
    else if i == 9 { "accent"@ }
    else if i == 10 { "action"@ }
    else if i == 11 { "syntax_relation"@ }
    else if i == 12 { "syntax_relation_alias"@ }
    else if i == 13 { "syntax_column"@ }
    else if i == 14 { "syntax_function"@ }
    else if i == 15 { "success"@ }
    else if i == 16 { "warning"@ }
    else if i == 17 { "error"@ }
    else if i == 18 { "selection"@ }
    else if i == 19 { "mouse_selection"@ }
    else if i == 20 { "row_updated"@ }
    else if i == 21 { "row_deleted"@ }
    else if i == 22 { "row_deleted_background"@ }
    else if i == 23 { "row_inserted"@ }
    else if i == 24 { "syntax_keyword"@ }
    else if i == 25 { "syntax_identifier"@ }
    else if i == 26 { "syntax_number"@ }
    else if i == 27 { "syntax_parameter"@ }
    else if i == 28 { "syntax_type"@ }
    else if i == 29 { "syntax_string"@ }
    else if i == 30 { "syntax_comment"@ }
    else if i == 31 { "syntax_operator"@ }
    else { "syntax_punctuation"@ }
}

/// The `i`-th colour string of a document.
pub open spec fn color_value(c: ThemeColors, i: int) -> Seq<char> {
    if i == 0 { c.background@ }
    else if i == 1 { c.surface@ }
    else if i == 2 { c.surface_raised@ }
    else if i == 3 { c.border@ }
    else if i == 4 { c.grid_header@ }
    else if i == 5 { c.grid_header_text@ }
    else if i == 6 { c.grid_border@ }
    else if i == 7 { c.text@ }
    else if i == 8 { c.muted@ }
    else if i == 9 { c.accent@ }
    else if i == 10 { c.action@ }
    else if i == 11 { c.syntax_relation@ }
    else if i == 12 { c.syntax_relation_alias@ }
    else if i == 13 { c.syntax_column@ }
    else if i == 14 { c.syntax_function@ }
    else if i == 15 { c.success@ }
    else if i == 16 { c.warning@ }
    else if i == 17 { c.error@ }
    else if i == 18 { c.selection@ }
    else if i == 19 { c.mouse_selection@ }
    else if i == 20 { c.row_updated@ }
    else if i == 21 { c.row_deleted@ }
    else if i == 22 { c.row_deleted_background@ }
    else if i == 23 { c.row_inserted@ }
    else if i == 24 { c.syntax_keyword@ }
    else if i == 25 { c.syntax_identifier@ }
    else if i == 26 { c.syntax_number@ }
    else if i == 27 { c.syntax_parameter@ }
    else if i == 28 { c.syntax_type@ }
    else if i == 29 { c.syntax_string@ }
    else if i == 30 { c.syntax_comment@ }
    else if i == 31 { c.syntax_operator@ }
    else { c.syntax_punctuation@ }
}

/// The theme whose colours, in document order, are `v`.
pub open spec fn theme_of(v: Seq<Color>) -> Theme {
    Theme {
        background: v[0],
        surface: v[1],
        surface_raised: v[2],
        border: v[3],
        grid_header: v[4],
        grid_header_text: v[5],
        grid_border: v[6],
        text: v[7],
        muted: v[8],
        accent: v[9],
        action: v[10],
        syntax_relation: v[11],
        syntax_relation_alias: v[12],
        syntax_column: v[13],
        syntax_function: v[14],
        success: v[15],
        warning: v[16],
        error: v[17],
        selection: v[18],
        mouse_selection: v[19],
        row_updated: v[20],
        row_deleted: v[21],
        row_deleted_background: v[22],
        row_inserted: v[23],
        syntax_keyword: v[24],
        syntax_identifier: v[25],
        syntax_number: v[26],
        syntax_parameter: v[27],
        syntax_type: v[28],
        syntax_string: v[29],
        syntax_comment: v[30],
        syntax_operator: v[31],
        syntax_punctuation: v[32],
    }
}

/// The value of a hex digit byte (`0`-`9`, `a`-`f`, `A`-`F`).
pub open spec fn hex_value(c: u8) -> Option<u8> {
    if 48 <= c <= 57 {
        Some((c - 48) as u8)
    } else if 97 <= c <= 102 {
        Some((c - 87) as u8)
    } else if 65 <= c <= 70 {
        Some((c - 55) as u8)
    } else {
        None
    }
}

/// `u8::from_str_radix` of a two-byte string in base 16, which it reads byte by
/// byte: an optional `+` followed by hex digits.
pub open spec fn hex_byte(a: u8, b: u8) -> Option<u8> {
    if a == 43 {
        hex_value(b)
    } else {
        match (hex_value(a), hex_value(b)) {
            (Some(x), Some(y)) => Some((x * 16 + y) as u8),
            _ => None,
        }
    }
}

/// A colour string: `default`, or seven bytes, `#` then three two-byte hex
/// channels (each as `u8::from_str_radix` reads it).
pub open spec fn color_of(s: Seq<char>) -> Option<Color> {
    let b = encode_utf8(s);
    if s == "default"@ {
        Some(Color::Reset)
    } else if b.len() != 7 || b[0] != 35 {
        None
    } else {
        match (hex_byte(b[1], b[2]), hex_byte(b[3], b[4]), hex_byte(b[5], b[6])) {
            (Some(r), Some(g), Some(b)) => Some(Color::Rgb(r, g, b)),
            _ => None,
        }
    }
}

/// A seven-byte colour string starting with `#` is cut into the two-byte pieces
/// `1..3`, `3..5` and `5..7`, in order, until a piece is not hex. A cut that falls
/// inside a multi-byte character panics; these strings are the ones where it does.
pub open spec fn cut_inside_char(s: Seq<char>) -> bool {
    let b = encode_utf8(s);
    &&& s != "default"@
    &&& b.len() == 7 && b[0] == 35
    &&& {
        ||| !is_char_boundary(b, 1) || !is_char_boundary(b, 3)
        ||| hex_byte(b[1], b[2]) is Some && !is_char_boundary(b, 5)
    }
}

/// `invalid color for <name>`.
pub open spec fn invalid_color(name: Seq<char>) -> Seq<char> {
    "invalid color for "@ + name
}

fn hex_digit_value(c: u8) -> (r: Option<u8>)
    ensures
        r == hex_value(c),
{
    if c >= 48 && c <= 57 {
        Some(c - 48)
    } else if c >= 97 && c <= 102 {
        Some(c - 87)
    } else if c >= 65 && c <= 70 {
        Some(c - 55)
    } else {
        None
    }
}

fn hex_pair(a: u8, b: u8) -> (r: Option<u8>)
    ensures
        r == hex_byte(a, b),
{
    if a == 43 {
        return hex_digit_value(b);
    }
    match (hex_digit_value(a), hex_digit_value(b)) {
        (Some(x), Some(y)) => Some(x * 16 + y),
        _ => None,
    }
}

fn invalid_color_message(name: &str) -> (msg: String)
    ensures
        msg@ == invalid_color(name@),
{
    let mut msg = owned("invalid color for ");
    push_str(&mut msg, name);
    msg
}

/// Reads one theme colour; the error names the colour.
pub fn parse_color(name: &str, value: &str) -> (r: Result<Color, String>)
    requires
        !cut_inside_char(value@),
    ensures
        match color_of(value@) {
            Some(c) => r == Ok::<Color, String>(c),
            None => r is Err && r->Err_0@ == invalid_color(name@),
        },
{
    if same_text(value, "default") {
        return Ok(Color::Reset);
    }
    let bytes = value.as_bytes();
    if bytes.len() != 7 || bytes[0] != 35 {
        return Err(invalid_color_message(name));
    }
    let red = hex_pair(bytes[1], bytes[2]);
    if red.is_none() {
        return Err(invalid_color_message(name));
    }
    let green = hex_pair(bytes[3], bytes[4]);
    if green.is_none() {
        return Err(invalid_color_message(name));
    }
    let blue = hex_pair(bytes[5], bytes[6]);
    match (red, green, blue) {
        (Some(r), Some(g), Some(b)) => Ok(Color::Rgb(r, g, b)),
        _ => Err(invalid_color_message(name)),
    }
}

/// Index of the first colour string of `c` among the first `n` that is not a colour.
pub open spec fn first_invalid(c: ThemeColors, n: int) -> Option<int>
    decreases n,
{
    if n <= 0 {
        None
    } else {
        match first_invalid(c, n - 1) {
            Some(i) => Some(i),
            None => if color_of(color_value(c, n - 1)) is None { Some(n - 1) } else { None },
        }
    }
}

proof fn lemma_first_invalid_stays(c: ThemeColors, j: int, n: int, i: int)
    requires
        j <= n,
        first_invalid(c, j) == Some(i),
    ensures
        first_invalid(c, n) == Some(i),
    decreases n - j,
{
    if j < n {
        lemma_first_invalid_stays(c, j, n - 1, i);
    }
}

/// The colours of a document whose colour strings all parse.
pub open spec fn document_colors(c: ThemeColors) -> Seq<Color> {
    Seq::new(33, |i: int| color_of(color_value(c, i))->Some_0)
}

/// The theme a document describes: an unsupported version is an error, then the
/// first colour that does not parse is an error, otherwise every colour is read.
pub open spec fn document_theme(version: u64, c: ThemeColors) -> Result<Theme, Seq<char>> {
    if version != EXPECTED_VERSION {
        Err("unsupported theme version "@ + decimal(version as nat))
    } else {
        match first_invalid(c, 33) {
            Some(i) => Err(invalid_color(color_name(i))),
            None => Ok(theme_of(document_colors(c))),
        }
    }
}

/// The colours of a document as (name, value) pairs, in document order.
#[verifier::rlimit(60)]
fn color_entries<'a>(colors: &'a ThemeColors) -> (entries: Vec<(&'static str, &'a str)>)
    ensures
        entries@.len() == 33,
        forall|k: int| 0 <= k < 33 ==> (#[trigger] entries@[k]).0@ == color_name(k) && entries@[k].1@ == color_value(*colors, k),
{
    let mut entries: Vec<(&'static str, &'a str)> = Vec::new();
    entries.push(("background", colors.background.as_str()));
    entries.push(("surface", colors.surface.as_str()));
    entries.push(("surface_raised", colors.surface_raised.as_str()));
    entries.push(("border", colors.border.as_str()));
    entries.push(("grid_header", colors.grid_header.as_str()));
    entries.push(("grid_header_text", colors.grid_header_text.as_str()));
    entries.push(("grid_border", colors.grid_border.as_str()));
    entries.push(("text", colors.text.as_str()));
    entries.push(("muted", colors.muted.as_str()));
    entries.push(("accent", colors.accent.as_str()));
    entries.push(("action", colors.action.as_str()));
    entries.push(("syntax_relation", colors.syntax_relation.as_str()));
    entries.push(("syntax_relation_alias", colors.syntax_relation_alias.as_str()));
    entries.push(("syntax_column", colors.syntax_column.as_str()));
    entries.push(("syntax_function", colors.syntax_function.as_str()));
    entries.push(("success", colors.success.as_str()));
    entries.push(("warning", colors.warning.as_str()));
    entries.push(("error", colors.error.as_str()));
    entries.push(("selection", colors.selection.as_str()));
    entries.push(("mouse_selection", colors.mouse_selection.as_str()));
    entries.push(("row_updated", colors.row_updated.as_str()));
    entries.push(("row_deleted", colors.row_deleted.as_str()));
    entries.push(("row_deleted_background", colors.row_deleted_background.as_str()));
    entries.push(("row_inserted", colors.row_inserted.as_str()));
    entries.push(("syntax_keyword", colors.syntax_keyword.as_str()));
    entries.push(("syntax_identifier", colors.syntax_identifier.as_str()));
    entries.push(("syntax_number", colors.syntax_number.as_str()));
    entries.push(("syntax_parameter", colors.syntax_parameter.as_str()));
    entries.push(("syntax_type", colors.syntax_type.as_str()));
    entries.push(("syntax_string", colors.syntax_string.as_str()));
    entries.push(("syntax_comment", colors.syntax_comment.as_str()));
    entries.push(("syntax_operator", colors.syntax_operator.as_str()));
    entries.push(("syntax_punctuation", colors.syntax_punctuation.as_str()));
    assert(entries@[0].0@ == color_name(0) && entries@[0].1@ == color_value(*colors, 0));
    assert(entries@[1].0@ == color_name(1) && entries@[1].1@ == color_value(*colors, 1));
    assert(entries@[2].0@ == color_name(2) && entries@[2].1@ == color_value(*colors, 2));
    assert(entries@[3].0@ == color_name(3) && entries@[3].1@ == color_value(*colors, 3));
    assert(entries@[4].0@ == color_name(4) && entries@[4].1@ == color_value(*colors, 4));
    assert(entries@[5].0@ == color_name(5) && entries@[5].1@ == color_value(*colors, 5));
    assert(entries@[6].0@ == color_name(6) && entries@[6].1@ == color_value(*colors, 6));
    assert(entries@[7].0@ == color_name(7) && entries@[7].1@ == color_value(*colors, 7));
    assert(entries@[8].0@ == color_name(8) && entries@[8].1@ == color_value(*colors, 8));
    assert(entries@[9].0@ == color_name(9) && entries@[9].1@ == color_value(*colors, 9));
    assert(entries@[10].0@ == color_name(10) && entries@[10].1@ == color_value(*colors, 10));
    assert(entries@[11].0@ == color_name(11) && entries@[11].1@ == color_value(*colors, 11));
    assert(entries@[12].0@ == color_name(12) && entries@[12].1@ == color_value(*colors, 12));
    assert(entries@[13].0@ == color_name(13) && entries@[13].1@ == color_value(*colors, 13));
    assert(entries@[14].0@ == color_name(14) && entries@[14].1@ == color_value(*colors, 14));
    assert(entries@[15].0@ == color_name(15) && entries@[15].1@ == color_value(*colors, 15));
    assert(entries@[16].0@ == color_name(16) && entries@[16].1@ == color_value(*colors, 16));
    assert(entries@[17].0@ == color_name(17) && entries@[17].1@ == color_value(*colors, 17));
    assert(entries@[18].0@ == color_name(18) && entries@[18].1@ == color_value(*colors, 18));
    assert(entries@[19].0@ == color_name(19) && entries@[19].1@ == color_value(*colors, 19));
    assert(entries@[20].0@ == color_name(20) && entries@[20].1@ == color_value(*colors, 20));
    assert(entries@[21].0@ == color_name(21) && entries@[21].1@ == color_value(*colors, 21));
    assert(entries@[22].0@ == color_name(22) && entries@[22].1@ == color_value(*colors, 22));
    assert(entries@[23].0@ == color_name(23) && entries@[23].1@ == color_value(*colors, 23));
    assert(entries@[24].0@ == color_name(24) && entries@[24].1@ == color_value(*colors, 24));
    assert(entries@[25].0@ == color_name(25) && entries@[25].1@ == color_value(*colors, 25));
    assert(entries@[26].0@ == color_name(26) && entries@[26].1@ == color_value(*colors, 26));
    assert(entries@[27].0@ == color_name(27) && entries@[27].1@ == color_value(*colors, 27));
    assert(entries@[28].0@ == color_name(28) && entries@[28].1@ == color_value(*colors, 28));
    assert(entries@[29].0@ == color_name(29) && entries@[29].1@ == color_value(*colors, 29));
    assert(entries@[30].0@ == color_name(30) && entries@[30].1@ == color_value(*colors, 30));
    assert(entries@[31].0@ == color_name(31) && entries@[31].1@ == color_value(*colors, 31));
    assert(entries@[32].0@ == color_name(32) && entries@[32].1@ == color_value(*colors, 32));
    entries
}

fn cuts_inside_char(value: &str) -> (r: bool)
    ensures
        r == cut_inside_char(value@),
{
    if same_text(value, "default") {
        return false;
    }
    let bytes = value.as_bytes();
    if bytes.len() != 7 || bytes[0] != 35 {
        return false;
    }
    if !value.is_char_boundary(1) || !value.is_char_boundary(3) {
        return true;
    }
    hex_pair(bytes[1], bytes[2]).is_some() && !value.is_char_boundary(5)
}

/// Whether reading a version-1 document's colours, in order, cuts one of them
/// inside a character (see `cut_inside_char`) before reaching a colour that is
/// not valid: the inputs `parse_document` leaves out.
pub fn colors_cut_inside_char(colors: &ThemeColors) -> (r: bool)
    ensures
        r == exists|i: int| 0 <= i < 33 && first_invalid(*colors, i) is None && #[trigger] cut_inside_char(color_value(*colors, i)),
{
    let entries = color_entries(colors);
    let mut i: usize = 0;
    while i < entries.len()
        invariant
            entries@.len() == 33,
            i <= 33,
            forall|k: int| 0 <= k < 33 ==> (#[trigger] entries@[k]).0@ == color_name(k) && entries@[k].1@ == color_value(*colors, k),
            first_invalid(*colors, i as int) is None,
            forall|k: int| 0 <= k < i ==> !cut_inside_char(#[trigger] color_value(*colors, k)),
        decreases 33 - i,
    {
        let (name, value) = entries[i];
        if cuts_inside_char(value) {
            assert(first_invalid(*colors, i as int) is None && cut_inside_char(color_value(*colors, i as int)));
            return true;
        }
        if parse_color(name, value).is_err() {
            assert(first_invalid(*colors, i as int + 1) == Some(i as int));
            assert forall|k: int| 0 <= k < 33 && first_invalid(*colors, k) is None
                implies !cut_inside_char(#[trigger] color_value(*colors, k)) by {
                if k > i {
                    lemma_first_invalid_stays(*colors, i as int + 1, k, i as int);
                }
            }
            return false;
        }
        i = i + 1;
    }
    false
}

/// Builds the theme from a theme document's version and colour strings.
pub fn parse_document(version: u64, colors: &ThemeColors) -> (r: Result<Theme, String>)
    requires
        version == EXPECTED_VERSION ==> forall|i: int| 0 <= i < 33 && first_invalid(*colors, i) is None
            ==> !cut_inside_char(#[trigger] color_value(*colors, i)),
    ensures
        match document_theme(version, *colors) {
            Ok(t) => r == Ok::<Theme, String>(t),
            Err(m) => r is Err && r->Err_0@ == m,
        },
{
    if version != EXPECTED_VERSION {
        let mut msg = owned("unsupported theme version ");
        push_decimal(&mut msg, version);
        return Err(msg);
    }
    let entries = color_entries(colors);
    let mut values: Vec<Color> = Vec::new();
    let mut i: usize = 0;
    while i < entries.len()
        invariant
            version == EXPECTED_VERSION,
            entries@.len() == 33,
            i <= 33,
            forall|k: int| 0 <= k < 33 ==> (#[trigger] entries@[k]).0@ == color_name(k) && entries@[k].1@ == color_value(*colors, k),
            forall|k: int| 0 <= k < 33 && first_invalid(*colors, k) is None
                ==> !cut_inside_char(#[trigger] color_value(*colors, k)),
            first_invalid(*colors, i as int) is None,
            values@.len() == i,
            forall|k: int| 0 <= k < i ==> color_of(color_value(*colors, k)) == Some(#[trigger] values@[k]),
        decreases 33 - i,
    {
        let (name, value) = entries[i];
        assert(!cut_inside_char(color_value(*colors, i as int)));
        match parse_color(name, value) {
            Ok(c) => {
                values.push(c);
            },
            Err(e) => {
                assert(first_invalid(*colors, i as int + 1) == Some(i as int));
                proof { lemma_first_invalid_stays(*colors, i as int + 1, 33, i as int); }
                assert(first_invalid(*colors, 33) == Some(i as int));
                assert(name@ == color_name(i as int));
                assert(e@ == invalid_color(color_name(i as int)));
                return Err(e);
            },
        }
        i = i + 1;
    }
    assert(values@ =~= document_colors(*colors));
    Ok(Theme {
        background: values[0],
        surface: values[1],
        surface_raised: values[2],
        border: values[3],
        grid_header: values[4],
        grid_header_text: values[5],
        grid_border: values[6],
        text: values[7],
        muted: values[8],
        accent: values[9],
        action: values[10],
        syntax_relation: values[11],
        syntax_relation_alias: values[12],
        syntax_column: values[13],
        syntax_function: values[14],
        success: values[15],
        warning: values[16],
        error: values[17],
        selection: values[18],
        mouse_selection: values[19],
        row_updated: values[20],
        row_deleted: values[21],
        row_deleted_background: values[22],
        row_inserted: values[23],
        syntax_keyword: values[24],
        syntax_identifier: values[25],
        syntax_number: values[26],
        syntax_parameter: values[27],
        syntax_type: values[28],
        syntax_string: values[29],
        syntax_comment: values[30],
        syntax_operator: values[31],
        syntax_punctuation: values[32],
    })
}

} // verus!

verus! {

/// Why a theme file could not be used.
#[derive(Clone, Debug)]
pub enum SourceError {
    Io(String),
    NotRegularFile,
    Oversized,
    Invalid(String),
}

/// What a check of the theme file found.
#[derive(Clone, Debug)]
pub enum SourceOutcome {
    Unchanged,
    ThemeChanged(Theme),
    Error(SourceError),
}

/// What reading the theme file gave: its bytes, or why they cannot be used
/// (with the bytes read, when there are any).
#[derive(Clone, Debug)]
pub enum ReadResult {
    Bytes(Vec<u8>),
    Error { error: SourceError, bytes: Option<Vec<u8>> },
}

/// The bytes read from a regular file (at most one more than the limit is
/// read): more than `MAX_SOURCE_BYTES` of them are refused as oversized.
pub fn sized_read(bytes: Vec<u8>) -> (r: ReadResult)
    ensures
        bytes@.len() <= MAX_SOURCE_BYTES ==> (r matches ReadResult::Bytes(b) && b@ == bytes@),
        bytes@.len() > MAX_SOURCE_BYTES ==> (r matches ReadResult::Error { error: SourceError::Oversized, bytes: Some(b) }
            && b@ == bytes@),
{
    if bytes.len() > MAX_SOURCE_BYTES {
        ReadResult::Error { error: SourceError::Oversized, bytes: Some(bytes) }
    } else {
        ReadResult::Bytes(bytes)
    }
}

/// Two errors are the same when they are the same kind with the same text.
pub open spec fn same_error(a: SourceError, b: SourceError) -> bool {
    match (a, b) {
        (SourceError::Io(x), SourceError::Io(y)) => x@ == y@,
        (SourceError::NotRegularFile, SourceError::NotRegularFile) => true,
        (SourceError::Oversized, SourceError::Oversized) => true,
        (SourceError::Invalid(x), SourceError::Invalid(y)) => x@ == y@,
        _ => false,
    }
}

/// Whether two errors are the same.
pub fn errors_equal(a: &SourceError, b: &SourceError) -> (r: bool)
    ensures
        r == same_error(*a, *b),
{
    match (a, b) {
        (SourceError::Io(x), SourceError::Io(y)) => x.eq(y),
        (SourceError::NotRegularFile, SourceError::NotRegularFile) => true,
        (SourceError::Oversized, SourceError::Oversized) => true,
        (SourceError::Invalid(x), SourceError::Invalid(y)) => x.eq(y),
        _ => false,
    }
}

impl SourceError {
    /// An equal copy of this error.
    pub fn duplicate(&self) -> (r: SourceError)
        ensures
            r == *self,
    {
        match self {
            SourceError::Io(x) => SourceError::Io(x.clone()),
            SourceError::NotRegularFile => SourceError::NotRegularFile,
            SourceError::Oversized => SourceError::Oversized,
            SourceError::Invalid(x) => SourceError::Invalid(x.clone()),
        }
    }
}

/// The message shown for an error.
pub open spec fn error_message(e: SourceError) -> Seq<char> {
    match e {
        SourceError::Io(x) => "unable to read external theme: "@ + x@,
        SourceError::NotRegularFile => "external theme source is not a regular file"@,
        SourceError::Oversized => "external theme exceeds "@ + decimal(MAX_SOURCE_BYTES as nat) + " bytes"@,
        SourceError::Invalid(x) => "invalid external theme: "@ + x@,
    }
}

impl SourceError {
    /// The message shown for this error.
    pub fn message(&self) -> (out: String)
        ensures
            out@ == error_message(*self),
    {
        match self {
            SourceError::Io(x) => {
                let mut out = owned("unable to read external theme: ");
                push_str(&mut out, x.as_str());
                out
            },
            SourceError::NotRegularFile => owned("external theme source is not a regular file"),
            SourceError::Oversized => {
                let mut out = owned("external theme exceeds ");
                push_decimal(&mut out, MAX_SOURCE_BYTES as u64);
                push_str(&mut out, " bytes");
                out
            },
            SourceError::Invalid(x) => {
                let mut out = owned("invalid external theme: ");
                push_str(&mut out, x.as_str());
                out
            },
        }
    }
}

/// A theme file watched for changes: the bytes last read, the theme last in effect
/// and the error last reported.
#[derive(Debug)]
pub struct ExternalThemeSource {
    pub path: String,
    pub last_bytes: Option<Vec<u8>>,
    pub last_effective_theme: Option<Theme>,
    pub last_reported_error: Option<SourceError>,
}

pub open spec fn bytes_view(o: Option<Vec<u8>>) -> Option<Seq<u8>> {
    match o {
        Some(v) => Some(v@),
        None => None,
    }
}

pub open spec fn error_view(o: Option<SourceError>) -> Option<SourceError> {
    o
}

/// The source's state as the contracts see it.
pub struct SourceState {
    pub path: Seq<char>,
    pub bytes: Option<Seq<u8>>,
    pub theme: Option<Theme>,
    pub error: Option<SourceError>,
}

impl ExternalThemeSource {
    pub open spec fn state(&self) -> SourceState {
        SourceState { path: self.path@, bytes: bytes_view(self.last_bytes), theme: self.last_effective_theme, error: self.last_reported_error }
    }
}

/// Reporting `e`: nothing new when it is the error last reported, otherwise it
/// becomes the last reported error and is returned.
pub open spec fn report_step(s: SourceState, e: SourceError) -> (SourceState, Option<SourceError>) {
    match s.error {
        Some(prev) => if same_error(prev, e) { (s, None) } else { (SourceState { error: Some(e), ..s }, Some(e)) },
        None => (SourceState { error: Some(e), ..s }, Some(e)),
    }
}

/// What an outcome says, for the contracts: unchanged, a new theme, or an error.
pub enum OutcomeView {
    Unchanged,
    ThemeChanged(Theme),
    Error(SourceError),
}

pub open spec fn outcome_view(o: SourceOutcome) -> OutcomeView {
    match o {
        SourceOutcome::Unchanged => OutcomeView::Unchanged,
        SourceOutcome::ThemeChanged(t) => OutcomeView::ThemeChanged(t),
        SourceOutcome::Error(e) => OutcomeView::Error(e),
    }
}

pub open spec fn report_outcome(r: Option<SourceError>) -> OutcomeView {
    match r {
        Some(e) => OutcomeView::Error(e),
        None => OutcomeView::Unchanged,
    }
}

/// Applying freshly read bytes, given what decoding them gave. The same bytes as
/// last time change nothing (and clear the reported error once a theme is in
/// effect). New bytes are remembered; a decoded theme clears the reported error and
/// is returned unless it equals the theme in effect; a decoding error is reported
/// as an invalid theme.
pub open spec fn bytes_step(s: SourceState, bytes: Seq<u8>, decoded: Result<Theme, Seq<char>>, invalid: SourceError) -> (SourceState, OutcomeView) {
    if s.bytes == Some(bytes) {
        (if s.theme is Some { SourceState { error: None, ..s } } else { s }, OutcomeView::Unchanged)
    } else {
        let s1 = SourceState { bytes: Some(bytes), ..s };
        match decoded {
            Ok(theme) => {
                let s2 = SourceState { error: None, ..s1 };
                if s1.theme == Some(theme) {
                    (s2, OutcomeView::Unchanged)
                } else {
                    (SourceState { theme: Some(theme), ..s2 }, OutcomeView::ThemeChanged(theme))
                }
            },
            Err(_) => {
                let (s2, r) = report_step(s1, invalid);
                (s2, report_outcome(r))
            },
        }
    }
}

/// A failed read: when it still produced bytes equal to the last ones nothing
/// changes; otherwise those bytes are remembered and the error is reported.
pub open spec fn read_error_step(s: SourceState, error: SourceError, bytes: Option<Seq<u8>>) -> (SourceState, OutcomeView) {
    match bytes {
        Some(b) => if s.bytes == Some(b) {
            (s, OutcomeView::Unchanged)
        } else {
            let (s2, r) = report_step(SourceState { bytes: Some(b), ..s }, error);
            (s2, report_outcome(r))
        },
        None => {
            let (s2, r) = report_step(s, error);
            (s2, report_outcome(r))
        },
    }
}

fn same_bytes(a: &Option<Vec<u8>>, b: &[u8]) -> (r: bool)
    ensures
        r == (bytes_view(*a) == Some(b@)),
{
    match a {
        None => false,
        Some(v) => {
            assert(bytes_view(*a) == Some(v@));
            if v.len() != b.len() {
                return false;
            }
            let mut i: usize = 0;
            while i < v.len()
                invariant
                    bytes_view(*a) == Some(v@),
                    v@.len() == b@.len(),
                    i <= v@.len(),
                    forall|k: int| 0 <= k < i ==> v@[k] == b@[k],
                decreases v@.len() - i,
            {
                if v[i] != b[i] {
                    assert(v@[i as int] != b@[i as int]);
                    assert(v@ != b@);
                    return false;
                }
                i = i + 1;
            }
            assert(v@ =~= b@);
            true
        },
    }
}

impl ExternalThemeSource {
    /// A source for the theme file at `path` that has seen nothing yet.
    pub fn new(path: String) -> (s: ExternalThemeSource)
        ensures
            s.path == path,
            s.state() == (SourceState { path: path@, bytes: None, theme: None, error: None }),
    {
        ExternalThemeSource { path, last_bytes: None, last_effective_theme: None, last_reported_error: None }
    }

    /// Reports `error` unless it was the last error reported.
    pub fn report_error(&mut self, error: SourceError) -> (o: SourceOutcome)
        ensures
            (final(self).state(), outcome_view(o)) == ({
                let (s, r) = report_step(old(self).state(), error);
                (s, report_outcome(r))
            }),
            final(self).path == old(self).path,
    {
        let repeated = match &self.last_reported_error {
            Some(previous) => errors_equal(previous, &error),
            None => false,
        };
        if repeated {
            SourceOutcome::Unchanged
        } else {
            self.last_reported_error = Some(error.duplicate());
            SourceOutcome::Error(error)
        }
    }

    /// Takes in the bytes of a successful read, with the result of decoding them
    /// (UTF-8, then the theme document).
    pub fn apply_bytes(&mut self, bytes: Vec<u8>, decoded: Result<Theme, String>) -> (o: SourceOutcome)
        ensures
            ({
                let d = match decoded { Ok(t) => Ok::<Theme, Seq<char>>(t), Err(m) => Err::<Theme, Seq<char>>(m@) };
                let invalid = match decoded { Err(m) => SourceError::Invalid(m), Ok(_) => SourceError::NotRegularFile };
                (final(self).state(), outcome_view(o)) == bytes_step(old(self).state(), bytes@, d, invalid)
            }),
            final(self).path == old(self).path,
    {
        if same_bytes(&self.last_bytes, bytes.as_slice()) {
            if self.last_effective_theme.is_some() {
                self.last_reported_error = None;
            }
            return SourceOutcome::Unchanged;
        }
        self.last_bytes = Some(bytes);
        match decoded {
            Ok(theme) => {
                self.last_reported_error = None;
                let same = match self.last_effective_theme {
                    Some(current) => current == theme,
                    None => false,
                };
                if same {
                    SourceOutcome::Unchanged
                } else {
                    self.last_effective_theme = Some(theme);
                    SourceOutcome::ThemeChanged(theme)
                }
            },
            Err(message) => self.report_error(SourceError::Invalid(message)),
        }
    }

    /// Takes in a failed read, with the bytes it still produced, if any.
    pub fn apply_read_error(&mut self, error: SourceError, bytes: Option<Vec<u8>>) -> (o: SourceOutcome)
        ensures
            (final(self).state(), outcome_view(o)) == read_error_step(old(self).state(), error, bytes_view(bytes)),
            final(self).path == old(self).path,
    {
        match bytes {
            Some(bytes) => {
                if same_bytes(&self.last_bytes, bytes.as_slice()) {
                    return SourceOutcome::Unchanged;
                }
                self.last_bytes = Some(bytes);
                self.report_error(error)
            },
            None => self.report_error(error),
        }
    }
}

} // verus!

verus! {

/// Law: reporting an error a second time in a row reports nothing and changes nothing.
pub proof fn law_repeated_error_is_reported_once(s: SourceState, e: SourceError)
    ensures
        report_step(report_step(s, e).0, e) == (report_step(s, e).0, None::<SourceError>),
{
}

/// Law: bytes just applied, read again, are reported as unchanged, whatever
/// decoding them gives.
pub proof fn law_same_bytes_are_unchanged(
    s: SourceState,
    bytes: Seq<u8>,
    first: Result<Theme, Seq<char>>,
    second: Result<Theme, Seq<char>>,
    invalid1: SourceError,
    invalid2: SourceError,
)
    ensures
        bytes_step(bytes_step(s, bytes, first, invalid1).0, bytes, second, invalid2).1 == OutcomeView::Unchanged,
{
}

/// Law: when new bytes yield a theme, that theme is in effect afterwards and no
/// error stays reported; the outcome names the theme exactly when it differs from
/// the one in effect before.
pub proof fn law_decoded_theme_takes_effect(s: SourceState, bytes: Seq<u8>, theme: Theme, invalid: SourceError)
    requires
        s.bytes != Some(bytes),
    ensures
        bytes_step(s, bytes, Ok(theme), invalid).0.theme == Some(theme),
        bytes_step(s, bytes, Ok(theme), invalid).0.error is None,
        bytes_step(s, bytes, Ok(theme), invalid).1 == if s.theme == Some(theme) {
            OutcomeView::Unchanged
        } else {
            OutcomeView::ThemeChanged(theme)
        },
{
}

/// Law: a failed read that produced no bytes leaves the remembered bytes and the
/// theme in effect alone.
pub proof fn law_read_error_keeps_theme(s: SourceState, error: SourceError)
    ensures
        read_error_step(s, error, None).0.theme == s.theme,
        read_error_step(s, error, None).0.bytes == s.bytes,
{
}


/// Law: with a theme in effect and nothing reported, a file that disappears is
/// reported once; the same failure again is unchanged; and the same bytes
/// written back are unchanged too, with the theme still in effect and no error
/// reported.
pub proof fn law_deletion_is_reported_once_and_recreation_is_unchanged(
    s: SourceState, bytes: Seq<u8>, gone: SourceError, decoded: Result<Theme, Seq<char>>, invalid: SourceError)
    requires
        s.bytes == Some(bytes),
        s.theme is Some,
        s.error is None,
    ensures
        ({
            let (s1, o1) = read_error_step(s, gone, None);
            let (s2, o2) = read_error_step(s1, gone, None);
            let (s3, o3) = bytes_step(s2, bytes, decoded, invalid);
            &&& o1 == OutcomeView::Error(gone)
            &&& o2 == OutcomeView::Unchanged
            &&& o3 == OutcomeView::Unchanged
            &&& s3.theme == s.theme && s3.error is None && s3.bytes == Some(bytes) && s3.path == s.path
        }),
{
    assert(same_error(gone, gone)) by {
        match gone {
            SourceError::Io(x) => {},
            SourceError::Invalid(x) => {},
            _ => {},
        }
    }
}
/// Every colour string of a document parses.
pub open spec fn all_colours_parse(c: ThemeColors) -> bool {
        &&& color_of(c.background@) is Some
        &&& color_of(c.surface@) is Some
        &&& color_of(c.surface_raised@) is Some
        &&& color_of(c.border@) is Some
        &&& color_of(c.grid_header@) is Some
        &&& color_of(c.grid_header_text@) is Some
        &&& color_of(c.grid_border@) is Some
        &&& color_of(c.text@) is Some
        &&& color_of(c.muted@) is Some
        &&& color_of(c.accent@) is Some
        &&& color_of(c.action@) is Some
        &&& color_of(c.syntax_relation@) is Some
        &&& color_of(c.syntax_relation_alias@) is Some
        &&& color_of(c.syntax_column@) is Some
        &&& color_of(c.syntax_function@) is Some
        &&& color_of(c.success@) is Some
        &&& color_of(c.warning@) is Some
        &&& color_of(c.error@) is Some
        &&& color_of(c.selection@) is Some
        &&& color_of(c.mouse_selection@) is Some
        &&& color_of(c.row_updated@) is Some
        &&& color_of(c.row_deleted@) is Some
        &&& color_of(c.row_deleted_background@) is Some
        &&& color_of(c.row_inserted@) is Some
        &&& color_of(c.syntax_keyword@) is Some
        &&& color_of(c.syntax_identifier@) is Some
        &&& color_of(c.syntax_number@) is Some
        &&& color_of(c.syntax_parameter@) is Some
        &&& color_of(c.syntax_type@) is Some
        &&& color_of(c.syntax_string@) is Some
        &&& color_of(c.syntax_comment@) is Some
        &&& color_of(c.syntax_operator@) is Some
        &&& color_of(c.syntax_punctuation@) is Some
}

/// A document is accepted exactly when its version is the supported one and
/// every colour string parses; the theme it gives then takes each colour from
/// the document field of the same name.
pub proof fn law_document_colours_keep_their_names(version: u64, c: ThemeColors)
    ensures
        document_theme(version, c) is Ok <==> (version == EXPECTED_VERSION && all_colours_parse(c)),
        document_theme(version, c) matches Ok(t) ==> {
            &&& t.background == color_of(c.background@)->Some_0
            &&& t.surface == color_of(c.surface@)->Some_0
            &&& t.surface_raised == color_of(c.surface_raised@)->Some_0
            &&& t.border == color_of(c.border@)->Some_0
            &&& t.grid_header == color_of(c.grid_header@)->Some_0
            &&& t.grid_header_text == color_of(c.grid_header_text@)->Some_0
            &&& t.grid_border == color_of(c.grid_border@)->Some_0
            &&& t.text == color_of(c.text@)->Some_0
            &&& t.muted == color_of(c.muted@)->Some_0
            &&& t.accent == color_of(c.accent@)->Some_0
            &&& t.action == color_of(c.action@)->Some_0
            &&& t.syntax_relation == color_of(c.syntax_relation@)->Some_0
            &&& t.syntax_relation_alias == color_of(c.syntax_relation_alias@)->Some_0
            &&& t.syntax_column == color_of(c.syntax_column@)->Some_0
            &&& t.syntax_function == color_of(c.syntax_function@)->Some_0
            &&& t.success == color_of(c.success@)->Some_0
            &&& t.warning == color_of(c.warning@)->Some_0
            &&& t.error == color_of(c.error@)->Some_0
            &&& t.selection == color_of(c.selection@)->Some_0
            &&& t.mouse_selection == color_of(c.mouse_selection@)->Some_0
            &&& t.row_updated == color_of(c.row_updated@)->Some_0
            &&& t.row_deleted == color_of(c.row_deleted@)->Some_0
            &&& t.row_deleted_background == color_of(c.row_deleted_background@)->Some_0
            &&& t.row_inserted == color_of(c.row_inserted@)->Some_0
            &&& t.syntax_keyword == color_of(c.syntax_keyword@)->Some_0
            &&& t.syntax_identifier == color_of(c.syntax_identifier@)->Some_0
            &&& t.syntax_number == color_of(c.syntax_number@)->Some_0
            &&& t.syntax_parameter == color_of(c.syntax_parameter@)->Some_0
            &&& t.syntax_type == color_of(c.syntax_type@)->Some_0
            &&& t.syntax_string == color_of(c.syntax_string@)->Some_0
            &&& t.syntax_comment == color_of(c.syntax_comment@)->Some_0
            &&& t.syntax_operator == color_of(c.syntax_operator@)->Some_0
            &&& t.syntax_punctuation == color_of(c.syntax_punctuation@)->Some_0
        },
{
    if version == EXPECTED_VERSION {
        lemma_first_invalid_none(c, 33);
        if first_invalid(c, 33) is None {
            let v = document_colors(c);
            assert(v[18] == color_of(c.selection@)->Some_0);
        }
    }
}

/// No colour among the first `n` fails to parse exactly when each of them parses.
proof fn lemma_first_invalid_none(c: ThemeColors, n: int)
    requires
        0 <= n <= 33,
    ensures
        first_invalid(c, n) is None <==> forall|k: int| 0 <= k < n ==> color_of(#[trigger] color_value(c, k)) is Some,
    decreases n,
{
    if n > 0 {
        lemma_first_invalid_none(c, n - 1);
    }
}

/// The hex digit `d` as a character, in upper or lower case.
pub open spec fn hex_char(d: int, upper: bool) -> char {
    if upper { "0123456789ABCDEF"@[d] } else { "0123456789abcdef"@[d] }
}

proof fn lemma_hex_char_value(d: int, upper: bool)
    requires
        0 <= d < 16,
    ensures
        hex_char(d, upper) as u32 <= 0x7f,
        hex_value(hex_char(d, upper) as u8) == Some(d as u8),
{
    reveal_strlit("0123456789ABCDEF");
    reveal_strlit("0123456789abcdef");
    if d == 0 {} else if d == 1 {} else if d == 2 {} else if d == 3 {} else if d == 4 {} else if d == 5 {}
    else if d == 6 {} else if d == 7 {} else if d == 8 {} else if d == 9 {} else if d == 10 {}
    else if d == 11 {} else if d == 12 {} else if d == 13 {} else if d == 14 {} else {}
}

/// `default` is the terminal's own colour, and `#` followed by six hex digits
/// (in either case) is the colour whose red, green and blue are the three
/// two-digit hex numbers in that order, high digit first.
pub proof fn law_hex_colour_reads_its_channels(d: Seq<int>, upper: Seq<bool>)
    requires
        d.len() == 6,
        upper.len() == 6,
        forall|i: int| 0 <= i < 6 ==> 0 <= #[trigger] d[i] < 16,
    ensures
        color_of("default"@) == Some(Color::Reset),
        color_of(seq!['#'] + Seq::new(6, |i: int| hex_char(d[i], upper[i])))
            == Some(Color::Rgb((16 * d[0] + d[1]) as u8, (16 * d[2] + d[3]) as u8, (16 * d[4] + d[5]) as u8)),
{
    let s = seq!['#'] + Seq::new(6, |i: int| hex_char(d[i], upper[i]));
    reveal_strlit("default");
    assert(s.len() == 7);
    assert(s != "default"@) by {
        assert(s[0] == '#');
        assert("default"@[0] == 'd');
    }
    lemma_hex_char_value(d[0], upper[0]);
    lemma_hex_char_value(d[1], upper[1]);
    lemma_hex_char_value(d[2], upper[2]);
    lemma_hex_char_value(d[3], upper[3]);
    lemma_hex_char_value(d[4], upper[4]);
    lemma_hex_char_value(d[5], upper[5]);
    assert(vstd::utf8::is_ascii_chars(s)) by {
        assert forall|i: int| 0 <= i < s.len() implies '\0' <= #[trigger] s[i] <= '\u{7f}' by {
            if i > 0 {
                lemma_hex_char_value(d[i - 1], upper[i - 1]);
            }
        }
    }
    vstd::utf8::is_ascii_chars_encode_utf8(s);
    let b = encode_utf8(s);
    assert(b[0] == 35);
    assert(b[1] == hex_char(d[0], upper[0]) as u8);
    assert(b[2] == hex_char(d[1], upper[1]) as u8);
    assert(b[3] == hex_char(d[2], upper[2]) as u8);
    assert(b[4] == hex_char(d[3], upper[3]) as u8);
    assert(b[5] == hex_char(d[4], upper[4]) as u8);
    assert(b[6] == hex_char(d[5], upper[5]) as u8);
    assert(hex_char(d[0], upper[0]) as u8 != 43);
    assert(hex_char(d[2], upper[2]) as u8 != 43);
    assert(hex_char(d[4], upper[4]) as u8 != 43);
}

/// A document of another version is refused by its version number; otherwise
/// the first colour (in document order) that does not parse is refused by its
/// own field name.
#[verifier::rlimit(100)]
pub proof fn law_refusal_names_the_first_bad_colour(version: u64, c: ThemeColors)
    ensures
        version != EXPECTED_VERSION ==> document_theme(version, c)
            == Err::<Theme, Seq<char>>("unsupported theme version "@ + decimal(version as nat)),
        version == EXPECTED_VERSION && color_of(c.background@) is None
            ==> document_theme(version, c) == Err::<Theme, Seq<char>>("invalid color for "@ + "background"@),
        version == EXPECTED_VERSION && color_of(c.background@) is Some && color_of(c.surface@) is None
            ==> document_theme(version, c) == Err::<Theme, Seq<char>>("invalid color for "@ + "surface"@),
        version == EXPECTED_VERSION && color_of(c.background@) is Some && color_of(c.surface@) is Some && color_of(c.surface_raised@) is None
            ==> document_theme(version, c) == Err::<Theme, Seq<char>>("invalid color for "@ + "surface_raised"@),
        version == EXPECTED_VERSION && color_of(c.background@) is Some && color_of(c.surface@) is Some && color_of(c.surface_raised@) is Some && color_of(c.border@) is None
            ==> document_theme(version, c) == Err::<Theme, Seq<char>>("invalid color for "@ + "border"@),
        version == EXPECTED_VERSION && color_of(c.background@) is Some && color_of(c.surface@) is Some && color_of(c.surface_raised@) is Some && color_of(c.border@) is Some && color_of(c.grid_header@) is None
            ==> document_theme(version, c) == Err::<Theme, Seq<char>>("invalid color for "@ + "grid_header"@),
        version == EXPECTED_VERSION && color_of(c.background@) is Some && color_of(c.surface@) is Some && color_of(c.surface_raised@) is Some && color_of(c.border@) is Some && color_of(c.grid_header@) is Some && color_of(c.grid_header_text@) is None
            ==> document_theme(version, c) == Err::<Theme, Seq<char>>("invalid color for "@ + "grid_header_text"@),
        version == EXPECTED_VERSION && color_of(c.background@) is Some && color_of(c.surface@) is Some && color_of(c.surface_raised@) is Some && color_of(c.border@) is Some && color_of(c.grid_header@) is Some && color_of(c.grid_header_text@) is Some && color_of(c.grid_border@) is None
            ==> document_theme(version, c) == Err::<Theme, Seq<char>>("invalid color for "@ + "grid_border"@),
        version == EXPECTED_VERSION && color_of(c.background@) is Some && color_of(c.surface@) is Some && color_of(c.surface_raised@) is Some && color_of(c.border@) is Some && color_of(c.grid_header@) is Some && color_of(c.grid_header_text@) is Some && color_of(c.grid_border@) is Some && color_of(c.text@) is None
            ==> document_theme(version, c) == Err::<Theme, Seq<char>>("invalid color for "@ + "text"@),
        version == EXPECTED_VERSION && color_of(c.background@) is Some && color_of(c.surface@) is Some && color_of(c.surface_raised@) is Some && color_of(c.border@) is Some && color_of(c.grid_header@) is Some && color_of(c.grid_header_text@) is Some && color_of(c.grid_border@) is Some && color_of(c.text@) is Some && color_of(c.muted@) is None
            ==> document_theme(version, c) == Err::<Theme, Seq<char>>("invalid color for "@ + "muted"@),
        version == EXPECTED_VERSION && color_of(c.background@) is Some && color_of(c.surface@) is Some && color_of(c.surface_raised@) is Some && color_of(c.border@) is Some && color_of(c.grid_header@) is Some && color_of(c.grid_header_text@) is Some && color_of(c.grid_border@) is Some && color_of(c.text@) is Some && color_of(c.muted@) is Some && color_of(c.accent@) is None
            ==> document_theme(version, c) == Err::<Theme, Seq<char>>("invalid color for "@ + "accent"@),
        version == EXPECTED_VERSION && color_of(c.background@) is Some && color_of(c.surface@) is Some && color_of(c.surface_raised@) is Some && color_of(c.border@) is Some && color_of(c.grid_header@) is Some && color_of(c.grid_header_text@) is Some && color_of(c.grid_border@) is Some && color_of(c.text@) is Some && color_of(c.muted@) is Some && color_of(c.accent@) is Some && color_of(c.action@) is None
            ==> document_theme(version, c) == Err::<Theme, Seq<char>>("invalid color for "@ + "action"@),
        version == EXPECTED_VERSION && color_of(c.background@) is Some && color_of(c.surface@) is Some && color_of(c.surface_raised@) is Some && color_of(c.border@) is Some && color_of(c.grid_header@) is Some && color_of(c.grid_header_text@) is Some && color_of(c.grid_border@) is Some && color_of(c.text@) is Some && color_of(c.muted@) is Some && color_of(c.accent@) is Some && color_of(c.action@) is Some && color_of(c.syntax_relation@) is None
            ==> document_theme(version, c) == Err::<Theme, Seq<char>>("invalid color for "@ + "syntax_relation"@),
        version == EXPECTED_VERSION && color_of(c.background@) is Some && color_of(c.surface@) is Some && color_of(c.surface_raised@) is Some && color_of(c.border@) is Some && color_of(c.grid_header@) is Some && color_of(c.grid_header_text@) is Some && color_of(c.grid_border@) is Some && color_of(c.text@) is Some && color_of(c.muted@) is Some && color_of(c.accent@) is Some && color_of(c.action@) is Some && color_of(c.syntax_relation@) is Some && color_of(c.syntax_relation_alias@) is None
            ==> document_theme(version, c) == Err::<Theme, Seq<char>>("invalid color for "@ + "syntax_relation_alias"@),
        version == EXPECTED_VERSION && color_of(c.background@) is Some && color_of(c.surface@) is Some && color_of(c.surface_raised@) is Some && color_of(c.border@) is Some && color_of(c.grid_header@) is Some && color_of(c.grid_header_text@) is Some && color_of(c.grid_border@) is Some && color_of(c.text@) is Some && color_of(c.muted@) is Some && color_of(c.accent@) is Some && color_of(c.action@) is Some && color_of(c.syntax_relation@) is Some && color_of(c.syntax_relation_alias@) is Some && color_of(c.syntax_column@) is None
            ==> document_theme(version, c) == Err::<Theme, Seq<char>>("invalid color for "@ + "syntax_column"@),
        version == EXPECTED_VERSION && color_of(c.background@) is Some && color_of(c.surface@) is Some && color_of(c.surface_raised@) is Some && color_of(c.border@) is Some && color_of(c.grid_header@) is Some && color_of(c.grid_header_text@) is Some && color_of(c.grid_border@) is Some && color_of(c.text@) is Some && color_of(c.muted@) is Some && color_of(c.accent@) is Some && color_of(c.action@) is Some && color_of(c.syntax_relation@) is Some && color_of(c.syntax_relation_alias@) is Some && color_of(c.syntax_column@) is Some && color_of(c.syntax_function@) is None
            ==> document_theme(version, c) == Err::<Theme, Seq<char>>("invalid color for "@ + "syntax_function"@),
        version == EXPECTED_VERSION && color_of(c.background@) is Some && color_of(c.surface@) is Some && color_of(c.surface_raised@) is Some && color_of(c.border@) is Some && color_of(c.grid_header@) is Some && color_of(c.grid_header_text@) is Some && color_of(c.grid_border@) is Some && color_of(c.text@) is Some && color_of(c.muted@) is Some && color_of(c.accent@) is Some && color_of(c.action@) is Some && color_of(c.syntax_relation@) is Some && color_of(c.syntax_relation_alias@) is Some && color_of(c.syntax_column@) is Some && color_of(c.syntax_function@) is Some && color_of(c.success@) is None
            ==> document_theme(version, c) == Err::<Theme, Seq<char>>("invalid color for "@ + "success"@),
        version == EXPECTED_VERSION && color_of(c.background@) is Some && color_of(c.surface@) is Some && color_of(c.surface_raised@) is Some && color_of(c.border@) is Some && color_of(c.grid_header@) is Some && color_of(c.grid_header_text@) is Some && color_of(c.grid_border@) is Some && color_of(c.text@) is Some && color_of(c.muted@) is Some && color_of(c.accent@) is Some && color_of(c.action@) is Some && color_of(c.syntax_relation@) is Some && color_of(c.syntax_relation_alias@) is Some && color_of(c.syntax_column@) is Some && color_of(c.syntax_function@) is Some && color_of(c.success@) is Some && color_of(c.warning@) is None
            ==> document_theme(version, c) == Err::<Theme, Seq<char>>("invalid color for "@ + "warning"@),
        version == EXPECTED_VERSION && color_of(c.background@) is Some && color_of(c.surface@) is Some && color_of(c.surface_raised@) is Some && color_of(c.border@) is Some && color_of(c.grid_header@) is Some && color_of(c.grid_header_text@) is Some && color_of(c.grid_border@) is Some && color_of(c.text@) is Some && color_of(c.muted@) is Some && color_of(c.accent@) is Some && color_of(c.action@) is Some && color_of(c.syntax_relation@) is Some && color_of(c.syntax_relation_alias@) is Some && color_of(c.syntax_column@) is Some && color_of(c.syntax_function@) is Some && color_of(c.success@) is Some && color_of(c.warning@) is Some && color_of(c.error@) is None
            ==> document_theme(version, c) == Err::<Theme, Seq<char>>("invalid color for "@ + "error"@),
        version == EXPECTED_VERSION && color_of(c.background@) is Some && color_of(c.surface@) is Some && color_of(c.surface_raised@) is Some && color_of(c.border@) is Some && color_of(c.grid_header@) is Some && color_of(c.grid_header_text@) is Some && color_of(c.grid_border@) is Some && color_of(c.text@) is Some && color_of(c.muted@) is Some && color_of(c.accent@) is Some && color_of(c.action@) is Some && color_of(c.syntax_relation@) is Some && color_of(c.syntax_relation_alias@) is Some && color_of(c.syntax_column@) is Some && color_of(c.syntax_function@) is Some && color_of(c.success@) is Some && color_of(c.warning@) is Some && color_of(c.error@) is Some && color_of(c.selection@) is None
            ==> document_theme(version, c) == Err::<Theme, Seq<char>>("invalid color for "@ + "selection"@),
        version == EXPECTED_VERSION && color_of(c.background@) is Some && color_of(c.surface@) is Some && color_of(c.surface_raised@) is Some && color_of(c.border@) is Some && color_of(c.grid_header@) is Some && color_of(c.grid_header_text@) is Some && color_of(c.grid_border@) is Some && color_of(c.text@) is Some && color_of(c.muted@) is Some && color_of(c.accent@) is Some && color_of(c.action@) is Some && color_of(c.syntax_relation@) is Some && color_of(c.syntax_relation_alias@) is Some && color_of(c.syntax_column@) is Some && color_of(c.syntax_function@) is Some && color_of(c.success@) is Some && color_of(c.warning@) is Some && color_of(c.error@) is Some && color_of(c.selection@) is Some && color_of(c.mouse_selection@) is None
            ==> document_theme(version, c) == Err::<Theme, Seq<char>>("invalid color for "@ + "mouse_selection"@),
        version == EXPECTED_VERSION && color_of(c.background@) is Some && color_of(c.surface@) is Some && color_of(c.surface_raised@) is Some && color_of(c.border@) is Some && color_of(c.grid_header@) is Some && color_of(c.grid_header_text@) is Some && color_of(c.grid_border@) is Some && color_of(c.text@) is Some && color_of(c.muted@) is Some && color_of(c.accent@) is Some && color_of(c.action@) is Some && color_of(c.syntax_relation@) is Some && color_of(c.syntax_relation_alias@) is Some && color_of(c.syntax_column@) is Some && color_of(c.syntax_function@) is Some && color_of(c.success@) is Some && color_of(c.warning@) is Some && color_of(c.error@) is Some && color_of(c.selection@) is Some && color_of(c.mouse_selection@) is Some && color_of(c.row_updated@) is None
            ==> document_theme(version, c) == Err::<Theme, Seq<char>>("invalid color for "@ + "row_updated"@),
        version == EXPECTED_VERSION && color_of(c.background@) is Some && color_of(c.surface@) is Some && color_of(c.surface_raised@) is Some && color_of(c.border@) is Some && color_of(c.grid_header@) is Some && color_of(c.grid_header_text@) is Some && color_of(c.grid_border@) is Some && color_of(c.text@) is Some && color_of(c.muted@) is Some && color_of(c.accent@) is Some && color_of(c.action@) is Some && color_of(c.syntax_relation@) is Some && color_of(c.syntax_relation_alias@) is Some && color_of(c.syntax_column@) is Some && color_of(c.syntax_function@) is Some && color_of(c.success@) is Some && color_of(c.warning@) is Some && color_of(c.error@) is Some && color_of(c.selection@) is Some && color_of(c.mouse_selection@) is Some && color_of(c.row_updated@) is Some && color_of(c.row_deleted@) is None
            ==> document_theme(version, c) == Err::<Theme, Seq<char>>("invalid color for "@ + "row_deleted"@),
        version == EXPECTED_VERSION && color_of(c.background@) is Some && color_of(c.surface@) is Some && color_of(c.surface_raised@) is Some && color_of(c.border@) is Some && color_of(c.grid_header@) is Some && color_of(c.grid_header_text@) is Some && color_of(c.grid_border@) is Some && color_of(c.text@) is Some && color_of(c.muted@) is Some && color_of(c.accent@) is Some && color_of(c.action@) is Some && color_of(c.syntax_relation@) is Some && color_of(c.syntax_relation_alias@) is Some && color_of(c.syntax_column@) is Some && color_of(c.syntax_function@) is Some && color_of(c.success@) is Some && color_of(c.warning@) is Some && color_of(c.error@) is Some && color_of(c.selection@) is Some && color_of(c.mouse_selection@) is Some && color_of(c.row_updated@) is Some && color_of(c.row_deleted@) is Some && color_of(c.row_deleted_background@) is None
            ==> document_theme(version, c) == Err::<Theme, Seq<char>>("invalid color for "@ + "row_deleted_background"@),
        version == EXPECTED_VERSION && color_of(c.background@) is Some && color_of(c.surface@) is Some && color_of(c.surface_raised@) is Some && color_of(c.border@) is Some && color_of(c.grid_header@) is Some && color_of(c.grid_header_text@) is Some && color_of(c.grid_border@) is Some && color_of(c.text@) is Some && color_of(c.muted@) is Some && color_of(c.accent@) is Some && color_of(c.action@) is Some && color_of(c.syntax_relation@) is Some && color_of(c.syntax_relation_alias@) is Some && color_of(c.syntax_column@) is Some && color_of(c.syntax_function@) is Some && color_of(c.success@) is Some && color_of(c.warning@) is Some && color_of(c.error@) is Some && color_of(c.selection@) is Some && color_of(c.mouse_selection@) is Some && color_of(c.row_updated@) is Some && color_of(c.row_deleted@) is Some && color_of(c.row_deleted_background@) is Some && color_of(c.row_inserted@) is None
            ==> document_theme(version, c) == Err::<Theme, Seq<char>>("invalid color for "@ + "row_inserted"@),
        version == EXPECTED_VERSION && color_of(c.background@) is Some && color_of(c.surface@) is Some && color_of(c.surface_raised@) is Some && color_of(c.border@) is Some && color_of(c.grid_header@) is Some && color_of(c.grid_header_text@) is Some && color_of(c.grid_border@) is Some && color_of(c.text@) is Some && color_of(c.muted@) is Some && color_of(c.accent@) is Some && color_of(c.action@) is Some && color_of(c.syntax_relation@) is Some && color_of(c.syntax_relation_alias@) is Some && color_of(c.syntax_column@) is Some && color_of(c.syntax_function@) is Some && color_of(c.success@) is Some && color_of(c.warning@) is Some && color_of(c.error@) is Some && color_of(c.selection@) is Some && color_of(c.mouse_selection@) is Some && color_of(c.row_updated@) is Some && color_of(c.row_deleted@) is Some && color_of(c.row_deleted_background@) is Some && color_of(c.row_inserted@) is Some && color_of(c.syntax_keyword@) is None
            ==> document_theme(version, c) == Err::<Theme, Seq<char>>("invalid color for "@ + "syntax_keyword"@),
        version == EXPECTED_VERSION && color_of(c.background@) is Some && color_of(c.surface@) is Some && color_of(c.surface_raised@) is Some && color_of(c.border@) is Some && color_of(c.grid_header@) is Some && color_of(c.grid_header_text@) is Some && color_of(c.grid_border@) is Some && color_of(c.text@) is Some && color_of(c.muted@) is Some && color_of(c.accent@) is Some && color_of(c.action@) is Some && color_of(c.syntax_relation@) is Some && color_of(c.syntax_relation_alias@) is Some && color_of(c.syntax_column@) is Some && color_of(c.syntax_function@) is Some && color_of(c.success@) is Some && color_of(c.warning@) is Some && color_of(c.error@) is Some && color_of(c.selection@) is Some && color_of(c.mouse_selection@) is Some && color_of(c.row_updated@) is Some && color_of(c.row_deleted@) is Some && color_of(c.row_deleted_background@) is Some && color_of(c.row_inserted@) is Some && color_of(c.syntax_keyword@) is Some && color_of(c.syntax_identifier@) is None
            ==> document_theme(version, c) == Err::<Theme, Seq<char>>("invalid color for "@ + "syntax_identifier"@),
        version == EXPECTED_VERSION && color_of(c.background@) is Some && color_of(c.surface@) is Some && color_of(c.surface_raised@) is Some && color_of(c.border@) is Some && color_of(c.grid_header@) is Some && color_of(c.grid_header_text@) is Some && color_of(c.grid_border@) is Some && color_of(c.text@) is Some && color_of(c.muted@) is Some && color_of(c.accent@) is Some && color_of(c.action@) is Some && color_of(c.syntax_relation@) is Some && color_of(c.syntax_relation_alias@) is Some && color_of(c.syntax_column@) is Some && color_of(c.syntax_function@) is Some && color_of(c.success@) is Some && color_of(c.warning@) is Some && color_of(c.error@) is Some && color_of(c.selection@) is Some && color_of(c.mouse_selection@) is Some && color_of(c.row_updated@) is Some && color_of(c.row_deleted@) is Some && color_of(c.row_deleted_background@) is Some && color_of(c.row_inserted@) is Some && color_of(c.syntax_keyword@) is Some && color_of(c.syntax_identifier@) is Some && color_of(c.syntax_number@) is None
            ==> document_theme(version, c) == Err::<Theme, Seq<char>>("invalid color for "@ + "syntax_number"@),
        version == EXPECTED_VERSION && color_of(c.background@) is Some && color_of(c.surface@) is Some && color_of(c.surface_raised@) is Some && color_of(c.border@) is Some && color_of(c.grid_header@) is Some && color_of(c.grid_header_text@) is Some && color_of(c.grid_border@) is Some && color_of(c.text@) is Some && color_of(c.muted@) is Some && color_of(c.accent@) is Some && color_of(c.action@) is Some && color_of(c.syntax_relation@) is Some && color_of(c.syntax_relation_alias@) is Some && color_of(c.syntax_column@) is Some && color_of(c.syntax_function@) is Some && color_of(c.success@) is Some && color_of(c.warning@) is Some && color_of(c.error@) is Some && color_of(c.selection@) is Some && color_of(c.mouse_selection@) is Some && color_of(c.row_updated@) is Some && color_of(c.row_deleted@) is Some && color_of(c.row_deleted_background@) is Some && color_of(c.row_inserted@) is Some && color_of(c.syntax_keyword@) is Some && color_of(c.syntax_identifier@) is Some && color_of(c.syntax_number@) is Some && color_of(c.syntax_parameter@) is None
            ==> document_theme(version, c) == Err::<Theme, Seq<char>>("invalid color for "@ + "syntax_parameter"@),
        version == EXPECTED_VERSION && color_of(c.background@) is Some && color_of(c.surface@) is Some && color_of(c.surface_raised@) is Some && color_of(c.border@) is Some && color_of(c.grid_header@) is Some && color_of(c.grid_header_text@) is Some && color_of(c.grid_border@) is Some && color_of(c.text@) is Some && color_of(c.muted@) is Some && color_of(c.accent@) is Some && color_of(c.action@) is Some && color_of(c.syntax_relation@) is Some && color_of(c.syntax_relation_alias@) is Some && color_of(c.syntax_column@) is Some && color_of(c.syntax_function@) is Some && color_of(c.success@) is Some && color_of(c.warning@) is Some && color_of(c.error@) is Some && color_of(c.selection@) is Some && color_of(c.mouse_selection@) is Some && color_of(c.row_updated@) is Some && color_of(c.row_deleted@) is Some && color_of(c.row_deleted_background@) is Some && color_of(c.row_inserted@) is Some && color_of(c.syntax_keyword@) is Some && color_of(c.syntax_identifier@) is Some && color_of(c.syntax_number@) is Some && color_of(c.syntax_parameter@) is Some && color_of(c.syntax_type@) is None
            ==> document_theme(version, c) == Err::<Theme, Seq<char>>("invalid color for "@ + "syntax_type"@),
        version == EXPECTED_VERSION && color_of(c.background@) is Some && color_of(c.surface@) is Some && color_of(c.surface_raised@) is Some && color_of(c.border@) is Some && color_of(c.grid_header@) is Some && color_of(c.grid_header_text@) is Some && color_of(c.grid_border@) is Some && color_of(c.text@) is Some && color_of(c.muted@) is Some && color_of(c.accent@) is Some && color_of(c.action@) is Some && color_of(c.syntax_relation@) is Some && color_of(c.syntax_relation_alias@) is Some && color_of(c.syntax_column@) is Some && color_of(c.syntax_function@) is Some && color_of(c.success@) is Some && color_of(c.warning@) is Some && color_of(c.error@) is Some && color_of(c.selection@) is Some && color_of(c.mouse_selection@) is Some && color_of(c.row_updated@) is Some && color_of(c.row_deleted@) is Some && color_of(c.row_deleted_background@) is Some && color_of(c.row_inserted@) is Some && color_of(c.syntax_keyword@) is Some && color_of(c.syntax_identifier@) is Some && color_of(c.syntax_number@) is Some && color_of(c.syntax_parameter@) is Some && color_of(c.syntax_type@) is Some && color_of(c.syntax_string@) is None
            ==> document_theme(version, c) == Err::<Theme, Seq<char>>("invalid color for "@ + "syntax_string"@),
        version == EXPECTED_VERSION && color_of(c.background@) is Some && color_of(c.surface@) is Some && color_of(c.surface_raised@) is Some && color_of(c.border@) is Some && color_of(c.grid_header@) is Some && color_of(c.grid_header_text@) is Some && color_of(c.grid_border@) is Some && color_of(c.text@) is Some && color_of(c.muted@) is Some && color_of(c.accent@) is Some && color_of(c.action@) is Some && color_of(c.syntax_relation@) is Some && color_of(c.syntax_relation_alias@) is Some && color_of(c.syntax_column@) is Some && color_of(c.syntax_function@) is Some && color_of(c.success@) is Some && color_of(c.warning@) is Some && color_of(c.error@) is Some && color_of(c.selection@) is Some && color_of(c.mouse_selection@) is Some && color_of(c.row_updated@) is Some && color_of(c.row_deleted@) is Some && color_of(c.row_deleted_background@) is Some && color_of(c.row_inserted@) is Some && color_of(c.syntax_keyword@) is Some && color_of(c.syntax_identifier@) is Some && color_of(c.syntax_number@) is Some && color_of(c.syntax_parameter@) is Some && color_of(c.syntax_type@) is Some && color_of(c.syntax_string@) is Some && color_of(c.syntax_comment@) is None
            ==> document_theme(version, c) == Err::<Theme, Seq<char>>("invalid color for "@ + "syntax_comment"@),
        version == EXPECTED_VERSION && color_of(c.background@) is Some && color_of(c.surface@) is Some && color_of(c.surface_raised@) is Some && color_of(c.border@) is Some && color_of(c.grid_header@) is Some && color_of(c.grid_header_text@) is Some && color_of(c.grid_border@) is Some && color_of(c.text@) is Some && color_of(c.muted@) is Some && color_of(c.accent@) is Some && color_of(c.action@) is Some && color_of(c.syntax_relation@) is Some && color_of(c.syntax_relation_alias@) is Some && color_of(c.syntax_column@) is Some && color_of(c.syntax_function@) is Some && color_of(c.success@) is Some && color_of(c.warning@) is Some && color_of(c.error@) is Some && color_of(c.selection@) is Some && color_of(c.mouse_selection@) is Some && color_of(c.row_updated@) is Some && color_of(c.row_deleted@) is Some && color_of(c.row_deleted_background@) is Some && color_of(c.row_inserted@) is Some && color_of(c.syntax_keyword@) is Some && color_of(c.syntax_identifier@) is Some && color_of(c.syntax_number@) is Some && color_of(c.syntax_parameter@) is Some && color_of(c.syntax_type@) is Some && color_of(c.syntax_string@) is Some && color_of(c.syntax_comment@) is Some && color_of(c.syntax_operator@) is None
            ==> document_theme(version, c) == Err::<Theme, Seq<char>>("invalid color for "@ + "syntax_operator"@),
        version == EXPECTED_VERSION && color_of(c.background@) is Some && color_of(c.surface@) is Some && color_of(c.surface_raised@) is Some && color_of(c.border@) is Some && color_of(c.grid_header@) is Some && color_of(c.grid_header_text@) is Some && color_of(c.grid_border@) is Some && color_of(c.text@) is Some && color_of(c.muted@) is Some && color_of(c.accent@) is Some && color_of(c.action@) is Some && color_of(c.syntax_relation@) is Some && color_of(c.syntax_relation_alias@) is Some && color_of(c.syntax_column@) is Some && color_of(c.syntax_function@) is Some && color_of(c.success@) is Some && color_of(c.warning@) is Some && color_of(c.error@) is Some && color_of(c.selection@) is Some && color_of(c.mouse_selection@) is Some && color_of(c.row_updated@) is Some && color_of(c.row_deleted@) is Some && color_of(c.row_deleted_background@) is Some && color_of(c.row_inserted@) is Some && color_of(c.syntax_keyword@) is Some && color_of(c.syntax_identifier@) is Some && color_of(c.syntax_number@) is Some && color_of(c.syntax_parameter@) is Some && color_of(c.syntax_type@) is Some && color_of(c.syntax_string@) is Some && color_of(c.syntax_comment@) is Some && color_of(c.syntax_operator@) is Some && color_of(c.syntax_punctuation@) is None
            ==> document_theme(version, c) == Err::<Theme, Seq<char>>("invalid color for "@ + "syntax_punctuation"@),
{
    if version == EXPECTED_VERSION {
        if color_of(c.background@) is None {
            assert(first_invalid(c, 0) is None) by { reveal_with_fuel(first_invalid, 1); }
            lemma_refused_at(c, 0);
        }
        if color_of(c.background@) is Some && color_of(c.surface@) is None {
            assert(first_invalid(c, 1) is None) by { reveal_with_fuel(first_invalid, 2); }
            lemma_refused_at(c, 1);
        }
        if color_of(c.background@) is Some && color_of(c.surface@) is Some && color_of(c.surface_raised@) is None {
            assert(first_invalid(c, 2) is None) by { reveal_with_fuel(first_invalid, 3); }
            lemma_refused_at(c, 2);
        }
        if color_of(c.background@) is Some && color_of(c.surface@) is Some && color_of(c.surface_raised@) is Some && color_of(c.border@) is None {
            assert(first_invalid(c, 3) is None) by { reveal_with_fuel(first_invalid, 4); }
            lemma_refused_at(c, 3);
        }
        if color_of(c.background@) is Some && color_of(c.surface@) is Some && color_of(c.surface_raised@) is Some && color_of(c.border@) is Some && color_of(c.grid_header@) is None {
            assert(first_invalid(c, 4) is None) by { reveal_with_fuel(first_invalid, 5); }
            lemma_refused_at(c, 4);
        }
        if color_of(c.background@) is Some && color_of(c.surface@) is Some && color_of(c.surface_raised@) is Some && color_of(c.border@) is Some && color_of(c.grid_header@) is Some && color_of(c.grid_header_text@) is None {
            assert(first_invalid(c, 5) is None) by { reveal_with_fuel(first_invalid, 6); }
            lemma_refused_at(c, 5);
        }
        if color_of(c.background@) is Some && color_of(c.surface@) is Some && color_of(c.surface_raised@) is Some && color_of(c.border@) is Some && color_of(c.grid_header@) is Some && color_of(c.grid_header_text@) is Some && color_of(c.grid_border@) is None {
            assert(first_invalid(c, 6) is None) by { reveal_with_fuel(first_invalid, 7); }
            lemma_refused_at(c, 6);
        }
        if color_of(c.background@) is Some && color_of(c.surface@) is Some && color_of(c.surface_raised@) is Some && color_of(c.border@) is Some && color_of(c.grid_header@) is Some && color_of(c.grid_header_text@) is Some && color_of(c.grid_border@) is Some && color_of(c.text@) is None {
            assert(first_invalid(c, 7) is None) by { reveal_with_fuel(first_invalid, 8); }
            lemma_refused_at(c, 7);
        }
        if color_of(c.background@) is Some && color_of(c.surface@) is Some && color_of(c.surface_raised@) is Some && color_of(c.border@) is Some && color_of(c.grid_header@) is Some && color_of(c.grid_header_text@) is Some && color_of(c.grid_border@) is Some && color_of(c.text@) is Some && color_of(c.muted@) is None {
            assert(first_invalid(c, 8) is None) by { reveal_with_fuel(first_invalid, 9); }
            lemma_refused_at(c, 8);
        }
        if color_of(c.background@) is Some && color_of(c.surface@) is Some && color_of(c.surface_raised@) is Some && color_of(c.border@) is Some && color_of(c.grid_header@) is Some && color_of(c.grid_header_text@) is Some && color_of(c.grid_border@) is Some && color_of(c.text@) is Some && color_of(c.muted@) is Some && color_of(c.accent@) is None {
            assert(first_invalid(c, 9) is None) by { reveal_with_fuel(first_invalid, 10); }
            lemma_refused_at(c, 9);
        }
        if color_of(c.background@) is Some && color_of(c.surface@) is Some && color_of(c.surface_raised@) is Some && color_of(c.border@) is Some && color_of(c.grid_header@) is Some && color_of(c.grid_header_text@) is Some && color_of(c.grid_border@) is Some && color_of(c.text@) is Some && color_of(c.muted@) is Some && color_of(c.accent@) is Some && color_of(c.action@) is None {
            assert(first_invalid(c, 10) is None) by { reveal_with_fuel(first_invalid, 11); }
            lemma_refused_at(c, 10);
        }
        if color_of(c.background@) is Some && color_of(c.surface@) is Some && color_of(c.surface_raised@) is Some && color_of(c.border@) is Some && color_of(c.grid_header@) is Some && color_of(c.grid_header_text@) is Some && color_of(c.grid_border@) is Some && color_of(c.text@) is Some && color_of(c.muted@) is Some && color_of(c.accent@) is Some && color_of(c.action@) is Some && color_of(c.syntax_relation@) is None {
            assert(first_invalid(c, 11) is None) by { reveal_with_fuel(first_invalid, 12); }
            lemma_refused_at(c, 11);
        }
        if color_of(c.background@) is Some && color_of(c.surface@) is Some && color_of(c.surface_raised@) is Some && color_of(c.border@) is Some && color_of(c.grid_header@) is Some && color_of(c.grid_header_text@) is Some && color_of(c.grid_border@) is Some && color_of(c.text@) is Some && color_of(c.muted@) is Some && color_of(c.accent@) is Some && color_of(c.action@) is Some && color_of(c.syntax_relation@) is Some && color_of(c.syntax_relation_alias@) is None {
            assert(first_invalid(c, 12) is None) by { reveal_with_fuel(first_invalid, 13); }
            lemma_refused_at(c, 12);
        }
        if color_of(c.background@) is Some && color_of(c.surface@) is Some && color_of(c.surface_raised@) is Some && color_of(c.border@) is Some && color_of(c.grid_header@) is Some && color_of(c.grid_header_text@) is Some && color_of(c.grid_border@) is Some && color_of(c.text@) is Some && color_of(c.muted@) is Some && color_of(c.accent@) is Some && color_of(c.action@) is Some && color_of(c.syntax_relation@) is Some && color_of(c.syntax_relation_alias@) is Some && color_of(c.syntax_column@) is None {
            assert(first_invalid(c, 13) is None) by { reveal_with_fuel(first_invalid, 14); }
            lemma_refused_at(c, 13);
        }
        if color_of(c.background@) is Some && color_of(c.surface@) is Some && color_of(c.surface_raised@) is Some && color_of(c.border@) is Some && color_of(c.grid_header@) is Some && color_of(c.grid_header_text@) is Some && color_of(c.grid_border@) is Some && color_of(c.text@) is Some && color_of(c.muted@) is Some && color_of(c.accent@) is Some && color_of(c.action@) is Some && color_of(c.syntax_relation@) is Some && color_of(c.syntax_relation_alias@) is Some && color_of(c.syntax_column@) is Some && color_of(c.syntax_function@) is None {
            assert(first_invalid(c, 14) is None) by { reveal_with_fuel(first_invalid, 15); }
            lemma_refused_at(c, 14);
        }
        if color_of(c.background@) is Some && color_of(c.surface@) is Some && color_of(c.surface_raised@) is Some && color_of(c.border@) is Some && color_of(c.grid_header@) is Some && color_of(c.grid_header_text@) is Some && color_of(c.grid_border@) is Some && color_of(c.text@) is Some && color_of(c.muted@) is Some && color_of(c.accent@) is Some && color_of(c.action@) is Some && color_of(c.syntax_relation@) is Some && color_of(c.syntax_relation_alias@) is Some && color_of(c.syntax_column@) is Some && color_of(c.syntax_function@) is Some && color_of(c.success@) is None {
            assert(first_invalid(c, 15) is None) by { reveal_with_fuel(first_invalid, 16); }
            lemma_refused_at(c, 15);
        }
        if color_of(c.background@) is Some && color_of(c.surface@) is Some && color_of(c.surface_raised@) is Some && color_of(c.border@) is Some && color_of(c.grid_header@) is Some && color_of(c.grid_header_text@) is Some && color_of(c.grid_border@) is Some && color_of(c.text@) is Some && color_of(c.muted@) is Some && color_of(c.accent@) is Some && color_of(c.action@) is Some && color_of(c.syntax_relation@) is Some && color_of(c.syntax_relation_alias@) is Some && color_of(c.syntax_column@) is Some && color_of(c.syntax_function@) is Some && color_of(c.success@) is Some && color_of(c.warning@) is None {
            assert(first_invalid(c, 16) is None) by { reveal_with_fuel(first_invalid, 17); }
            lemma_refused_at(c, 16);
        }
        if color_of(c.background@) is Some && color_of(c.surface@) is Some && color_of(c.surface_raised@) is Some && color_of(c.border@) is Some && color_of(c.grid_header@) is Some && color_of(c.grid_header_text@) is Some && color_of(c.grid_border@) is Some && color_of(c.text@) is Some && color_of(c.muted@) is Some && color_of(c.accent@) is Some && color_of(c.action@) is Some && color_of(c.syntax_relation@) is Some && color_of(c.syntax_relation_alias@) is Some && color_of(c.syntax_column@) is Some && color_of(c.syntax_function@) is Some && color_of(c.success@) is Some && color_of(c.warning@) is Some && color_of(c.error@) is None {
            assert(first_invalid(c, 17) is None) by { reveal_with_fuel(first_invalid, 18); }
            lemma_refused_at(c, 17);
        }
        if color_of(c.background@) is Some && color_of(c.surface@) is Some && color_of(c.surface_raised@) is Some && color_of(c.border@) is Some && color_of(c.grid_header@) is Some && color_of(c.grid_header_text@) is Some && color_of(c.grid_border@) is Some && color_of(c.text@) is Some && color_of(c.muted@) is Some && color_of(c.accent@) is Some && color_of(c.action@) is Some && color_of(c.syntax_relation@) is Some && color_of(c.syntax_relation_alias@) is Some && color_of(c.syntax_column@) is Some && color_of(c.syntax_function@) is Some && color_of(c.success@) is Some && color_of(c.warning@) is Some && color_of(c.error@) is Some && color_of(c.selection@) is None {
            assert(first_invalid(c, 18) is None) by { reveal_with_fuel(first_invalid, 19); }
            lemma_refused_at(c, 18);
        }
        if color_of(c.background@) is Some && color_of(c.surface@) is Some && color_of(c.surface_raised@) is Some && color_of(c.border@) is Some && color_of(c.grid_header@) is Some && color_of(c.grid_header_text@) is Some && color_of(c.grid_border@) is Some && color_of(c.text@) is Some && color_of(c.muted@) is Some && color_of(c.accent@) is Some && color_of(c.action@) is Some && color_of(c.syntax_relation@) is Some && color_of(c.syntax_relation_alias@) is Some && color_of(c.syntax_column@) is Some && color_of(c.syntax_function@) is Some && color_of(c.success@) is Some && color_of(c.warning@) is Some && color_of(c.error@) is Some && color_of(c.selection@) is Some && color_of(c.mouse_selection@) is None {
            assert(first_invalid(c, 19) is None) by { reveal_with_fuel(first_invalid, 20); }
            lemma_refused_at(c, 19);
        }
        if color_of(c.background@) is Some && color_of(c.surface@) is Some && color_of(c.surface_raised@) is Some && color_of(c.border@) is Some && color_of(c.grid_header@) is Some && color_of(c.grid_header_text@) is Some && color_of(c.grid_border@) is Some && color_of(c.text@) is Some && color_of(c.muted@) is Some && color_of(c.accent@) is Some && color_of(c.action@) is Some && color_of(c.syntax_relation@) is Some && color_of(c.syntax_relation_alias@) is Some && color_of(c.syntax_column@) is Some && color_of(c.syntax_function@) is Some && color_of(c.success@) is Some && color_of(c.warning@) is Some && color_of(c.error@) is Some && color_of(c.selection@) is Some && color_of(c.mouse_selection@) is Some && color_of(c.row_updated@) is None {
            assert(first_invalid(c, 20) is None) by { reveal_with_fuel(first_invalid, 21); }
            lemma_refused_at(c, 20);
        }
        if color_of(c.background@) is Some && color_of(c.surface@) is Some && color_of(c.surface_raised@) is Some && color_of(c.border@) is Some && color_of(c.grid_header@) is Some && color_of(c.grid_header_text@) is Some && color_of(c.grid_border@) is Some && color_of(c.text@) is Some && color_of(c.muted@) is Some && color_of(c.accent@) is Some && color_of(c.action@) is Some && color_of(c.syntax_relation@) is Some && color_of(c.syntax_relation_alias@) is Some && color_of(c.syntax_column@) is Some && color_of(c.syntax_function@) is Some && color_of(c.success@) is Some && color_of(c.warning@) is Some && color_of(c.error@) is Some && color_of(c.selection@) is Some && color_of(c.mouse_selection@) is Some && color_of(c.row_updated@) is Some && color_of(c.row_deleted@) is None {
            assert(first_invalid(c, 21) is None) by { reveal_with_fuel(first_invalid, 22); }
            lemma_refused_at(c, 21);
        }
        if color_of(c.background@) is Some && color_of(c.surface@) is Some && color_of(c.surface_raised@) is Some && color_of(c.border@) is Some && color_of(c.grid_header@) is Some && color_of(c.grid_header_text@) is Some && color_of(c.grid_border@) is Some && color_of(c.text@) is Some && color_of(c.muted@) is Some && color_of(c.accent@) is Some && color_of(c.action@) is Some && color_of(c.syntax_relation@) is Some && color_of(c.syntax_relation_alias@) is Some && color_of(c.syntax_column@) is Some && color_of(c.syntax_function@) is Some && color_of(c.success@) is Some && color_of(c.warning@) is Some && color_of(c.error@) is Some && color_of(c.selection@) is Some && color_of(c.mouse_selection@) is Some && color_of(c.row_updated@) is Some && color_of(c.row_deleted@) is Some && color_of(c.row_deleted_background@) is None {
            assert(first_invalid(c, 22) is None) by { reveal_with_fuel(first_invalid, 23); }
            lemma_refused_at(c, 22);
        }
        if color_of(c.background@) is Some && color_of(c.surface@) is Some && color_of(c.surface_raised@) is Some && color_of(c.border@) is Some && color_of(c.grid_header@) is Some && color_of(c.grid_header_text@) is Some && color_of(c.grid_border@) is Some && color_of(c.text@) is Some && color_of(c.muted@) is Some && color_of(c.accent@) is Some && color_of(c.action@) is Some && color_of(c.syntax_relation@) is Some && color_of(c.syntax_relation_alias@) is Some && color_of(c.syntax_column@) is Some && color_of(c.syntax_function@) is Some && color_of(c.success@) is Some && color_of(c.warning@) is Some && color_of(c.error@) is Some && color_of(c.selection@) is Some && color_of(c.mouse_selection@) is Some && color_of(c.row_updated@) is Some && color_of(c.row_deleted@) is Some && color_of(c.row_deleted_background@) is Some && color_of(c.row_inserted@) is None {
            assert(first_invalid(c, 23) is None) by { reveal_with_fuel(first_invalid, 24); }
            lemma_refused_at(c, 23);
        }
        if color_of(c.background@) is Some && color_of(c.surface@) is Some && color_of(c.surface_raised@) is Some && color_of(c.border@) is Some && color_of(c.grid_header@) is Some && color_of(c.grid_header_text@) is Some && color_of(c.grid_border@) is Some && color_of(c.text@) is Some && color_of(c.muted@) is Some && color_of(c.accent@) is Some && color_of(c.action@) is Some && color_of(c.syntax_relation@) is Some && color_of(c.syntax_relation_alias@) is Some && color_of(c.syntax_column@) is Some && color_of(c.syntax_function@) is Some && color_of(c.success@) is Some && color_of(c.warning@) is Some && color_of(c.error@) is Some && color_of(c.selection@) is Some && color_of(c.mouse_selection@) is Some && color_of(c.row_updated@) is Some && color_of(c.row_deleted@) is Some && color_of(c.row_deleted_background@) is Some && color_of(c.row_inserted@) is Some && color_of(c.syntax_keyword@) is None {
            assert(first_invalid(c, 24) is None) by { reveal_with_fuel(first_invalid, 25); }
            lemma_refused_at(c, 24);
        }
        if color_of(c.background@) is Some && color_of(c.surface@) is Some && color_of(c.surface_raised@) is Some && color_of(c.border@) is Some && color_of(c.grid_header@) is Some && color_of(c.grid_header_text@) is Some && color_of(c.grid_border@) is Some && color_of(c.text@) is Some && color_of(c.muted@) is Some && color_of(c.accent@) is Some && color_of(c.action@) is Some && color_of(c.syntax_relation@) is Some && color_of(c.syntax_relation_alias@) is Some && color_of(c.syntax_column@) is Some && color_of(c.syntax_function@) is Some && color_of(c.success@) is Some && color_of(c.warning@) is Some && color_of(c.error@) is Some && color_of(c.selection@) is Some && color_of(c.mouse_selection@) is Some && color_of(c.row_updated@) is Some && color_of(c.row_deleted@) is Some && color_of(c.row_deleted_background@) is Some && color_of(c.row_inserted@) is Some && color_of(c.syntax_keyword@) is Some && color_of(c.syntax_identifier@) is None {
            assert(first_invalid(c, 25) is None) by { reveal_with_fuel(first_invalid, 26); }
            lemma_refused_at(c, 25);
        }
        if color_of(c.background@) is Some && color_of(c.surface@) is Some && color_of(c.surface_raised@) is Some && color_of(c.border@) is Some && color_of(c.grid_header@) is Some && color_of(c.grid_header_text@) is Some && color_of(c.grid_border@) is Some && color_of(c.text@) is Some && color_of(c.muted@) is Some && color_of(c.accent@) is Some && color_of(c.action@) is Some && color_of(c.syntax_relation@) is Some && color_of(c.syntax_relation_alias@) is Some && color_of(c.syntax_column@) is Some && color_of(c.syntax_function@) is Some && color_of(c.success@) is Some && color_of(c.warning@) is Some && color_of(c.error@) is Some && color_of(c.selection@) is Some && color_of(c.mouse_selection@) is Some && color_of(c.row_updated@) is Some && color_of(c.row_deleted@) is Some && color_of(c.row_deleted_background@) is Some && color_of(c.row_inserted@) is Some && color_of(c.syntax_keyword@) is Some && color_of(c.syntax_identifier@) is Some && color_of(c.syntax_number@) is None {
            assert(first_invalid(c, 26) is None) by { reveal_with_fuel(first_invalid, 27); }
            lemma_refused_at(c, 26);
        }
        if color_of(c.background@) is Some && color_of(c.surface@) is Some && color_of(c.surface_raised@) is Some && color_of(c.border@) is Some && color_of(c.grid_header@) is Some && color_of(c.grid_header_text@) is Some && color_of(c.grid_border@) is Some && color_of(c.text@) is Some && color_of(c.muted@) is Some && color_of(c.accent@) is Some && color_of(c.action@) is Some && color_of(c.syntax_relation@) is Some && color_of(c.syntax_relation_alias@) is Some && color_of(c.syntax_column@) is Some && color_of(c.syntax_function@) is Some && color_of(c.success@) is Some && color_of(c.warning@) is Some && color_of(c.error@) is Some && color_of(c.selection@) is Some && color_of(c.mouse_selection@) is Some && color_of(c.row_updated@) is Some && color_of(c.row_deleted@) is Some && color_of(c.row_deleted_background@) is Some && color_of(c.row_inserted@) is Some && color_of(c.syntax_keyword@) is Some && color_of(c.syntax_identifier@) is Some && color_of(c.syntax_number@) is Some && color_of(c.syntax_parameter@) is None {
            assert(first_invalid(c, 27) is None) by { reveal_with_fuel(first_invalid, 28); }
            lemma_refused_at(c, 27);
        }
        if color_of(c.background@) is Some && color_of(c.surface@) is Some && color_of(c.surface_raised@) is Some && color_of(c.border@) is Some && color_of(c.grid_header@) is Some && color_of(c.grid_header_text@) is Some && color_of(c.grid_border@) is Some && color_of(c.text@) is Some && color_of(c.muted@) is Some && color_of(c.accent@) is Some && color_of(c.action@) is Some && color_of(c.syntax_relation@) is Some && color_of(c.syntax_relation_alias@) is Some && color_of(c.syntax_column@) is Some && color_of(c.syntax_function@) is Some && color_of(c.success@) is Some && color_of(c.warning@) is Some && color_of(c.error@) is Some && color_of(c.selection@) is Some && color_of(c.mouse_selection@) is Some && color_of(c.row_updated@) is Some && color_of(c.row_deleted@) is Some && color_of(c.row_deleted_background@) is Some && color_of(c.row_inserted@) is Some && color_of(c.syntax_keyword@) is Some && color_of(c.syntax_identifier@) is Some && color_of(c.syntax_number@) is Some && color_of(c.syntax_parameter@) is Some && color_of(c.syntax_type@) is None {
            assert(first_invalid(c, 28) is None) by { reveal_with_fuel(first_invalid, 29); }
            lemma_refused_at(c, 28);
        }
        if color_of(c.background@) is Some && color_of(c.surface@) is Some && color_of(c.surface_raised@) is Some && color_of(c.border@) is Some && color_of(c.grid_header@) is Some && color_of(c.grid_header_text@) is Some && color_of(c.grid_border@) is Some && color_of(c.text@) is Some && color_of(c.muted@) is Some && color_of(c.accent@) is Some && color_of(c.action@) is Some && color_of(c.syntax_relation@) is Some && color_of(c.syntax_relation_alias@) is Some && color_of(c.syntax_column@) is Some && color_of(c.syntax_function@) is Some && color_of(c.success@) is Some && color_of(c.warning@) is Some && color_of(c.error@) is Some && color_of(c.selection@) is Some && color_of(c.mouse_selection@) is Some && color_of(c.row_updated@) is Some && color_of(c.row_deleted@) is Some && color_of(c.row_deleted_background@) is Some && color_of(c.row_inserted@) is Some && color_of(c.syntax_keyword@) is Some && color_of(c.syntax_identifier@) is Some && color_of(c.syntax_number@) is Some && color_of(c.syntax_parameter@) is Some && color_of(c.syntax_type@) is Some && color_of(c.syntax_string@) is None {
            assert(first_invalid(c, 29) is None) by { reveal_with_fuel(first_invalid, 30); }
            lemma_refused_at(c, 29);
        }
        if color_of(c.background@) is Some && color_of(c.surface@) is Some && color_of(c.surface_raised@) is Some && color_of(c.border@) is Some && color_of(c.grid_header@) is Some && color_of(c.grid_header_text@) is Some && color_of(c.grid_border@) is Some && color_of(c.text@) is Some && color_of(c.muted@) is Some && color_of(c.accent@) is Some && color_of(c.action@) is Some && color_of(c.syntax_relation@) is Some && color_of(c.syntax_relation_alias@) is Some && color_of(c.syntax_column@) is Some && color_of(c.syntax_function@) is Some && color_of(c.success@) is Some && color_of(c.warning@) is Some && color_of(c.error@) is Some && color_of(c.selection@) is Some && color_of(c.mouse_selection@) is Some && color_of(c.row_updated@) is Some && color_of(c.row_deleted@) is Some && color_of(c.row_deleted_background@) is Some && color_of(c.row_inserted@) is Some && color_of(c.syntax_keyword@) is Some && color_of(c.syntax_identifier@) is Some && color_of(c.syntax_number@) is Some && color_of(c.syntax_parameter@) is Some && color_of(c.syntax_type@) is Some && color_of(c.syntax_string@) is Some && color_of(c.syntax_comment@) is None {
            assert(first_invalid(c, 30) is None) by { reveal_with_fuel(first_invalid, 31); }
            lemma_refused_at(c, 30);
        }
        if color_of(c.background@) is Some && color_of(c.surface@) is Some && color_of(c.surface_raised@) is Some && color_of(c.border@) is Some && color_of(c.grid_header@) is Some && color_of(c.grid_header_text@) is Some && color_of(c.grid_border@) is Some && color_of(c.text@) is Some && color_of(c.muted@) is Some && color_of(c.accent@) is Some && color_of(c.action@) is Some && color_of(c.syntax_relation@) is Some && color_of(c.syntax_relation_alias@) is Some && color_of(c.syntax_column@) is Some && color_of(c.syntax_function@) is Some && color_of(c.success@) is Some && color_of(c.warning@) is Some && color_of(c.error@) is Some && color_of(c.selection@) is Some && color_of(c.mouse_selection@) is Some && color_of(c.row_updated@) is Some && color_of(c.row_deleted@) is Some && color_of(c.row_deleted_background@) is Some && color_of(c.row_inserted@) is Some && color_of(c.syntax_keyword@) is Some && color_of(c.syntax_identifier@) is Some && color_of(c.syntax_number@) is Some && color_of(c.syntax_parameter@) is Some && color_of(c.syntax_type@) is Some && color_of(c.syntax_string@) is Some && color_of(c.syntax_comment@) is Some && color_of(c.syntax_operator@) is None {
            assert(first_invalid(c, 31) is None) by { reveal_with_fuel(first_invalid, 32); }
            lemma_refused_at(c, 31);
        }
        if color_of(c.background@) is Some && color_of(c.surface@) is Some && color_of(c.surface_raised@) is Some && color_of(c.border@) is Some && color_of(c.grid_header@) is Some && color_of(c.grid_header_text@) is Some && color_of(c.grid_border@) is Some && color_of(c.text@) is Some && color_of(c.muted@) is Some && color_of(c.accent@) is Some && color_of(c.action@) is Some && color_of(c.syntax_relation@) is Some && color_of(c.syntax_relation_alias@) is Some && color_of(c.syntax_column@) is Some && color_of(c.syntax_function@) is Some && color_of(c.success@) is Some && color_of(c.warning@) is Some && color_of(c.error@) is Some && color_of(c.selection@) is Some && color_of(c.mouse_selection@) is Some && color_of(c.row_updated@) is Some && color_of(c.row_deleted@) is Some && color_of(c.row_deleted_background@) is Some && color_of(c.row_inserted@) is Some && color_of(c.syntax_keyword@) is Some && color_of(c.syntax_identifier@) is Some && color_of(c.syntax_number@) is Some && color_of(c.syntax_parameter@) is Some && color_of(c.syntax_type@) is Some && color_of(c.syntax_string@) is Some && color_of(c.syntax_comment@) is Some && color_of(c.syntax_operator@) is Some && color_of(c.syntax_punctuation@) is None {
            assert(first_invalid(c, 32) is None) by { reveal_with_fuel(first_invalid, 33); }
            lemma_refused_at(c, 32);
        }
    }
}

proof fn lemma_refused_at(c: ThemeColors, k: int)
    requires
        0 <= k < 33,
        first_invalid(c, k) is None,
        color_of(color_value(c, k)) is None,
    ensures
        document_theme(EXPECTED_VERSION, c) == Err::<Theme, Seq<char>>(invalid_color(color_name(k))),
{
    assert(first_invalid(c, k + 1) == Some(k));
    lemma_first_invalid_stays(c, k + 1, 33, k);
}

} // verus!
