//! Syntax highlight kinds and the theme colour each one is drawn in.
use vstd::prelude::*;
use crate::editor::TextRange;

verus! {

/// What a piece of SQL is, as the highlighter classifies it.
#[derive(Clone, Copy, Debug, PartialEq, Eq, Structural)]
pub enum HighlightKind {
    Keyword,
    Identifier,
    Relation,
    RelationAlias,
    Column,
    Type,
    Function,
    String,
    Number,
    Comment,
    Operator,
    Punctuation,
    Parameter,
    Plain,
}

/// The theme's syntax colours.
#[derive(Clone, Copy, Debug, PartialEq, Eq, Structural)]
pub enum SyntaxColor {
    Keyword,
    Identifier,
    Relation,
    RelationAlias,
    Column,
    Type,
    Function,
    String,
    Number,
    Comment,
    Operator,
    Punctuation,
    Parameter,
    Plain,
}

/// A highlighted byte range.
#[derive(Clone, Copy, Debug, PartialEq, Eq, Structural)]
pub struct HighlightSpan {
    pub range: TextRange,
    pub kind: HighlightKind,
}

/// The colour of each kind: the one of the same name.
pub open spec fn color_of(kind: HighlightKind) -> SyntaxColor {
    match kind {
        HighlightKind::Keyword => SyntaxColor::Keyword,
        HighlightKind::Identifier => SyntaxColor::Identifier,
        HighlightKind::Relation => SyntaxColor::Relation,
        HighlightKind::RelationAlias => SyntaxColor::RelationAlias,
        HighlightKind::Column => SyntaxColor::Column,
        HighlightKind::Type => SyntaxColor::Type,
        HighlightKind::Function => SyntaxColor::Function,
        HighlightKind::String => SyntaxColor::String,
        HighlightKind::Number => SyntaxColor::Number,
        HighlightKind::Comment => SyntaxColor::Comment,
        HighlightKind::Operator => SyntaxColor::Operator,
        HighlightKind::Punctuation => SyntaxColor::Punctuation,
        HighlightKind::Parameter => SyntaxColor::Parameter,
        HighlightKind::Plain => SyntaxColor::Plain,
    }
}

/// The theme colour a highlight kind is drawn in.
pub fn syntax_color(kind: HighlightKind) -> (c: SyntaxColor)
    ensures
        c == color_of(kind),
{
    match kind {
        HighlightKind::Keyword => SyntaxColor::Keyword,
        HighlightKind::Identifier => SyntaxColor::Identifier,
        HighlightKind::Relation => SyntaxColor::Relation,
        HighlightKind::RelationAlias => SyntaxColor::RelationAlias,
        HighlightKind::Column => SyntaxColor::Column,
        HighlightKind::Type => SyntaxColor::Type,
        HighlightKind::Function => SyntaxColor::Function,
        HighlightKind::String => SyntaxColor::String,
        HighlightKind::Number => SyntaxColor::Number,
        HighlightKind::Comment => SyntaxColor::Comment,
        HighlightKind::Operator => SyntaxColor::Operator,
        HighlightKind::Punctuation => SyntaxColor::Punctuation,
        HighlightKind::Parameter => SyntaxColor::Parameter,
        HighlightKind::Plain => SyntaxColor::Plain,
    }
}

/// Law: different kinds get different colours.
pub proof fn law_colors_tell_kinds_apart(a: HighlightKind, b: HighlightKind)
    requires
        a != b,
    ensures
        color_of(a) != color_of(b),
{
}

/// The kind of the first span covering bytes `start..end`, plain when none does.
pub open spec fn kind_at(spans: Seq<HighlightSpan>, start: int, end: int) -> HighlightKind
    decreases spans.len(),
{
    if spans.len() == 0 {
        HighlightKind::Plain
    } else if spans[0].range.start <= start && spans[0].range.end >= end {
        spans[0].kind
    } else {
        kind_at(spans.drop_first(), start, end)
    }
}

/// Finds the kind covering `start..end`.
pub fn highlight_at(spans: &[HighlightSpan], start: u128, end: u128) -> (k: HighlightKind)
    ensures
        k == kind_at(spans@, start as int, end as int),
{
    let mut i: usize = 0;
    assert(spans@.skip(0) =~= spans@);
    while i < spans.len()
        invariant
            i <= spans@.len(),
            kind_at(spans@, start as int, end as int) == kind_at(spans@.skip(i as int), start as int, end as int),
        decreases spans@.len() - i,
    {
        assert(spans@.skip(i as int).drop_first() =~= spans@.skip(i as int + 1));
        let span = spans[i];
        if span.range.start as u128 <= start && span.range.end as u128 >= end {
            return span.kind;
        }
        i = i + 1;
    }
    HighlightKind::Plain
}

} // verus!
