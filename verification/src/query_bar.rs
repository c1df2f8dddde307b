//! Height of the data query bar: its WHERE and ORDER BY fields stand side by side
//! when the bar is wide enough, one above the other otherwise.
use vstd::prelude::*;
use crate::execution::SqlDialect;
use crate::highlight::HighlightSpan;
use crate::text::{owned, same_text};

verus! {

/// Rows of one query field.
pub const FIELD_HEIGHT: u16 = 2;

/// Narrowest bar that shows the two fields side by side.
pub const HORIZONTAL_MIN_WIDTH: u16 = 56;

pub open spec fn spec_fields_height(width: u16) -> u16 {
    if width >= HORIZONTAL_MIN_WIDTH { FIELD_HEIGHT } else { (2 * FIELD_HEIGHT) as u16 }
}

/// Rows the fields take at `width`.
#[verifier::when_used_as_spec(spec_fields_height)]
pub fn fields_height(width: u16) -> (r: u16)
    ensures
        r == spec_fields_height(width),
{
    if width >= HORIZONTAL_MIN_WIDTH {
        FIELD_HEIGHT
    } else {
        FIELD_HEIGHT * 2
    }
}

/// Rows of the whole bar: the fields, plus one row for a message when the query
/// has an error or querying is unavailable.
pub fn height(has_error: bool, unavailable: bool, width: u16) -> (r: u16)
    ensures
        r == fields_height(width) + (if has_error || unavailable { 1int } else { 0int }),
{
    fields_height(width) + if has_error || unavailable { 1 } else { 0 }
}

/// Which field of the query bar.
#[derive(Clone, Copy, Debug, PartialEq, Eq, Structural)]
pub enum DataQueryInput {
    Where,
    OrderBy,
}

/// Highlights last computed for a field: for which text and dialect.
#[derive(Clone, Debug)]
pub struct HighlightEntry {
    pub text: String,
    pub dialect: SqlDialect,
    pub spans: Vec<HighlightSpan>,
}

/// The highlights of the two fields, kept until their text or dialect changes.
#[derive(Clone, Debug)]
pub struct QueryBarHighlightCache {
    pub where_entry: Option<HighlightEntry>,
    pub order_by_entry: Option<HighlightEntry>,
}

impl QueryBarHighlightCache {
    pub open spec fn entry(&self, input: DataQueryInput) -> Option<HighlightEntry> {
        match input {
            DataQueryInput::Where => self.where_entry,
            DataQueryInput::OrderBy => self.order_by_entry,
        }
    }

    /// Nothing highlighted yet.
    pub fn new() -> (c: Self)
        ensures
            c.where_entry is None && c.order_by_entry is None,
    {
        QueryBarHighlightCache { where_entry: None, order_by_entry: None }
    }

    /// The highlights of `input` when they were computed for `text` in `dialect`.
    pub fn cached(&self, input: DataQueryInput, text: &str, dialect: SqlDialect) -> (r: Option<&Vec<HighlightSpan>>)
        ensures
            match self.entry(input) {
                Some(e) => if e.text@ == text@ && e.dialect == dialect { r == Some(&e.spans) } else { r is None },
                None => r is None,
            },
    {
        let entry = match input {
            DataQueryInput::Where => &self.where_entry,
            DataQueryInput::OrderBy => &self.order_by_entry,
        };
        match entry {
            Some(e) => if same_text(e.text.as_str(), text) && e.dialect == dialect { Some(&e.spans) } else { None },
            None => None,
        }
    }

    /// Records the highlights of `input` for `text` in `dialect`; the other field
    /// keeps its entry.
    pub fn store(&mut self, input: DataQueryInput, text: &str, dialect: SqlDialect, spans: Vec<HighlightSpan>)
        ensures
            final(self).entry(input) matches Some(e) && e.text@ == text@ && e.dialect == dialect && e.spans == spans,
            input == DataQueryInput::Where ==> final(self).order_by_entry == old(self).order_by_entry,
            input == DataQueryInput::OrderBy ==> final(self).where_entry == old(self).where_entry,
    {
        let entry = HighlightEntry { text: owned(text), dialect, spans };
        match input {
            DataQueryInput::Where => self.where_entry = Some(entry),
            DataQueryInput::OrderBy => self.order_by_entry = Some(entry),
        }
    }
}

} // verus!
