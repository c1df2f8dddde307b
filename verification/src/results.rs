//! Checks on query results before they are shown as a table.
use vstd::prelude::*;

verus! {

broadcast use vstd::string::group_string_axioms;

/// `str::to_lowercase` of a string (Unicode lowercase mapping, the same on every machine).
pub uninterp spec fn lower_case(s: Seq<char>) -> Seq<char>;

/// `str::to_lowercase`.
#[verifier::external_body]
fn lowercase(s: &str) -> (r: String)
    ensures
        r@ == lower_case(s@),
{
    s.to_lowercase()
}

/// The text of each string.
pub open spec fn texts(v: Seq<String>) -> Seq<Seq<char>> {
    Seq::new(v.len(), |i: int| v[i]@)
}

/// Each column name in lowercase.
pub open spec fn lowered_names(columns: Seq<&str>) -> Seq<Seq<char>> {
    Seq::new(columns.len(), |i: int| lower_case(columns[i]@))
}

/// Two entries of `names` are equal.
pub open spec fn repeats(names: Seq<Seq<char>>) -> bool {
    exists|i: int, j: int| 0 <= i < j < names.len() && #[trigger] names[i] == #[trigger] names[j]
}

/// Whether some name occurs twice.
pub fn names_repeat(names: &[String]) -> (r: bool)
    ensures
        r == repeats(texts(names@)),
{
    let ghost v = texts(names@);
    let mut j: usize = 0;
    while j < names.len()
        invariant
            j <= names@.len(),
            v == texts(names@),
            forall|a: int, b: int| 0 <= a < b < j ==> v[a] != v[b],
        decreases names@.len() - j,
    {
        let mut i: usize = 0;
        while i < j
            invariant
                i <= j < names@.len(),
                v == texts(names@),
                forall|a: int| 0 <= a < i ==> v[a] != v[j as int],
            decreases j - i,
        {
            if crate::text::same_text(names[i].as_str(), names[j].as_str()) {
                assert(v[i as int] == v[j as int]);
                return true;
            }
            i = i + 1;
        }
        j = j + 1;
    }
    false
}

/// Whether two result columns share a name when case is ignored, which makes
/// addressing them by name ambiguous.
pub fn tabular_column_names_ambiguous(columns: &[&str]) -> (r: bool)
    ensures
        r == repeats(lowered_names(columns@)),
{
    let mut lowered: Vec<String> = Vec::new();
    let mut i: usize = 0;
    while i < columns.len()
        invariant
            i <= columns@.len(),
            lowered@.len() == i,
            texts(lowered@) == lowered_names(columns@.take(i as int)),
        decreases columns@.len() - i,
    {
        let ghost before = lowered@;
        lowered.push(lowercase(columns[i]));
        assert forall|k: int| 0 <= k < i implies #[trigger] lowered@[k] == before[k] by {}
        assert forall|k: int| 0 <= k < i implies lowered@[k]@ == lower_case(columns@[k]@) by {
            assert(texts(before)[k] == lowered_names(columns@.take(i as int))[k]);
        }
        i = i + 1;
        assert(texts(lowered@) =~= lowered_names(columns@.take(i as int)));
    }
    assert(columns@.take(i as int) =~= columns@);
    names_repeat(lowered.as_slice())
}

} // verus!
