//! Mouse hit testing: the clickable regions registered while drawing, later
//! ones on top of earlier ones.
use vstd::prelude::*;
use crate::geometry::{Rect, contains};

verus! {

/// A clickable area and what a click there means.
#[derive(Clone, Copy, Debug)]
pub struct HitRegion<T> {
    pub area: Rect,
    pub target: T,
}

/// Index of the last region that holds the cell at `column`, `row`: what was
/// drawn last lies on top.
pub open spec fn topmost<T>(regions: Seq<HitRegion<T>>, column: u16, row: u16) -> Option<int>
    decreases regions.len(),
{
    if regions.len() == 0 {
        None
    } else if regions.last().area.spec_contains(column, row) {
        Some(regions.len() - 1)
    } else {
        topmost(regions.drop_last(), column, row)
    }
}

/// What a click at `column`, `row` hits: the target of the topmost region
/// there, if any.
pub fn target_at<T>(regions: &[HitRegion<T>], column: u16, row: u16) -> (r: Option<&T>)
    ensures
        match topmost(regions@, column, row) {
            Some(i) => r matches Some(t) && *t == regions@[i].target,
            None => r is None,
        },
{
    let mut k: usize = regions.len();
    assert(regions@.take(k as int) =~= regions@);
    while k > 0
        invariant
            k <= regions@.len(),
            topmost(regions@, column, row) == topmost(regions@.take(k as int), column, row),
        decreases k,
    {
        let region = &regions[k - 1];
        if contains(region.area, column, row) {
            assert(regions@.take(k as int).last() == regions@[k - 1]);
            return Some(&region.target);
        }
        assert(regions@.take(k as int).drop_last() =~= regions@.take(k as int - 1));
        k = k - 1;
    }
    None
}

/// Law: a region pushed last wins where it lies; pushing a region elsewhere
/// changes nothing at a cell; and a cell hits nothing exactly when no region
/// holds it.
pub proof fn law_last_pushed_region_wins<T>(regions: Seq<HitRegion<T>>, region: HitRegion<T>, column: u16, row: u16)
    ensures
        region.area.spec_contains(column, row) ==> topmost(regions.push(region), column, row) == Some(regions.len() as int),
        !region.area.spec_contains(column, row) ==> topmost(regions.push(region), column, row) == topmost(regions, column, row),
        topmost(regions, column, row) is None <==> forall|i: int| 0 <= i < regions.len() ==> !(#[trigger] regions[i]).area.spec_contains(column, row),
    decreases regions.len(),
{
    assert(regions.push(region).drop_last() =~= regions);
    if regions.len() > 0 {
        law_last_pushed_region_wins(regions.drop_last(), regions.last(), column, row);
        assert(regions.drop_last().push(regions.last()) =~= regions);
        assert forall|i: int| 0 <= i < regions.len() - 1 implies #[trigger] regions.drop_last()[i] == regions[i] by {}
    }
}

} // verus!
