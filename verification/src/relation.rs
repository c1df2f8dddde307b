//! Where shown relation data comes from.
use vstd::prelude::*;

verus! {

/// Whether relation data is live or a snapshot kept after the connection changed.
#[derive(Clone, Copy, Debug, PartialEq, Eq, Structural)]
pub enum RelationSnapshotProvenance {
    Live,
    OfflineSnapshot,
    ProfileDeletedSnapshot,
    OutOfScopeSnapshot,
}

/// The provenance caption.
pub fn provenance_label(value: RelationSnapshotProvenance) -> (r: &'static str)
    ensures
        r@ == (match value {
            RelationSnapshotProvenance::Live => "LIVE"@,
            RelationSnapshotProvenance::OfflineSnapshot => "OFFLINE SNAPSHOT"@,
            RelationSnapshotProvenance::ProfileDeletedSnapshot => "PROFILE DELETED SNAPSHOT"@,
            RelationSnapshotProvenance::OutOfScopeSnapshot => "OUT OF SCOPE SNAPSHOT"@,
        }),
{
    match value {
        RelationSnapshotProvenance::Live => "LIVE",
        RelationSnapshotProvenance::OfflineSnapshot => "OFFLINE SNAPSHOT",
        RelationSnapshotProvenance::ProfileDeletedSnapshot => "PROFILE DELETED SNAPSHOT",
        RelationSnapshotProvenance::OutOfScopeSnapshot => "OUT OF SCOPE SNAPSHOT",
    }
}

/// The provenance of a principal's DDL: `PROFILE DELETED` when no saved profile has
/// `profile_id`, `LIVE` when the active connection is the one the DDL was read
/// from, `OFFLINE` otherwise. Connections are compared by identity number.
pub fn principal_provenance_label(profile_ids: &[u128], profile_id: u128, active_identity: Option<u128>, snapshot: u128) -> (r: &'static str)
    ensures
        r@ == (if !profile_ids@.contains(profile_id) {
            "PROFILE DELETED"@
        } else if active_identity == Some(snapshot) {
            "LIVE"@
        } else {
            "OFFLINE"@
        }),
{
    let mut i: usize = 0;
    let mut found = false;
    while i < profile_ids.len()
        invariant
            i <= profile_ids@.len(),
            found == (exists|j: int| 0 <= j < i && profile_ids@[j] == profile_id),
        decreases profile_ids@.len() - i,
    {
        if profile_ids[i] == profile_id {
            found = true;
        }
        i = i + 1;
    }
    if !found {
        return "PROFILE DELETED";
    }
    match active_identity {
        Some(identity) => if identity == snapshot { "LIVE" } else { "OFFLINE" },
        None => "OFFLINE",
    }
}

} // verus!
