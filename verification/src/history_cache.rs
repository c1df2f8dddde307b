//! The statement kinds of SQL history entries, remembered while the history
//! overlay stays open: an entry is reused only for the same SQL and dialect.
use vstd::prelude::*;
use crate::execution::SqlDialect;
use crate::text::same_text;

verus! {

broadcast use vstd::string::group_string_axioms;

/// A remembered classification.
#[derive(Clone, Debug)]
pub struct CacheEntry<K> {
    pub execution_id: u128,
    pub sql: String,
    pub dialect: SqlDialect,
    pub kind: K,
}

/// Classifications for one opening of the history overlay.
#[derive(Clone, Debug)]
pub struct SqlHistoryKindCache<K> {
    pub identity: Option<(u128, u64)>,
    pub entries: Vec<CacheEntry<K>>,
}

/// The entry for `id`: its SQL, dialect and kind.
pub open spec fn entry_for<K>(entries: Seq<CacheEntry<K>>, id: u128) -> Option<(Seq<char>, SqlDialect, K)>
    decreases entries.len(),
{
    if entries.len() == 0 {
        None
    } else if entries.last().execution_id == id {
        Some((entries.last().sql@, entries.last().dialect, entries.last().kind))
    } else {
        entry_for(entries.drop_last(), id)
    }
}

/// What a lookup of `id` with `sql` in `dialect` finds: the remembered kind when
/// it was classified from that same SQL and dialect.
pub open spec fn lookup<K>(entries: Seq<CacheEntry<K>>, id: u128, sql: Seq<char>, dialect: SqlDialect) -> Option<K> {
    match entry_for(entries, id) {
        Some((s, d, k)) => if s == sql && d == dialect { Some(k) } else { None },
        None => None,
    }
}

/// Law: what was just stored for an execution is found for the same SQL and
/// dialect, and not for other SQL or another dialect.
pub proof fn law_stored_kind_is_reused<K>(entries: Seq<CacheEntry<K>>, id: u128, sql: Seq<char>, dialect: SqlDialect, kind: K,
    other_sql: Seq<char>, other_dialect: SqlDialect)
    requires
        entry_for(entries, id) == Some((sql, dialect, kind)),
        other_sql != sql || other_dialect != dialect,
    ensures
        lookup(entries, id, sql, dialect) == Some(kind),
        lookup(entries, id, other_sql, other_dialect) is None,
{
}

/// No execution has two entries.
pub open spec fn unique_ids<K>(entries: Seq<CacheEntry<K>>) -> bool {
    forall|i: int, j: int| 0 <= i < j < entries.len() ==> entries[i].execution_id != entries[j].execution_id
}

proof fn lemma_entry_for_index<K>(entries: Seq<CacheEntry<K>>, id: u128, i: int)
    requires
        unique_ids(entries),
        0 <= i < entries.len(),
        entries[i].execution_id == id,
    ensures
        entry_for(entries, id) == Some((entries[i].sql@, entries[i].dialect, entries[i].kind)),
    decreases entries.len(),
{
    if i < entries.len() - 1 {
        lemma_entry_for_index(entries.drop_last(), id, i);
    }
}

proof fn lemma_entry_for_absent<K>(entries: Seq<CacheEntry<K>>, id: u128)
    requires
        forall|i: int| 0 <= i < entries.len() ==> (#[trigger] entries[i]).execution_id != id,
    ensures
        entry_for(entries, id) is None,
    decreases entries.len(),
{
    if entries.len() > 0 {
        lemma_entry_for_absent(entries.drop_last(), id);
    }
}

impl<K: Copy> SqlHistoryKindCache<K> {
    pub open spec fn well_formed(&self) -> bool {
        unique_ids(self.entries@)
    }

    /// An empty cache for no overlay.
    pub fn new() -> (c: Self)
        ensures
            c.identity is None,
            c.entries@.len() == 0,
            c.well_formed(),
    {
        SqlHistoryKindCache { identity: None, entries: Vec::new() }
    }

    /// Starts serving generation `generation` of overlay `overlay`; the entries
    /// of any other overlay or generation are dropped.
    pub fn begin(&mut self, overlay: u128, generation: u64)
        requires
            old(self).well_formed(),
        ensures
            final(self).well_formed(),
            final(self).identity == Some((overlay, generation)),
            old(self).identity == Some((overlay, generation)) ==> final(self).entries@ == old(self).entries@,
            old(self).identity != Some((overlay, generation)) ==> final(self).entries@.len() == 0,
    {
        let same = match self.identity {
            Some((o, g)) => o == overlay && g == generation,
            None => false,
        };
        if !same {
            self.identity = Some((overlay, generation));
            self.entries.clear();
        }
    }

    fn position(&self, id: u128) -> (r: Option<usize>)
        requires
            self.well_formed(),
        ensures
            match r {
                Some(i) => i < self.entries@.len() && self.entries@[i as int].execution_id == id,
                None => forall|i: int| 0 <= i < self.entries@.len() ==> (#[trigger] self.entries@[i]).execution_id != id,
            },
    {
        let mut i: usize = 0;
        while i < self.entries.len()
            invariant
                i <= self.entries@.len(),
                forall|k: int| 0 <= k < i ==> (#[trigger] self.entries@[k]).execution_id != id,
            decreases self.entries@.len() - i,
        {
            if self.entries[i].execution_id == id {
                return Some(i);
            }
            i = i + 1;
        }
        None
    }

    /// The remembered kind of execution `id`, if it was classified from the same
    /// SQL in the same dialect.
    pub fn cached_kind(&self, id: u128, sql: &str, dialect: SqlDialect) -> (r: Option<K>)
        requires
            self.well_formed(),
        ensures
            r == lookup(self.entries@, id, sql@, dialect),
    {
        match self.position(id) {
            Some(i) => {
                proof { lemma_entry_for_index(self.entries@, id, i as int); }
                let entry = &self.entries[i];
                if same_text(entry.sql.as_str(), sql) && entry.dialect == dialect {
                    Some(entry.kind)
                } else {
                    None
                }
            },
            None => {
                proof { lemma_entry_for_absent(self.entries@, id); }
                None
            },
        }
    }

    /// Remembers that execution `id` with `sql` in `dialect` is of `kind`,
    /// replacing what was remembered for it; other entries stay.
    pub fn store(&mut self, id: u128, sql: &str, dialect: SqlDialect, kind: K)
        requires
            old(self).well_formed(),
        ensures
            final(self).well_formed(),
            final(self).identity == old(self).identity,
            entry_for(final(self).entries@, id) == Some((sql@, dialect, kind)),
            forall|other: u128| other != id ==> entry_for(final(self).entries@, other) == entry_for(old(self).entries@, other),
    {
        let ghost before = self.entries@;
        match self.position(id) {
            Some(i) => {
                let entry = CacheEntry { execution_id: id, sql: crate::text::owned(sql), dialect, kind };
                self.entries.set(i, entry);
                proof {
                    assert(unique_ids(self.entries@));
                    lemma_entry_for_index(self.entries@, id, i as int);
                    assert forall|other: u128| other != id implies entry_for(self.entries@, other) == entry_for(before, other) by {
                        lemma_same_others(before, self.entries@, i as int, other);
                    }
                }
            },
            None => {
                self.entries.push(CacheEntry { execution_id: id, sql: crate::text::owned(sql), dialect, kind });
                proof {
                    assert(self.entries@.drop_last() =~= before);
                }
            },
        }
    }

    /// Forgets every execution not in `visible`.
    pub fn retain(&mut self, visible: &[u128])
        requires
            old(self).well_formed(),
        ensures
            final(self).well_formed(),
            final(self).identity == old(self).identity,
            forall|id: u128| #[trigger] entry_for(final(self).entries@, id)
                == if visible@.contains(id) { entry_for(old(self).entries@, id) } else { None },
    {
        let ghost before = self.entries@;
        let mut kept: Vec<CacheEntry<K>> = Vec::new();
        let mut i: usize = 0;
        while i < self.entries.len()
            invariant
                self.entries@ == before,
                i <= before.len(),
                unique_ids(before),
                unique_ids(kept@),
                forall|k: int| 0 <= k < kept@.len() ==> exists|j: int| 0 <= j < i
                    && (#[trigger] kept@[k]).execution_id == before[j].execution_id,
                forall|id: u128| #[trigger] entry_for(kept@, id)
                    == if visible@.contains(id) { entry_for(before.take(i as int), id) } else { None },
            decreases before.len() - i,
        {
            let id = self.entries[i].execution_id;
            let mut shown = false;
            let mut j: usize = 0;
            while j < visible.len()
                invariant
                    j <= visible@.len(),
                    shown == exists|q: int| 0 <= q < j && visible@[q] == id,
                decreases visible@.len() - j,
            {
                if visible[j] == id {
                    shown = true;
                }
                j = j + 1;
            }
            assert(shown == visible@.contains(id));
            let ghost kept_before = kept@;
            assert(before.take(i as int + 1).drop_last() =~= before.take(i as int));
            assert(before.take(i as int + 1).last() == before[i as int]);
            if shown {
                let entry = &self.entries[i];
                kept.push(CacheEntry { execution_id: entry.execution_id, sql: entry.sql.clone(), dialect: entry.dialect, kind: entry.kind });
                proof {
                    assert(kept@.drop_last() =~= kept_before);
                    assert forall|k: int| 0 <= k < kept_before.len() implies kept_before[k].execution_id != id by {
                        let j = choose|j: int| 0 <= j < i && kept_before[k].execution_id == before[j].execution_id;
                    }
                }
            }
            assert forall|x: u128| #[trigger] entry_for(kept@, x)
                == if visible@.contains(x) { entry_for(before.take(i as int + 1), x) } else { None } by {
                let t = before.take(i as int + 1);
                assert(t.drop_last() =~= before.take(i as int));
                assert(t.last() == before[i as int]);
                assert(entry_for(t, x) == if before[i as int].execution_id == x {
                    Some((before[i as int].sql@, before[i as int].dialect, before[i as int].kind))
                } else {
                    entry_for(before.take(i as int), x)
                });
                assert(entry_for(kept_before, x) == if visible@.contains(x) { entry_for(before.take(i as int), x) } else { None });
                if shown {
                    assert(kept@.drop_last() =~= kept_before);
                    assert(kept@.last().execution_id == id);
                    assert(kept@.last().sql@ == before[i as int].sql@);
                } else {
                    assert(kept@ == kept_before);
                }
            }
            i = i + 1;
            assert forall|k: int| 0 <= k < kept@.len() implies exists|j: int| 0 <= j < i
                && (#[trigger] kept@[k]).execution_id == before[j].execution_id by {
                if k < kept_before.len() {
                    let j = choose|j: int| 0 <= j < i - 1 && kept_before[k].execution_id == before[j].execution_id;
                    assert(kept@[k] == kept_before[k]);
                } else {
                    assert(kept@[k].execution_id == before[i - 1].execution_id);
                }
            }
        }
        assert(before.take(i as int) =~= before);
        self.entries = kept;
    }
}

proof fn lemma_same_others<K>(before: Seq<CacheEntry<K>>, after: Seq<CacheEntry<K>>, i: int, other: u128)
    requires
        unique_ids(before),
        before.len() == after.len(),
        0 <= i < before.len(),
        after[i].execution_id == before[i].execution_id,
        before[i].execution_id != other,
        forall|k: int| 0 <= k < before.len() && k != i ==> after[k] == before[k],
    ensures
        entry_for(after, other) == entry_for(before, other),
    decreases before.len(),
{
    if before.len() > 0 {
        if i < before.len() - 1 {
            lemma_same_others(before.drop_last(), after.drop_last(), i, other);
        } else {
            assert(after.drop_last() =~= before.drop_last());
        }
    }
}

} // verus!
