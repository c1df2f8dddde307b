use lazydb::editor::TextRange;
use lazydb::highlight::{HighlightKind, HighlightSpan};
use lazydb::query_bar::{DataQueryInput, QueryBarHighlightCache};
use lazydb::execution::SqlDialect;
use lazydb::history_cache::SqlHistoryKindCache;

#[derive(Clone, Copy, Debug, PartialEq, Eq)]
enum Kind {
    Dql,
    Ddl,
}

#[test]
fn cache_reuses_entries_and_invalidates_changed_inputs() {
    let id = 11;
    let overlay = 7;
    let mut cache: SqlHistoryKindCache<Kind> = SqlHistoryKindCache::new();
    cache.begin(overlay, 1);
    assert_eq!(cache.cached_kind(id, "SELECT 1", SqlDialect::Postgres), None);
    cache.store(id, "SELECT 1", SqlDialect::Postgres, Kind::Dql);
    assert_eq!(cache.cached_kind(id, "SELECT 1", SqlDialect::Postgres), Some(Kind::Dql));
    assert_eq!(cache.entries.len(), 1);
    let ddl = "ALTER TABLE users ADD COLUMN active BOOLEAN";
    assert_eq!(cache.cached_kind(id, ddl, SqlDialect::Postgres), None);
    cache.store(id, ddl, SqlDialect::Postgres, Kind::Ddl);
    assert_eq!(cache.cached_kind(id, ddl, SqlDialect::Postgres), Some(Kind::Ddl));
    assert_eq!(cache.cached_kind(id, ddl, SqlDialect::MySql), None);
    assert_eq!(cache.entries.len(), 1);
    cache.begin(overlay, 1);
    assert_eq!(cache.entries.len(), 1);
    cache.begin(overlay, 2);
    assert!(cache.entries.is_empty());
}

#[test]
fn cache_retain_removes_non_visible_entries() {
    let mut cache: SqlHistoryKindCache<Kind> = SqlHistoryKindCache::new();
    cache.begin(3, 1);
    cache.store(1, "SELECT 1", SqlDialect::Generic, Kind::Dql);
    cache.store(2, "SELECT 2", SqlDialect::Generic, Kind::Dql);
    cache.retain(&[1]);
    assert_eq!(cache.cached_kind(1, "SELECT 1", SqlDialect::Generic), Some(Kind::Dql));
    assert_eq!(cache.cached_kind(2, "SELECT 2", SqlDialect::Generic), None);
    assert_eq!(cache.entries.len(), 1);
}

#[test]
fn query_bar_cache_invalidates_text_and_dialect() {
    let number = vec![HighlightSpan { range: TextRange::new(7, 8), kind: HighlightKind::Number }];
    let mut cache = QueryBarHighlightCache::new();
    assert!(cache.cached(DataQueryInput::Where, "name = 1", SqlDialect::Sqlite).is_none());
    cache.store(DataQueryInput::Where, "name = 1", SqlDialect::Sqlite, number.clone());
    assert_eq!(cache.cached(DataQueryInput::Where, "name = 1", SqlDialect::Sqlite), Some(&number));
    assert!(cache.cached(DataQueryInput::Where, "name = 'Ada'", SqlDialect::Sqlite).is_none());
    assert!(cache.cached(DataQueryInput::Where, "name = 1", SqlDialect::Postgres).is_none());
    assert!(cache.cached(DataQueryInput::OrderBy, "name = 1", SqlDialect::Sqlite).is_none());
}
