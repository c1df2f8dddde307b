use lazydb::redis_browser::{
    format_uptime, keys_title, keyspace_empty_text, keyspace_status_label, preview_format_label,
    ttl_label, KeyspaceStatus, PreviewFormat, RedisEditorTtlMode, ValueEncoding, ValueView,
};

#[test]
fn preview_labels_prefer_the_serializer() {
    let json = PreviewFormat { encoding: ValueEncoding::Plain, view: ValueView::Json };
    assert_eq!(preview_format_label(json, false), "JSON");
    assert_eq!(preview_format_label(json, true), "Auto · JSON");
    let php = PreviewFormat { encoding: ValueEncoding::Php, view: ValueView::Hex };
    assert_eq!(preview_format_label(php, false), "PHP");
}

#[test]
fn keyspace_captions_follow_the_status() {
    assert_eq!(keyspace_status_label(&KeyspaceStatus::Idle), "not loaded");
    assert_eq!(keyspace_status_label(&KeyspaceStatus::CompleteEmpty), "empty");
    assert_eq!(keyspace_empty_text(&KeyspaceStatus::Paused { loaded: 5000 }), "Client cache limit reached (5000 loaded)");
    assert_eq!(keyspace_empty_text(&KeyspaceStatus::Failed("timeout".to_owned())), "timeout - r=Retry");
    assert_eq!(keys_title(2, 17, &KeyspaceStatus::Partial), "Keys · DB 2 · 17 loaded · partial");
}

#[test]
fn uptime_and_ttl_captions() {
    assert_eq!(format_uptime(90061), "uptime 1d 01:01:01");
    assert_eq!(format_uptime(59), "uptime 0d 00:00:59");
    assert_eq!(ttl_label(RedisEditorTtlMode::Expires, "1500"), "1500 ms");
    assert_eq!(ttl_label(RedisEditorTtlMode::Preserve, "1500"), "preserve");
}
