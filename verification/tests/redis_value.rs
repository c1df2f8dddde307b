use lazydb::redis::{
    display_bytes, page_lines, page_text, ttl_text, RedisKeyMetadata, RedisPageValue, RedisType,
    RedisValuePage, TtlState,
};

fn page(value: RedisPageValue) -> RedisValuePage {
    RedisValuePage {
        metadata: RedisKeyMetadata {
            value_type: RedisType::Hash,
            ttl: TtlState::Unavailable,
        },
        value,
        truncated: false,
        raw_bytes: 5,
    }
}

#[test]
fn renders_binary_hash_values_without_loss() {
    let lines = page_lines(&page(RedisPageValue::Hash(vec![(vec![0], vec![255])])));
    assert!(lines.iter().any(|line| line.contains("\\x00")));
    assert!(lines.iter().any(|line| line.contains("\\xff")));
}

#[test]
fn page_text_joins_header_and_elements() {
    let text = page_text(&page(RedisPageValue::Hash(vec![
        (b"name".to_vec(), b"Ada".to_vec()),
        (b"age".to_vec(), b"36".to_vec()),
    ])));
    assert_eq!(text, "type=Hash ttl=unavailable raw=5B\nname\tAda\nage\t36");
}

#[test]
fn page_text_marks_truncated_pages_and_counts_stream_fields() {
    let mut value = page(RedisPageValue::Stream(vec![(
        b"1-0".to_vec(),
        vec![(b"a".to_vec(), b"1".to_vec()), (b"b".to_vec(), b"2".to_vec())],
    )]));
    value.metadata = RedisKeyMetadata {
        value_type: RedisType::Stream,
        ttl: TtlState::ExpiresIn { millis: 1500 },
    };
    value.truncated = true;
    assert_eq!(
        page_text(&value),
        "type=Stream ttl=1500ms raw=5B\n1-0\t2 fields\n<page truncated>"
    );
}

#[test]
fn page_text_drops_line_breaks_inside_values() {
    let text = page_text(&page(RedisPageValue::String(b"a\r\nb".to_vec())));
    assert_eq!(text, "type=Hash ttl=unavailable raw=5B\nab");
}

#[test]
fn list_lines_show_indexes() {
    let lines = page_lines(&page(RedisPageValue::List(vec![(0, b"x".to_vec()), (12, b"y".to_vec())])));
    assert_eq!(lines, vec!["type=Hash ttl=unavailable raw=5B", "0\tx", "12\ty"]);
}

#[test]
fn display_bytes_escapes_every_byte_of_binary_values() {
    assert_eq!(display_bytes(b"plain text\n"), "plain text\n");
    assert_eq!(display_bytes(&[0x41, 0x00]), "\\x41\\x00");
    assert_eq!(display_bytes(&[]), "");
}

#[test]
fn ttl_text_names_every_state() {
    assert_eq!(ttl_text(&TtlState::Missing), "missing");
    assert_eq!(ttl_text(&TtlState::Persistent), "persistent");
    assert_eq!(ttl_text(&TtlState::ExpiresIn { millis: 0 }), "0ms");
    assert_eq!(ttl_text(&TtlState::Unavailable), "unavailable");
}
