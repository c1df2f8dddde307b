use lazydb::matching::{label_segments, match_segments};

fn owned(pieces: &[(&str, bool)]) -> Vec<(String, bool)> {
    pieces.iter().map(|(text, matched)| (text.to_string(), *matched)).collect()
}

#[test]
fn matched_ranges_split_the_text() {
    assert_eq!(match_segments("orders_archive", &[(0, 6)]), owned(&[("orders", true), ("_archive", false)]));
    assert_eq!(
        match_segments("日本語", &[(3, 6)]),
        owned(&[("日", false), ("本", true), ("語", false)])
    );
    assert_eq!(match_segments("x", &[]), owned(&[("x", false)]));
    assert_eq!(
        match_segments("a.b.c", &[(1, 2), (3, 4)]),
        owned(&[("a", false), (".", true), ("b", false), (".", true), ("c", false)])
    );
}

#[test]
fn label_pieces_follow_matched_positions() {
    assert_eq!(
        label_segments("customer_id", Some(&[0, 1, 9])),
        owned(&[("cu", true), ("stomer_", false), ("i", true), ("d", false)])
    );
    assert_eq!(label_segments("id", None), owned(&[("id", false)]));
    assert_eq!(label_segments("界a", Some(&[3])), owned(&[("界", false), ("a", true)]));
}
