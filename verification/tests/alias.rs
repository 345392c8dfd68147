use morum::alias::{
    decode_category_alias, decode_post, decode_post_alias, encode_category, encode_comment_user,
    encode_post, encode_post_alias, encode_user_id, toplevel_space_alias,
};

#[test]
fn encode_post_formats_localpart() {
    assert_eq!(encode_post(0), "forum_post_0");
    assert_eq!(encode_post(7), "forum_post_7");
    assert_eq!(encode_post(123456), "forum_post_123456");
    assert_eq!(encode_post(u64::MAX), format!("forum_post_{}", u64::MAX));
}

#[test]
fn encode_post_alias_formats_full_alias() {
    assert_eq!(encode_post_alias(12), "#forum_post_12:corepaper.org");
}

#[test]
fn post_round_trip_small_ids() {
    for n in 0u64..50 {
        assert_eq!(decode_post(&encode_post(n)), Some(n));
        assert_eq!(decode_post_alias(&encode_post_alias(n)), Some(n));
    }
}

#[test]
fn post_round_trip_large_ids() {
    for n in [1_000_000u64, u64::MAX - 1, u64::MAX] {
        assert_eq!(decode_post(&encode_post(n)), Some(n));
        assert_eq!(decode_post_alias(&encode_post_alias(n)), Some(n));
    }
}

#[test]
fn decode_post_rejects_non_matching_strings() {
    assert_eq!(decode_post("forum_post_"), None);
    assert_eq!(decode_post("forum_post_12x"), None);
    assert_eq!(decode_post("other"), None);
    assert_eq!(decode_post(""), None);
    assert_eq!(decode_post("forum_post"), None);
    assert_eq!(decode_post("Forum_post_1"), None);
    assert_eq!(decode_post("forum_post_1 "), None);
    assert_eq!(decode_post(" forum_post_1"), None);
    assert_eq!(decode_post("forum_post_-1"), None);
}

#[test]
fn decode_post_rejects_overflowing_value() {
    // One past u64::MAX, and something far larger.
    assert_eq!(decode_post("forum_post_18446744073709551616"), None);
    assert_eq!(decode_post("forum_post_99999999999999999999999999"), None);
    // u64::MAX itself is representable.
    assert_eq!(decode_post("forum_post_18446744073709551615"), Some(u64::MAX));
}

#[test]
fn decode_post_accepts_leading_zeros() {
    assert_eq!(decode_post("forum_post_007"), Some(7));
    assert_eq!(decode_post("forum_post_0"), Some(0));
    assert_eq!(decode_post("forum_post_000"), Some(0));
}

#[test]
fn decode_post_alias_requires_anchors() {
    assert_eq!(decode_post_alias("forum_post_12:corepaper.org"), None);
    assert_eq!(decode_post_alias("#forum_post_12:example.org"), None);
    assert_eq!(decode_post_alias("#forum_post_12:corepaper.org "), None);
    assert_eq!(decode_post_alias("#forum_post_:corepaper.org"), None);
    assert_eq!(decode_post_alias("#forum-12:corepaper.org"), None);
    assert_eq!(decode_post_alias(""), None);
}

#[test]
fn encode_category_formats_full_alias() {
    assert_eq!(encode_category("general"), "#forum-general:corepaper.org");
}

#[test]
fn category_alias_round_trip() {
    assert_eq!(
        decode_category_alias(&encode_category("general")),
        Some("general".to_string())
    );
    assert_eq!(
        decode_category_alias(&encode_category("a-b_c")),
        Some("a-b_c".to_string())
    );
}

#[test]
fn decode_category_alias_rejects_other_rooms() {
    // The top-level space and post rooms do not match the category grammar.
    assert_eq!(decode_category_alias("#forum:corepaper.org"), None);
    assert_eq!(decode_category_alias("#forum-:corepaper.org"), None);
    assert_eq!(decode_category_alias("#forum-x:example.org"), None);
    assert_eq!(decode_category_alias("forum-x:corepaper.org"), None);
    // A slug cannot span lines.
    assert_eq!(decode_category_alias("#forum-a\nb:corepaper.org"), None);
}

#[test]
fn decode_category_alias_takes_inner_colons() {
    assert_eq!(
        decode_category_alias("#forum-a:b:corepaper.org"),
        Some("a:b".to_string())
    );
}

#[test]
fn user_identity_encodings() {
    assert_eq!(encode_comment_user("alice"), "forum_user_alice");
    assert_eq!(
        encode_user_id("forum_user_alice"),
        "@forum_user_alice:corepaper.org"
    );
    assert_eq!(toplevel_space_alias(), "#forum:corepaper.org");
}
