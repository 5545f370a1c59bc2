use blog_proj::ident::{id_text, parse_id};

const SAMPLE: u128 = 0x550e8400_e29b_41d4_a716_446655440000;

#[test]
fn id_text_is_lower_case_hyphenated() {
    assert_eq!(id_text(SAMPLE), "550e8400-e29b-41d4-a716-446655440000");
    assert_eq!(id_text(0), "00000000-0000-0000-0000-000000000000");
    assert_eq!(id_text(u128::MAX), "ffffffff-ffff-ffff-ffff-ffffffffffff");
}

#[test]
fn parse_id_accepts_the_four_forms() {
    assert_eq!(parse_id("550e8400-e29b-41d4-a716-446655440000"), Some(SAMPLE));
    assert_eq!(parse_id("550E8400-E29B-41D4-A716-446655440000"), Some(SAMPLE));
    assert_eq!(parse_id("550e8400e29b41d4a716446655440000"), Some(SAMPLE));
    assert_eq!(parse_id("{550e8400-e29b-41d4-a716-446655440000}"), Some(SAMPLE));
    assert_eq!(parse_id("urn:uuid:550e8400-e29b-41d4-a716-446655440000"), Some(SAMPLE));
    assert_eq!(parse_id("URN:UUID:550e8400-e29b-41d4-a716-446655440000"), Some(SAMPLE));
}

#[test]
fn parse_id_rejects_other_text() {
    assert_eq!(parse_id(""), None);
    assert_eq!(parse_id("abc"), None);
    assert_eq!(parse_id("550e8400-e29b-41d4-a716-44665544000g"), None);
    assert_eq!(parse_id("550e8400e-29b-41d4-a716-446655440000"), None);
    assert_eq!(parse_id("[550e8400-e29b-41d4-a716-446655440000]"), None);
    assert_eq!(parse_id("urn:uuix:550e8400-e29b-41d4-a716-446655440000"), None);
    assert_eq!(parse_id("550e8400-e29b-41d4-a716-44665544000é"), None);
}

#[test]
fn id_text_reads_back() {
    for v in [0u128, 1, 42, SAMPLE, u128::MAX, 0x0123_4567_89ab_cdef_0011_2233_4455_6677] {
        assert_eq!(parse_id(&id_text(v)), Some(v));
    }
}
