use asset_access::ids::{id_text, parse_id};

#[test]
fn id_text_is_hyphenated_lower_case() {
    assert_eq!(
        id_text(0xa1a2a3a4b1b2c1c2d1d2d3d4d5d6d7d8),
        "a1a2a3a4-b1b2-c1c2-d1d2-d3d4d5d6d7d8"
    );
    assert_eq!(id_text(0), "00000000-0000-0000-0000-000000000000");
    assert_eq!(id_text(1), "00000000-0000-0000-0000-000000000001");
    assert_eq!(id_text(u128::MAX), "ffffffff-ffff-ffff-ffff-ffffffffffff");
    assert_eq!(
        id_text(0x0123456789abcdef0fedcba987654321),
        "01234567-89ab-cdef-0fed-cba987654321"
    );
}

#[test]
fn id_text_agrees_with_the_uuid_crate() {
    let id = uuid::Uuid::parse_str("936da01f-9abd-4d9d-80c7-02af85c822a8").unwrap();
    assert_eq!(id_text(id.as_u128()), "936da01f-9abd-4d9d-80c7-02af85c822a8");
    assert_eq!(id_text(id.as_u128()), id.to_string());
}

#[test]
fn parse_id_reads_what_id_text_writes() {
    for id in [0u128, 1, 0xa1a2a3a4b1b2c1c2d1d2d3d4d5d6d7d8, u128::MAX] {
        assert_eq!(parse_id(&id_text(id)), Ok(id));
    }
}

#[test]
fn parse_id_reads_the_other_forms() {
    let id = 0x550e8400e29b41d4a716446655440000u128;
    assert_eq!(parse_id("550e8400e29b41d4a716446655440000"), Ok(id));
    assert_eq!(parse_id("550E8400-E29B-41D4-A716-446655440000"), Ok(id));
    assert_eq!(parse_id("{550e8400-e29b-41d4-a716-446655440000}"), Ok(id));
    assert_eq!(parse_id("urn:uuid:550e8400-e29b-41d4-a716-446655440000"), Ok(id));
}

#[test]
fn parse_id_refuses_what_is_no_identifier() {
    for text in ["", "images", "550e8400-e29b-41d4-a716-44665544000", "550e8400-e29b-41d4-a716-44665544000g"] {
        let refused = parse_id(text);
        assert!(refused.is_err());
        assert!(!refused.unwrap_err().message.is_empty());
    }
}
