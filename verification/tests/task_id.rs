use todolist::error::ServiceError;
use todolist::task_id::TaskId;

#[test]
fn canonical_text_of_a_known_value() {
    let id = TaskId(0xa1a2a3a4_b1b2_c1c2_d1d2_d3d4d5d6d7d8);
    assert_eq!(id.to_string(), "a1a2a3a4-b1b2-c1c2-d1d2-d3d4d5d6d7d8");
}

#[test]
fn canonical_text_pads_with_zeros() {
    assert_eq!(TaskId(0).to_string(), "00000000-0000-0000-0000-000000000000");
    assert_eq!(TaskId(10).to_string(), "00000000-0000-0000-0000-00000000000a");
    assert_eq!(TaskId(u128::MAX).to_string(), "ffffffff-ffff-ffff-ffff-ffffffffffff");
}

#[test]
fn parse_reads_the_value_of_the_digits() {
    assert_eq!(
        TaskId::parse_str("a1a2a3a4-b1b2-c1c2-d1d2-d3d4d5d6d7d8"),
        Ok(TaskId(0xa1a2a3a4_b1b2_c1c2_d1d2_d3d4d5d6d7d8))
    );
    assert_eq!(TaskId::parse_str("00000000-0000-0000-0000-000000000010"), Ok(TaskId(16)));
}

#[test]
fn parse_accepts_upper_case_digits() {
    assert_eq!(
        TaskId::parse_str("A1A2A3A4-B1B2-C1C2-D1D2-D3D4D5D6D7D8"),
        Ok(TaskId(0xa1a2a3a4_b1b2_c1c2_d1d2_d3d4d5d6d7d8))
    );
    assert_eq!(
        TaskId::parse_str("a1A2a3A4-b1B2-c1C2-d1D2-d3D4d5D6d7D8"),
        Ok(TaskId(0xa1a2a3a4_b1b2_c1c2_d1d2_d3d4d5d6d7d8))
    );
}

#[test]
fn identifier_round_trip() {
    let values = [
        0u128,
        1,
        0x0123456789abcdef_fedcba9876543210,
        0x550e8400_e29b_41d4_a716_446655440000,
        u128::MAX,
        1 << 127,
    ];
    for v in values {
        let id = TaskId(v);
        assert_eq!(TaskId::parse_str(&id.to_string()), Ok(id));
    }
}

#[test]
fn random_identifier_round_trip() {
    for _ in 0..50 {
        let id = TaskId::new_v4();
        assert_eq!(TaskId::parse_str(&id.to_string()), Ok(id));
    }
}

#[test]
fn new_v4_carries_version_and_variant() {
    for _ in 0..50 {
        let id = TaskId::new_v4();
        assert_eq!((id.0 >> 76) & 0xf, 4);
        assert_eq!((id.0 >> 62) & 0x3, 2);
        let text = id.to_string();
        assert_eq!(text.as_bytes()[14], b'4');
        assert!(matches!(text.as_bytes()[19], b'8' | b'9' | b'a' | b'b'));
    }
}

#[test]
fn new_v4_draws_different_identifiers() {
    let a = TaskId::new_v4();
    let b = TaskId::new_v4();
    assert_ne!(a, b);
}

#[test]
fn parse_refuses_the_empty_text() {
    assert_eq!(TaskId::parse_str(""), Err(ServiceError::MalformedRecord));
}

#[test]
fn parse_refuses_text_without_hyphens() {
    assert_eq!(
        TaskId::parse_str("a1a2a3a4b1b2c1c2d1d2d3d4d5d6d7d8"),
        Err(ServiceError::MalformedRecord)
    );
}

#[test]
fn parse_refuses_braces_and_urn() {
    assert_eq!(
        TaskId::parse_str("{a1a2a3a4-b1b2-c1c2-d1d2-d3d4d5d6d7d8}"),
        Err(ServiceError::MalformedRecord)
    );
    assert_eq!(
        TaskId::parse_str("urn:uuid:a1a2a3a4-b1b2-c1c2-d1d2-d3d4d5d6d7d8"),
        Err(ServiceError::MalformedRecord)
    );
}

#[test]
fn parse_refuses_a_misplaced_hyphen() {
    assert_eq!(
        TaskId::parse_str("a1a2a3a-4b1b2-c1c2-d1d2-d3d4d5d6d7d8"),
        Err(ServiceError::MalformedRecord)
    );
    assert_eq!(
        TaskId::parse_str("a1a2a3a4-b1b2-c1c2-d1d2-d3d4d5-6d7d8"),
        Err(ServiceError::MalformedRecord)
    );
}

#[test]
fn parse_refuses_a_character_that_is_no_digit() {
    assert_eq!(
        TaskId::parse_str("g1a2a3a4-b1b2-c1c2-d1d2-d3d4d5d6d7d8"),
        Err(ServiceError::MalformedRecord)
    );
    assert_eq!(
        TaskId::parse_str("a1a2a3a4-b1b2-c1c2-d1d2-d3d4d5d6d7d "),
        Err(ServiceError::MalformedRecord)
    );
    assert_eq!(
        TaskId::parse_str("a1a2a3a4-b1b2-c1c2-d1d2-d3d4d5d6d7d\u{e9}"),
        Err(ServiceError::MalformedRecord)
    );
}

#[test]
fn parse_refuses_text_that_is_too_long_or_too_short() {
    assert_eq!(
        TaskId::parse_str("a1a2a3a4-b1b2-c1c2-d1d2-d3d4d5d6d7d"),
        Err(ServiceError::MalformedRecord)
    );
    assert_eq!(
        TaskId::parse_str("a1a2a3a4-b1b2-c1c2-d1d2-d3d4d5d6d7d8a"),
        Err(ServiceError::MalformedRecord)
    );
}

#[test]
fn is_canonical_agrees_with_parse() {
    assert!(TaskId::is_canonical("550e8400-e29b-41d4-a716-446655440000"));
    assert!(TaskId::is_canonical("550E8400-E29B-41D4-A716-446655440000"));
    assert!(!TaskId::is_canonical("550e8400e29b41d4a716446655440000"));
    assert!(!TaskId::is_canonical("550e8400-e29b-41d4-a716-44665544000"));
    assert!(!TaskId::is_canonical("550e8400-e29b-41d4-a716_446655440000"));
}

#[test]
fn canonical_text_is_what_the_uuid_crate_writes() {
    let u = uuid::Uuid::parse_str("936da01f-9abd-4d9d-80c7-02af85c822a8").unwrap();
    let id = TaskId(u.as_u128());
    assert_eq!(id.to_string(), "936da01f-9abd-4d9d-80c7-02af85c822a8");
    assert_eq!(id.to_string(), u.to_string());
}
