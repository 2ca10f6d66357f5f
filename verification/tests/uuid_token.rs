use idcore::uuid::{parse_uuid, uuid_from_bytes, uuid_to_bytes};
use idcore::{extract_token, Uuid};

#[test]
fn parse_uuid_reads_canonical_text() {
    let u = parse_uuid("01234567-89ab-cdef-0123-456789abcdef").unwrap();
    assert_eq!(u, Uuid::new(0x01234567_89ab_cdef_0123_456789abcdefu128));
}

#[test]
fn parse_uuid_zero() {
    let u = parse_uuid("00000000-0000-0000-0000-000000000000").unwrap();
    assert_eq!(u, Uuid::new(0));
}

#[test]
fn parse_uuid_rejects_bad_shapes() {
    // Wrong length.
    assert!(parse_uuid("01234567-89ab-cdef-0123-456789abcde").is_none());
    assert!(parse_uuid("01234567-89ab-cdef-0123-456789abcdef0").is_none());
    // Uppercase hex is not canonical.
    assert!(parse_uuid("01234567-89AB-cdef-0123-456789abcdef").is_none());
    // A dash out of place.
    assert!(parse_uuid("0123456-789ab-cdef-0123-456789abcdef").is_none());
    // A non-hex character.
    assert!(parse_uuid("01234567-89ab-cdef-0123-456789abcdeg").is_none());
    assert!(parse_uuid("").is_none());
}

#[test]
fn uuid_from_bytes_reads_the_wire_form() {
    let bytes: Vec<u8> = vec![
        0x01, 0x23, 0x45, 0x67, 0x89, 0xab, 0xcd, 0xef, 0x01, 0x23, 0x45, 0x67, 0x89, 0xab, 0xcd,
        0xef,
    ];
    let u = uuid_from_bytes(&bytes).unwrap();
    assert_eq!(u, Uuid::new(0x01234567_89ab_cdef_0123_456789abcdefu128));
    assert!(uuid_from_bytes(&bytes[0..15]).is_none());
    assert!(uuid_from_bytes(&[]).is_none());
}

#[test]
fn uuid_to_bytes_writes_the_wire_form() {
    let u = Uuid::new(0x01234567_89ab_cdef_0123_456789abcdefu128);
    let bytes = uuid_to_bytes(&u);
    assert_eq!(
        bytes,
        vec![
            0x01, 0x23, 0x45, 0x67, 0x89, 0xab, 0xcd, 0xef, 0x01, 0x23, 0x45, 0x67, 0x89, 0xab,
            0xcd, 0xef,
        ]
    );
    assert_eq!(uuid_to_bytes(&Uuid::new(0)), vec![0u8; 16]);
    assert_eq!(uuid_to_bytes(&Uuid::new(1))[15], 1);
}

#[test]
fn uuid_wire_form_round_trips() {
    for value in [0u128, 1, 0xff, 0x0100, u128::MAX, 0x01234567_89ab_cdef_0123_456789abcdefu128] {
        let u = Uuid::new(value);
        assert_eq!(uuid_from_bytes(&uuid_to_bytes(&u)), Some(u));
    }
}

#[test]
fn extract_token_accepts_exact_bearer_form() {
    let u = extract_token("Bearer 01234567-89ab-cdef-0123-456789abcdef").unwrap();
    assert_eq!(u, Uuid::new(0x01234567_89ab_cdef_0123_456789abcdefu128));
}

#[test]
fn extract_token_rejects_deviations() {
    assert!(extract_token("Bearer not-a-uuid").is_none());
    assert!(extract_token("bearer 01234567-89ab-cdef-0123-456789abcdef").is_none());
    assert!(extract_token("Bearer  01234567-89ab-cdef-0123-456789abcdef").is_none());
    assert!(extract_token("Bearer 01234567-89ab-cdef-0123-456789abcdef ").is_none());
    assert!(extract_token("Bearer 01234567-89AB-cdef-0123-456789abcdef").is_none());
    assert!(extract_token("01234567-89ab-cdef-0123-456789abcdef").is_none());
    assert!(extract_token("").is_none());
}
