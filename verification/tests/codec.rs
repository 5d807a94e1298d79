use log4you::{LogIdFormat, LogUuid};

const CANONICAL: &str = "123e4567-e89b-12d3-a456-426614174000";
const CANONICAL_LOG_ID: &str = "123e4567e89b12d3a456426614174000";

fn canonical_bytes() -> Vec<u8> {
    vec![
        0x12, 0x3e, 0x45, 0x67, 0xe8, 0x9b, 0x12, 0xd3, 0xa4, 0x56, 0x42, 0x66, 0x14, 0x17,
        0x40, 0x00,
    ]
}

#[test]
fn encode_canonical_uuid() {
    let u = LogUuid::from_bytes(canonical_bytes()).unwrap();
    assert_eq!(u.to_log_id(), CANONICAL_LOG_ID);
}

#[test]
fn encode_matches_uuid_crate_rendering() {
    let external = uuid::Uuid::parse_str(CANONICAL).unwrap();
    let u = LogUuid::from_bytes(external.as_bytes().to_vec()).unwrap();
    assert_eq!(u.to_log_id(), external.to_string().replace("-", ""));
}

#[test]
fn decode_canonical_log_id() {
    let u = LogUuid::from_log_id(CANONICAL_LOG_ID).unwrap();
    assert_eq!(u.bytes().as_slice(), canonical_bytes().as_slice());
    let external = uuid::Uuid::parse_str(CANONICAL).unwrap();
    assert_eq!(u.bytes().as_slice(), external.as_bytes().as_slice());
}

#[test]
fn decode_short_string() {
    assert_eq!(LogUuid::from_log_id("short"), None);
}

#[test]
fn decode_wrong_lengths() {
    assert_eq!(LogUuid::from_log_id(""), None);
    assert_eq!(LogUuid::from_log_id("123e4567e89b12d3a45642661417400"), None);
    assert_eq!(LogUuid::from_log_id("123e4567e89b12d3a4564266141740000"), None);
}

#[test]
fn decode_non_hex_character() {
    assert_eq!(LogUuid::from_log_id("g23e4567e89b12d3a456426614174000"), None);
    assert_eq!(LogUuid::from_log_id("123e4567e89b12d3a45642661417400g"), None);
}

#[test]
fn decode_rejects_hyphenated_form() {
    assert_eq!(LogUuid::from_log_id("123e4567-e89b-12d3-a456-42661417"), None);
}

#[test]
fn decode_rejects_non_ascii() {
    let s: String = std::iter::repeat('é').take(32).collect();
    assert_eq!(s.chars().count(), 32);
    assert_eq!(LogUuid::from_log_id(&s), None);
}

#[test]
fn decode_accepts_uppercase() {
    let upper = LogUuid::from_log_id("123E4567E89B12D3A456426614174000").unwrap();
    let lower = LogUuid::from_log_id(CANONICAL_LOG_ID).unwrap();
    assert_eq!(upper, lower);
    assert!(uuid::Uuid::parse_str("123E4567-E89B-12D3-A456-426614174000").is_ok());
}

#[test]
fn round_trip_fresh_uuid() {
    let u = log4you::fresh_log_uuid();
    let decoded = LogUuid::from_log_id(&u.to_log_id());
    assert_eq!(decoded, Some(u));
}

#[test]
fn round_trip_canonical() {
    let u = LogUuid::from_bytes(canonical_bytes()).unwrap();
    assert_eq!(LogUuid::from_log_id(&u.to_log_id()), Some(u));
}

#[test]
fn fresh_log_id_shape() {
    let id = log4you::fresh_log_id();
    assert_eq!(id.chars().count(), 32);
    assert!(id.chars().all(|c| c.is_ascii_hexdigit()));
    assert_eq!(id.chars().nth(12), Some('7'));
    assert!(LogUuid::from_log_id(&id).is_some());
}

#[test]
fn fresh_log_id_is_version_7_uuid() {
    let id = log4you::fresh_log_id();
    let external = uuid::Uuid::parse_str(&id).unwrap();
    assert_eq!(external.get_version_num(), 7);
}

#[test]
fn from_bytes_requires_sixteen() {
    assert_eq!(LogUuid::from_bytes(vec![0u8; 15]), None);
    assert_eq!(LogUuid::from_bytes(vec![0u8; 17]), None);
    let u = LogUuid::from_bytes(vec![0u8; 16]).unwrap();
    assert_eq!(u.to_log_id(), "00000000000000000000000000000000");
}
