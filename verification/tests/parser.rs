use crx_parser::extract_zip_data;
use crx_parser::parse_crx;
use crx_parser::verify_crx_info;
use crx_parser::CrxInfo;
use crx_parser::ParseError;

/// A buffer holding the common prefix: the `Cr24` magic and a version.
fn header(version: u32) -> Vec<u8> {
    let mut buf = b"Cr24".to_vec();
    buf.extend_from_slice(&version.to_le_bytes());
    buf
}

#[test]
fn scenario_v2_key_and_signature() {
    let mut buf = header(2);
    buf.extend_from_slice(&3u32.to_le_bytes());
    buf.extend_from_slice(&2u32.to_le_bytes());
    buf.extend_from_slice(b"key");
    buf.extend_from_slice(b"ab");
    buf.extend_from_slice(b"PK\x03\x04rest of the archive");

    let info = parse_crx(&buf).unwrap();
    assert_eq!(info.version(), 2);
    assert_eq!(info.public_key().as_slice(), b"key");
    assert_eq!(info.signature().as_slice(), b"ab");
    assert_eq!(info.zip_offset(), 16 + 3 + 2);

    let payload = extract_zip_data(&buf).unwrap();
    assert!(payload.starts_with(b"PK\x03\x04"));
    assert_eq!(payload.as_slice(), &buf[21..]);
}

#[test]
fn scenario_v2_zero_lengths_fails_validation() {
    let mut buf = header(2);
    buf.extend_from_slice(&0u32.to_le_bytes());
    buf.extend_from_slice(&0u32.to_le_bytes());

    assert_eq!(parse_crx(&buf).unwrap_err(), ParseError::EmptyPublicKey);
}

#[test]
fn scenario_v3_opaque_header() {
    let mut buf = header(3);
    buf.extend_from_slice(&5u32.to_le_bytes());
    buf.extend_from_slice(&[0xAA, 0xBB, 0xCC, 0xDD, 0xEE]);
    buf.extend_from_slice(b"PK\x03\x04");

    let info = parse_crx(&buf).unwrap();
    assert_eq!(info.version(), 3);
    assert!(info.public_key().is_empty());
    assert!(info.signature().is_empty());
    assert_eq!(info.zip_offset(), 17);

    let payload = extract_zip_data(&buf).unwrap();
    assert_eq!(payload.as_slice(), b"PK\x03\x04");
}

#[test]
fn scenario_v3_wrong_payload_marker() {
    let mut buf = header(3);
    buf.extend_from_slice(&5u32.to_le_bytes());
    buf.extend_from_slice(&[1, 2, 3, 4, 5]);
    buf.extend_from_slice(b"XY\x03\x04");

    assert_eq!(parse_crx(&buf).unwrap_err(), ParseError::BadPayloadSignature);
}

#[test]
fn scenario_empty_buffer() {
    assert_eq!(parse_crx(b"").unwrap_err(), ParseError::Truncated);
    assert_eq!(extract_zip_data(b"").unwrap_err(), ParseError::Truncated);
}

#[test]
fn truncated_magic() {
    assert_eq!(parse_crx(b"Cr2").unwrap_err(), ParseError::Truncated);
}

#[test]
fn truncated_version() {
    assert_eq!(parse_crx(b"Cr24\x02\x00").unwrap_err(), ParseError::Truncated);
}

#[test]
fn bad_magic() {
    assert_eq!(parse_crx(b"Nope\x02\x00\x00\x00").unwrap_err(), ParseError::BadMagic);
}

#[test]
fn unsupported_version() {
    let buf = header(7);
    assert_eq!(
        parse_crx(&buf).unwrap_err(),
        ParseError::UnsupportedVersion { version: 7 }
    );
}

#[test]
fn too_small_v2() {
    let buf = header(2);
    assert_eq!(
        parse_crx(&buf).unwrap_err(),
        ParseError::TooSmall { version: 2, actual: 8, required: 16 }
    );
}

#[test]
fn too_small_v3() {
    let mut buf = header(3);
    buf.extend_from_slice(&[0, 0]);
    assert_eq!(
        parse_crx(&buf).unwrap_err(),
        ParseError::TooSmall { version: 3, actual: 10, required: 12 }
    );
}

#[test]
fn v2_truncated_public_key() {
    let mut buf = header(2);
    buf.extend_from_slice(&5u32.to_le_bytes());
    buf.extend_from_slice(&0u32.to_le_bytes());
    buf.extend_from_slice(b"ab");
    assert_eq!(parse_crx(&buf).unwrap_err(), ParseError::Truncated);
}

#[test]
fn v2_truncated_signature() {
    let mut buf = header(2);
    buf.extend_from_slice(&1u32.to_le_bytes());
    buf.extend_from_slice(&4u32.to_le_bytes());
    buf.extend_from_slice(b"k");
    assert_eq!(parse_crx(&buf).unwrap_err(), ParseError::Truncated);
}

#[test]
fn v2_empty_signature() {
    let mut buf = header(2);
    buf.extend_from_slice(&1u32.to_le_bytes());
    buf.extend_from_slice(&0u32.to_le_bytes());
    buf.extend_from_slice(b"k");
    assert_eq!(parse_crx(&buf).unwrap_err(), ParseError::EmptySignature);
}

#[test]
fn v2_wrong_payload_marker() {
    let mut buf = header(2);
    buf.extend_from_slice(&1u32.to_le_bytes());
    buf.extend_from_slice(&1u32.to_le_bytes());
    buf.extend_from_slice(b"ks");
    buf.extend_from_slice(b"XY\x03\x04");
    assert_eq!(parse_crx(&buf).unwrap_err(), ParseError::BadPayloadSignature);
}

#[test]
fn v2_payload_offset_formula() {
    let mut buf = header(2);
    buf.extend_from_slice(&4u32.to_le_bytes());
    buf.extend_from_slice(&6u32.to_le_bytes());
    buf.extend_from_slice(b"fourSixSix");
    buf.extend_from_slice(b"PK\x03\x04tail");

    let info = parse_crx(&buf).unwrap();
    assert_eq!(
        info.zip_offset(),
        16 + info.public_key().len() + info.signature().len()
    );
    assert_eq!(extract_zip_data(&buf).unwrap().as_slice(), &buf[info.zip_offset()..]);
}

#[test]
fn v3_payload_offset_formula() {
    let mut buf = header(3);
    buf.extend_from_slice(&9u32.to_le_bytes());
    buf.extend_from_slice(&[7; 9]);
    buf.extend_from_slice(b"PK\x05\x06");

    let info = parse_crx(&buf).unwrap();
    assert_eq!(info.zip_offset(), 12 + 9);
    assert_eq!(extract_zip_data(&buf).unwrap().as_slice(), b"PK\x05\x06");
}

#[test]
fn parse_is_idempotent() {
    let mut buf = header(2);
    buf.extend_from_slice(&2u32.to_le_bytes());
    buf.extend_from_slice(&2u32.to_le_bytes());
    buf.extend_from_slice(b"pkSG");
    buf.extend_from_slice(b"PK\x03\x04");

    let first = parse_crx(&buf).unwrap();
    let second = parse_crx(&buf).unwrap();
    assert_eq!(first.version(), second.version());
    assert_eq!(first.public_key(), second.public_key());
    assert_eq!(first.signature(), second.signature());
    assert_eq!(first.zip_offset(), second.zip_offset());
}

#[test]
fn v2_missing_payload_is_not_an_error() {
    let mut buf = header(2);
    buf.extend_from_slice(&1u32.to_le_bytes());
    buf.extend_from_slice(&1u32.to_le_bytes());
    buf.extend_from_slice(b"ks");

    let info = parse_crx(&buf).unwrap();
    assert_eq!(info.zip_offset(), 18);
    assert!(extract_zip_data(&buf).unwrap().is_empty());
}

#[test]
fn v3_short_trailer_skips_payload_check() {
    let mut buf = header(3);
    buf.extend_from_slice(&0u32.to_le_bytes());
    buf.extend_from_slice(b"XY\x03");

    let info = parse_crx(&buf).unwrap();
    assert_eq!(info.zip_offset(), 12);
    assert_eq!(extract_zip_data(&buf).unwrap().as_slice(), b"XY\x03");
}

#[test]
fn validator_accepts_well_formed_v2() {
    let info = CrxInfo::new(2, vec![1], vec![2], 16);
    assert_eq!(verify_crx_info(&info), Ok(()));
}

#[test]
fn validator_rejects_unexpected_public_key() {
    let info = CrxInfo::new(3, vec![1], vec![], 12);
    assert_eq!(verify_crx_info(&info), Err(ParseError::UnexpectedPublicKey));
}

#[test]
fn validator_rejects_unexpected_signature() {
    let info = CrxInfo::new(3, vec![], vec![1], 12);
    assert_eq!(verify_crx_info(&info), Err(ParseError::UnexpectedSignature));
}

#[test]
fn validator_rejects_small_offset_v2() {
    let info = CrxInfo::new(2, vec![1], vec![2], 5);
    assert_eq!(
        verify_crx_info(&info),
        Err(ParseError::OffsetTooSmall { offset: 5, minimum: 16 })
    );
}

#[test]
fn validator_rejects_small_offset_v3() {
    let info = CrxInfo::new(3, vec![], vec![], 11);
    assert_eq!(
        verify_crx_info(&info),
        Err(ParseError::OffsetTooSmall { offset: 11, minimum: 12 })
    );
}
