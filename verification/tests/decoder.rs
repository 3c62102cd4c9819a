use sds011::{check_crc, check_header, crc, parse_message, read_response, DecodeError, Message};

#[test]
fn test_crc_check_fails() {
    let rsp = read_response(&[192, 14, 1, 21, 0, 64, 147, 246, 171, 170]);
    assert!(check_crc(&rsp).is_err());
}

#[test]
fn test_crc_check_passes() {
    let rsp = read_response(&[170, 192, 13, 0, 21, 0, 64, 147, 245, 171]);
    assert!(check_crc(&rsp).is_ok());
}

#[test]
fn test_header_valid() {
    let rsp = read_response(&[170, 192, 13, 0, 21, 0, 64, 147, 245, 171]);
    check_header(&rsp).unwrap();
    assert!(check_header(&rsp).is_ok());
}

#[test]
fn test_header_check_fails() {
    let rsp = read_response(&[192, 14, 1, 21, 0, 64, 147, 246, 171, 170]);
    assert!(check_header(&rsp).is_err());
}

#[test]
fn test_parses_message() {
    let bytes = &[170, 192, 13, 0, 21, 0, 64, 147, 245, 171];
    let msg = parse_message(bytes);
    assert!(msg.is_ok());
}

#[test]
fn test_parses_values_in_active_mode() {
    let bytes = &[170, 192, 13, 0, 21, 0, 64, 147, 245, 171];
    let msg = parse_message(bytes).unwrap();
    assert_eq!(msg.pm25_tenths as f32 / 10.0, 1.3);
    assert_eq!(msg.pm10_tenths as f32 / 10.0, 2.1);
}

#[test]
fn valid_frame_decodes_exactly() {
    let msg = parse_message(&[170, 192, 13, 0, 21, 0, 64, 147, 245, 171]).unwrap();
    assert_eq!(msg, Message { pm25_tenths: 13, pm10_tenths: 21 });
}

#[test]
fn misaligned_frame_reports_invalid_header() {
    let r = parse_message(&[192, 14, 1, 21, 0, 64, 147, 246, 171, 170]);
    assert_eq!(r, Err(DecodeError::InvalidHeader { header: 192, tail: 170 }));
}

#[test]
fn all_zero_frame_reports_invalid_header() {
    let r = parse_message(&[0; 10]);
    assert_eq!(r, Err(DecodeError::InvalidHeader { header: 0, tail: 0 }));
}

#[test]
fn bad_command_byte_reports_invalid_header() {
    let r = parse_message(&[170, 197, 13, 0, 21, 0, 64, 147, 245, 171]);
    assert_eq!(r, Err(DecodeError::InvalidHeader { header: 170, tail: 171 }));
}

#[test]
fn bad_tail_byte_reports_invalid_header() {
    let r = parse_message(&[170, 192, 13, 0, 21, 0, 64, 147, 245, 172]);
    assert_eq!(r, Err(DecodeError::InvalidHeader { header: 170, tail: 172 }));
}

#[test]
fn corrupted_checksum_reports_mismatch() {
    let r = parse_message(&[170, 192, 13, 0, 21, 0, 64, 147, 0, 171]);
    assert_eq!(r, Err(DecodeError::ChecksumMismatch { expected: 0, actual: 245 }));
    let r = parse_message(&[170, 192, 13, 0, 21, 0, 64, 147, 100, 171]);
    assert_eq!(r, Err(DecodeError::ChecksumMismatch { expected: 100, actual: 245 }));
}

#[test]
fn checksum_wraps_modulo_256() {
    // The payload sums to 256, so the carried checksum byte must be 0.
    let msg = parse_message(&[170, 192, 255, 1, 0, 0, 0, 0, 0, 171]).unwrap();
    assert_eq!(msg, Message { pm25_tenths: 511, pm10_tenths: 0 });
}

#[test]
fn crc_has_exact_value() {
    assert_eq!(crc(&[13, 0, 21, 0, 64, 147]), 245);
    assert_eq!(crc(&[0, 0, 0, 0, 0, 0]), 0);
    assert_eq!(crc(&[255, 1, 0, 0, 0, 0]), 0);
}

#[test]
fn crc_ignores_sentinel_and_checksum_bytes() {
    // Two frames agreeing on the payload but nowhere else.
    let a = read_response(&[170, 192, 13, 0, 21, 0, 64, 147, 245, 171]);
    let b = read_response(&[0, 99, 13, 0, 21, 0, 64, 147, 7, 42]);
    assert_eq!(crc(&a.data), crc(&b.data));
}

#[test]
fn read_response_splits_fields() {
    let rsp = read_response(&[170, 192, 13, 0, 21, 0, 64, 147, 245, 171]);
    assert_eq!(rsp.header, 170);
    assert_eq!(rsp.command, 192);
    assert_eq!(rsp.data, [13, 0, 21, 0, 64, 147]);
    assert_eq!(rsp.checksum, 245);
    assert_eq!(rsp.tail, 171);
}

#[test]
fn largest_readings_decode() {
    // Payload of all 0xFF bytes: sum is 1530, checksum byte 250.
    let msg = parse_message(&[170, 192, 255, 255, 255, 255, 255, 255, 250, 171]).unwrap();
    assert_eq!(msg, Message { pm25_tenths: 65535, pm10_tenths: 65535 });
    assert_eq!(msg.pm25_tenths as f32 / 10.0, 6553.5);
}
