use streamdeck::identity::{
    feature_request, firmware_version, firmware_version_request, serial_number,
    serial_number_request,
};
use streamdeck::{extract_string, ProtocolError};

fn reply(head: &[u8], text: &[u8]) -> Vec<u8> {
    let mut r = head.to_vec();
    r.extend_from_slice(text);
    r.resize(32, 0);
    r
}

#[test]
fn serial_number_round_trip() {
    let buf = reply(&[0x06, 12], b"ABC123");
    assert_eq!(serial_number(&buf), Ok("ABC123".to_string()));
}

#[test]
fn get_serial_number() {
    let buf = reply(&[0x06, 12], b"A00SA3052L9JZ1");
    assert!(serial_number(&buf).is_ok());
}

#[test]
fn firmware_version_skips_reserved_bytes() {
    let buf = reply(&[0x05, 12, 0xAA, 0xBB, 0xCC, 0xDD], b"1.00.006");
    assert_eq!(firmware_version(&buf), Ok("1.00.006".to_string()));
}

#[test]
fn string_stops_at_first_nul() {
    assert_eq!(extract_string(b"ab\0cd\0"), Ok("ab".to_string()));
    assert_eq!(extract_string(b"no terminator"), Ok("no terminator".to_string()));
    assert_eq!(extract_string(b"\0tail"), Ok(String::new()));
}

#[test]
fn multibyte_utf8_is_decoded() {
    assert_eq!(extract_string(&[0xC3, 0xA9, b'!', 0]), Ok("é!".to_string()));
}

#[test]
fn invalid_utf8_is_malformed() {
    let buf = reply(&[0x06, 12], &[0xFF, 0xFE, b'A']);
    assert_eq!(serial_number(&buf), Err(ProtocolError::Malformed));
}

#[test]
fn short_reply_is_malformed() {
    assert_eq!(serial_number(&[0x06]), Err(ProtocolError::Malformed));
    assert_eq!(firmware_version(&[0x05, 3, 0, 0]), Err(ProtocolError::Malformed));
}

#[test]
fn requests_carry_their_report_id() {
    let serial = serial_number_request();
    assert_eq!(serial.len(), 32);
    assert_eq!(serial[0], 0x06);
    assert!(serial[1..].iter().all(|b| *b == 0));
    assert_eq!(firmware_version_request()[0], 0x05);
    assert_eq!(feature_request(0x42)[0], 0x42);
}
