//! Identity queries: the feature-report requests for the serial number and
//! the firmware version, and the parsing of their replies.

use vstd::prelude::*;
use vstd::utf8::{decode_utf8, pop_first_scalar, valid_utf8};

use crate::error::ProtocolError;

verus! {

/// Length in bytes of a feature report.
pub const FEATURE_REPORT_LEN: usize = 32;

/// Report id of the serial number query.
pub const SERIAL_NUMBER_REPORT_ID: u8 = 0x06;

/// Report id of the firmware version query.
pub const FIRMWARE_VERSION_REPORT_ID: u8 = 0x05;

/// Where the string starts in a serial number reply: after the echoed
/// report id and the payload length.
pub const SERIAL_NUMBER_OFFSET: usize = 2;

/// Where the string starts in a firmware version reply: after the report
/// id, the payload length and four reserved bytes.
pub const FIRMWARE_VERSION_OFFSET: usize = 6;

/// The bytes before the first NUL, or all of them when there is none.
pub open spec fn until_nul(b: Seq<u8>) -> Seq<u8>
    decreases b.len(),
{
    if b.len() == 0 || b[0] == 0 {
        seq![]
    } else {
        seq![b[0]] + until_nul(b.drop_first())
    }
}

/// Every byte is 7-bit ASCII.
pub open spec fn is_ascii_bytes(b: Seq<u8>) -> bool {
    forall|i: int| 0 <= i < b.len() ==> #[trigger] b[i] < 0x80
}

/// The characters that ASCII bytes stand for, one for one.
pub open spec fn ascii_chars(b: Seq<u8>) -> Seq<char> {
    Seq::new(b.len(), |i: int| b[i] as char)
}

/// What a string field decodes to: the UTF-8 text before the first NUL, or
/// `Malformed` when those bytes are not valid UTF-8.
pub open spec fn string_field_decodes_to(b: Seq<u8>, r: Result<String, ProtocolError>) -> bool {
    let text = until_nul(b);
    match r {
        Ok(s) => valid_utf8(text) && s@ == decode_utf8(text),
        Err(e) => !valid_utf8(text) && e == ProtocolError::Malformed,
    }
}

/// Relies on `String::from_utf8`: it accepts exactly the valid UTF-8 byte
/// sequences and returns the characters they encode.
#[verifier::external_body]
fn utf8_to_string(bytes: Vec<u8>) -> (r: Option<String>)
    ensures
        r is Some <==> valid_utf8(bytes@),
        r matches Some(s) ==> s@ == decode_utf8(bytes@),
{
    String::from_utf8(bytes).ok()
}

/// ASCII bytes are valid UTF-8 and decode one character per byte.
pub proof fn lemma_ascii_is_utf8(b: Seq<u8>)
    requires
        is_ascii_bytes(b),
    ensures
        valid_utf8(b),
        decode_utf8(b) == ascii_chars(b),
    decreases b.len(),
{
    if b.len() > 0 {
        let x = b[0];
        assert(x < 0x80);
        assert((x & 0x7f) as u32 == x as u32) by (bit_vector)
            requires
                x < 0x80,
        ;
        let rest = b.drop_first();
        assert(pop_first_scalar(b) =~= rest);
        assert(is_ascii_bytes(rest)) by {
            assert forall|i: int| 0 <= i < rest.len() implies #[trigger] rest[i] < 0x80 by {
                assert(rest[i] == b[i + 1]);
            }
        }
        lemma_ascii_is_utf8(rest);
        assert(decode_utf8(b) =~= ascii_chars(b));
    }
}

/// Decodes a NUL-terminated string field: the bytes before the first NUL,
/// read as UTF-8.
pub fn extract_string(bytes: &[u8]) -> (r: Result<String, ProtocolError>)
    ensures
        string_field_decodes_to(bytes@, r),
        is_ascii_bytes(until_nul(bytes@)) ==> (r matches Ok(s) && s@ == ascii_chars(
            until_nul(bytes@),
        )),
{
    let mut text: Vec<u8> = Vec::new();
    let mut i: usize = 0;
    assert(bytes@.subrange(0, bytes@.len() as int) =~= bytes@);
    assert(text@ + until_nul(bytes@) =~= until_nul(bytes@));
    while i < bytes.len() && bytes[i] != 0
        invariant
            i <= bytes@.len(),
            forall|j: int| 0 <= j < i ==> bytes@[j] != 0,
            text@ == bytes@.subrange(0, i as int),
            until_nul(bytes@) == text@ + until_nul(bytes@.subrange(i as int, bytes@.len() as int)),
        decreases bytes.len() - i,
    {
        let ghost tail = bytes@.subrange(i as int, bytes@.len() as int);
        assert(tail.drop_first() =~= bytes@.subrange(i + 1, bytes@.len() as int));
        text.push(bytes[i]);
        i = i + 1;
        assert(until_nul(bytes@) == text@ + until_nul(
            bytes@.subrange(i as int, bytes@.len() as int),
        ));
    }
    assert(until_nul(bytes@.subrange(i as int, bytes@.len() as int)) =~= Seq::<u8>::empty());
    assert(until_nul(bytes@) =~= text@);
    proof {
        if is_ascii_bytes(until_nul(bytes@)) {
            lemma_ascii_is_utf8(until_nul(bytes@));
        }
    }
    match utf8_to_string(text) {
        Some(s) => Ok(s),
        None => Err(ProtocolError::Malformed),
    }
}

/// The bytes of a reply from `offset` up to the first NUL after it.
pub open spec fn reply_text(reply: Seq<u8>, offset: int) -> Seq<u8> {
    until_nul(reply.subrange(offset, reply.len() as int))
}

/// What a reply with its string at `offset` decodes to: `Malformed` when the
/// reply ends before the string starts, else the string field.
pub open spec fn reply_decodes_to(reply: Seq<u8>, offset: int, r: Result<String, ProtocolError>) -> bool {
    if reply.len() < offset {
        r == Err::<String, ProtocolError>(ProtocolError::Malformed)
    } else {
        string_field_decodes_to(reply.subrange(offset, reply.len() as int), r)
    }
}

fn parse_reply(reply: &[u8], offset: usize) -> (r: Result<String, ProtocolError>)
    ensures
        reply_decodes_to(reply@, offset as int, r),
        reply@.len() >= offset && is_ascii_bytes(reply_text(reply@, offset as int)) ==> (r matches Ok(
            s,
        ) && s@ == ascii_chars(reply_text(reply@, offset as int))),
{
    if reply.len() < offset {
        return Err(ProtocolError::Malformed);
    }
    extract_string(&reply[offset..reply.len()])
}

/// The request buffer of a feature report query: the report id in byte 0,
/// zeros after it.
pub fn feature_request(report_id: u8) -> (r: Vec<u8>)
    ensures
        r@.len() == FEATURE_REPORT_LEN,
        r@[0] == report_id,
        forall|i: int| 1 <= i < FEATURE_REPORT_LEN ==> #[trigger] r@[i] == 0,
{
    let mut r: Vec<u8> = Vec::new();
    r.push(report_id);
    while r.len() < FEATURE_REPORT_LEN
        invariant
            1 <= r@.len() <= FEATURE_REPORT_LEN,
            r@[0] == report_id,
            forall|i: int| 1 <= i < r@.len() ==> #[trigger] r@[i] == 0,
        decreases FEATURE_REPORT_LEN - r@.len(),
    {
        r.push(0);
    }
    r
}

/// The request buffer of the serial number query.
pub fn serial_number_request() -> (r: Vec<u8>)
    ensures
        r@.len() == FEATURE_REPORT_LEN,
        r@[0] == SERIAL_NUMBER_REPORT_ID,
        forall|i: int| 1 <= i < FEATURE_REPORT_LEN ==> #[trigger] r@[i] == 0,
{
    feature_request(SERIAL_NUMBER_REPORT_ID)
}

/// The request buffer of the firmware version query.
pub fn firmware_version_request() -> (r: Vec<u8>)
    ensures
        r@.len() == FEATURE_REPORT_LEN,
        r@[0] == FIRMWARE_VERSION_REPORT_ID,
        forall|i: int| 1 <= i < FEATURE_REPORT_LEN ==> #[trigger] r@[i] == 0,
{
    feature_request(FIRMWARE_VERSION_REPORT_ID)
}

/// Parses the reply to the serial number query: the NUL-terminated string
/// after the report id and length bytes. A string of ASCII bytes comes back
/// as those characters.
pub fn serial_number(reply: &[u8]) -> (r: Result<String, ProtocolError>)
    ensures
        reply_decodes_to(reply@, SERIAL_NUMBER_OFFSET as int, r),
        reply@.len() >= SERIAL_NUMBER_OFFSET && is_ascii_bytes(reply_text(reply@, SERIAL_NUMBER_OFFSET as int)) ==> (r matches Ok(
            s,
        ) && s@ == ascii_chars(reply_text(reply@, SERIAL_NUMBER_OFFSET as int))),
{
    parse_reply(reply, SERIAL_NUMBER_OFFSET)
}

/// Parses the reply to the firmware version query: the NUL-terminated
/// string after the report id, the length byte and four reserved bytes.
pub fn firmware_version(reply: &[u8]) -> (r: Result<String, ProtocolError>)
    ensures
        reply_decodes_to(reply@, FIRMWARE_VERSION_OFFSET as int, r),
        reply@.len() >= FIRMWARE_VERSION_OFFSET && is_ascii_bytes(reply_text(reply@, FIRMWARE_VERSION_OFFSET as int)) ==> (r matches Ok(
            s,
        ) && s@ == ascii_chars(reply_text(reply@, FIRMWARE_VERSION_OFFSET as int))),
{
    parse_reply(reply, FIRMWARE_VERSION_OFFSET)
}

} // verus!
