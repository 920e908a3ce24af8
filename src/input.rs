//! Decoding of the fixed-size input reports that the device sends.

use vstd::prelude::*;

use crate::error::ProtocolError;

verus! {

/// Length in bytes of every input report.
pub const INPUT_REPORT_LEN: usize = 14;

/// Number of keys that a button report carries.
pub const BUTTON_COUNT: usize = 8;

/// Number of encoders that an encoder report carries.
pub const ENCODER_COUNT: usize = 4;

/// Offset of the first key byte in a button report, and of the sub-kind
/// byte in an encoder report.
pub const PAYLOAD_OFFSET: usize = 4;

/// Report kind byte (offset 1) of a button report.
pub const KIND_BUTTONS: u8 = 0x00;

/// Report kind byte of a touch-strip report.
pub const KIND_TOUCH: u8 = 0x02;

/// Report kind byte of an encoder report.
pub const KIND_ENCODERS: u8 = 0x03;

/// Sub-kind byte (offset 4) of an encoder press report.
pub const ENCODER_PRESS: u8 = 0x00;

/// Sub-kind byte of an encoder twist report.
pub const ENCODER_TWIST: u8 = 0x01;

/// One decoded input report.
#[derive(Clone, Copy, Debug, PartialEq, Eq)]
pub enum Input {
    /// The device had nothing new to say.
    NoData,
    /// Which keys are held, by key index.
    Buttons([bool; 8]),
    /// Which encoders are pushed in, by encoder index.
    EncoderPress([bool; 4]),
    /// How far each encoder turned since the last report.
    EncoderTwist([i8; 4]),
    /// A touch-strip gesture; recognized so that it is not mistaken for key
    /// or encoder data, and otherwise discarded.
    Touch,
}

/// The two's complement reading of a byte.
pub open spec fn signed_byte(x: u8) -> int {
    if x < 128 {
        x as int
    } else {
        x as int - 256
    }
}

/// `r` is what the report bytes `b` decode to.
pub open spec fn decodes_to(b: Seq<u8>, r: Result<Input, ProtocolError>) -> bool {
    if b[0] == 0 {
        r == Ok::<Input, ProtocolError>(Input::NoData)
    } else if b[1] == KIND_BUTTONS {
        buttons_decode_to(b, r)
    } else if b[1] == KIND_TOUCH {
        r == Ok::<Input, ProtocolError>(Input::Touch)
    } else if b[1] == KIND_ENCODERS {
        encoders_decode_to(b, r)
    } else {
        r == Err::<Input, ProtocolError>(ProtocolError::UnknownReportKind(b[1]))
    }
}

/// `r` is the button array found at offset 4: a key is held when its byte
/// is not zero.
pub open spec fn buttons_decode_to(b: Seq<u8>, r: Result<Input, ProtocolError>) -> bool {
    r matches Ok(Input::Buttons(a)) && forall|i: int|
        0 <= i < BUTTON_COUNT ==> #[trigger] a[i] == (b[PAYLOAD_OFFSET + i] != 0)
}

/// `r` is the encoder payload: sub-kind at offset 4, one byte per encoder
/// from offset 5.
pub open spec fn encoders_decode_to(b: Seq<u8>, r: Result<Input, ProtocolError>) -> bool {
    let sub = b[PAYLOAD_OFFSET as int];
    if sub == ENCODER_PRESS {
        r matches Ok(Input::EncoderPress(a)) && forall|i: int|
            0 <= i < ENCODER_COUNT ==> #[trigger] a[i] == (b[PAYLOAD_OFFSET + 1 + i] != 0)
    } else if sub == ENCODER_TWIST {
        r matches Ok(Input::EncoderTwist(d)) && forall|i: int|
            0 <= i < ENCODER_COUNT ==> #[trigger] d[i] as int == signed_byte(
                b[PAYLOAD_OFFSET + 1 + i],
            )
    } else {
        r == Err::<Input, ProtocolError>(ProtocolError::UnknownEncoderKind(sub))
    }
}

/// Reads the key array of a button report.
pub fn read_buttons(buffer: [u8; 14]) -> (r: Result<Input, ProtocolError>)
    ensures
        buttons_decode_to(buffer@, r),
{
    let a: [bool; 8] = [
        buffer[4] != 0,
        buffer[5] != 0,
        buffer[6] != 0,
        buffer[7] != 0,
        buffer[8] != 0,
        buffer[9] != 0,
        buffer[10] != 0,
        buffer[11] != 0,
    ];
    Ok(Input::Buttons(a))
}

fn twist_delta(x: u8) -> (d: i8)
    ensures
        d as int == signed_byte(x),
{
    let d = x as i8;
    assert((x as i8) as int == if x < 128 {
        x as int
    } else {
        x as int - 256
    }) by (bit_vector);
    d
}

/// Reads the payload of an encoder report: presses or twists, by sub-kind.
pub fn read_encoders(buffer: [u8; 14]) -> (r: Result<Input, ProtocolError>)
    ensures
        encoders_decode_to(buffer@, r),
{
    match buffer[4] {
        ENCODER_PRESS => {
            let a: [bool; 4] = [buffer[5] != 0, buffer[6] != 0, buffer[7] != 0, buffer[8] != 0];
            Ok(Input::EncoderPress(a))
        },
        ENCODER_TWIST => {
            let d: [i8; 4] = [
                twist_delta(buffer[5]),
                twist_delta(buffer[6]),
                twist_delta(buffer[7]),
                twist_delta(buffer[8]),
            ];
            Ok(Input::EncoderTwist(d))
        },
        sub => Err(ProtocolError::UnknownEncoderKind(sub)),
    }
}

impl Input {
    /// Decodes one raw input report. A zero first byte means no new data;
    /// byte 1 selects the payload kind.
    pub fn decode(buffer: [u8; 14]) -> (r: Result<Input, ProtocolError>)
        ensures
            decodes_to(buffer@, r),
    {
        if buffer[0] == 0 {
            return Ok(Input::NoData);
        }
        match buffer[1] {
            KIND_BUTTONS => read_buttons(buffer),
            KIND_TOUCH => Ok(Input::Touch),
            KIND_ENCODERS => read_encoders(buffer),
            kind => Err(ProtocolError::UnknownReportKind(kind)),
        }
    }
}

} // verus!
