//! The driver's error taxonomy.

use vstd::prelude::*;

verus! {

/// Failures while finding and resolving a device.
#[derive(Clone, Copy, Debug, PartialEq, Eq, Structural)]
pub enum StreamDeckError {
    /// The vendor id is not the manufacturer's.
    InvalidVendorID(u16),
    /// The product id matches no row of the registry.
    InvalidProductID(u16),
    /// The handle was used after it was dropped.
    DeviceNotConnected,
    /// No supported device is attached.
    NoDeviceFound,
    /// More than one supported device is attached; the count is given.
    MoreThanOneDevice(usize),
}

/// Violations of the wire protocol.
#[derive(Clone, Copy, Debug, PartialEq, Eq, Structural)]
pub enum ProtocolError {
    /// An identity reply is too short or holds no valid UTF-8 before its NUL.
    Malformed,
    /// An input report's kind byte is not one the decoder knows.
    UnknownReportKind(u8),
    /// An encoder report's sub-kind byte is not one the decoder knows.
    UnknownEncoderKind(u8),
    /// A multi-page transfer stopped after this many pages were written.
    PartialWrite(usize),
}

/// Failures of a command taken from the command queue.
#[derive(Clone, Copy, Debug, PartialEq, Eq, Structural)]
pub enum CommandError {
    /// The brightness is above 100 percent.
    InvalidBrightness(u8),
    /// The key index is beyond the device's keys.
    InvalidButtonIndex(u8),
    /// The LCD position lies outside the strip.
    InvalidLcdPosition(u16, u16),
    /// The image is not of the size that the target expects.
    InvalidImageSize(u16, u16),
    /// The image codec refused the image.
    EncodingFailed,
    /// The encoded image needs more pages than a transfer can number.
    ImageTooLarge(usize),
    /// The worker has stopped and takes no more commands.
    Stopped,
    Protocol(ProtocolError),
}

} // verus!
