//! Protocol driver for a USB HID control surface: a grid of buttons, rotary
//! encoders and an LCD strip. The device's blocking transport is kept out of
//! this crate; what is here is the logic between the wire and the caller,
//! each function stated and proved with Verus.

pub mod error;
pub mod frame;
pub mod identity;
pub mod input;
pub mod model;
pub mod state;
pub mod transfer;
pub mod worker;

pub use error::{CommandError, ProtocolError, StreamDeckError};
pub use frame::{solid_image, RgbFrame};
pub use identity::extract_string;
pub use input::{read_buttons, read_encoders, Input};
pub use model::{list_devices, select_single_device, Grid, Kind, Model};
pub use state::{InputEvent, InputState};
pub use transfer::{paginate, PageTarget, PageWriter};
pub use worker::{
    Action, Command, DeckRequest, DeckResponse, DeviceWorker, Requestable, Status,
};
