//! The decisions of the device worker: the one task that owns the device
//! handle. For each command it says what to write to the device; for each
//! input report, which events to hand to the consumer. Performing the
//! writes and reads, and moving values through the queues, is the caller's.

use vstd::prelude::*;

use crate::error::{CommandError, ProtocolError};
use crate::frame::{encode_frame, jpeg_of, solid_image, solid_pixels, RgbFrame};
use crate::identity::FEATURE_REPORT_LEN;
use crate::model::{spec_lcd_strip_size, Kind};
use crate::state::{initial_model, processed, InputEvent, InputState};
use crate::transfer::{
    budget, fits_in_one_transfer, page_count, paged, pages_view, paginate, PageTarget, MAX_PAGES,
};

verus! {

/// Highest key index that accepts an image.
pub const MAX_KEY_INDEX: u8 = 7;

/// Side in pixels of the square image of a key.
pub const KEY_IMAGE_SIZE: u16 = 120;

/// Width of the LCD strip: the largest accepted x of an LCD region.
pub const LCD_STRIP_WIDTH: u16 = 800;

/// Height of the LCD strip: the largest accepted y of an LCD region.
pub const LCD_STRIP_HEIGHT: u16 = 100;

/// Highest brightness, in percent.
pub const MAX_BRIGHTNESS: u8 = 100;

/// Where rendered text is placed on the LCD strip.
pub const LCD_TEXT_X: u16 = 10;

pub const LCD_TEXT_Y: u16 = 10;

/// Size of the image that text is rendered into.
pub const LCD_TEXT_WIDTH: u16 = 800;

pub const LCD_TEXT_HEIGHT: u16 = 100;

/// First byte of the feature reports that set device state.
pub const SET_FEATURE_REPORT_ID: u8 = 0x03;

/// Second byte of the feature report that sets the brightness.
pub const BRIGHTNESS_OPCODE: u8 = 0x08;

/// Second byte of the feature report that resets the device.
pub const RESET_OPCODE: u8 = 0x02;

/// A request from the device's consumer.
#[derive(Debug, PartialEq, Eq)]
pub enum Command {
    /// Reset the device and stop the worker.
    Shutdown,
    /// Set the backlight, in percent.
    SetBrightness(u8),
    /// Show an image on a key.
    SetButtonImage(u8, RgbFrame),
    /// Show an already encoded image on a key.
    SetButtonImageData(u8, Vec<u8>),
    /// Fill a key with one RGB color.
    SetButtonColor(u8, [u8; 3]),
    /// Show an image on the LCD strip with its top left corner at `(x, y)`.
    SetLcdRegion(u16, u16, RgbFrame),
    /// Show a line of text on the LCD strip.
    SetLcdText(String),
}

/// What the owner of the device handle must do for a command.
#[derive(Debug, PartialEq, Eq)]
pub enum Action {
    /// Send this feature report.
    SendFeature(Vec<u8>),
    /// Write these output reports, in order, stopping at the first failure.
    WritePages(Vec<Vec<u8>>),
    /// Render this text into an `LCD_TEXT_WIDTH` by `LCD_TEXT_HEIGHT` frame
    /// and submit it as `SetLcdRegion(LCD_TEXT_X, LCD_TEXT_Y, frame)`.
    RenderLcdText(String),
    /// Send this reset report, best effort, and stop.
    Stop(Vec<u8>),
}

/// What an `Action` stands for.
pub enum Plan {
    Feature(Seq<u8>),
    Pages(Seq<Seq<u8>>),
    Text(Seq<char>),
    Stop(Seq<u8>),
}

pub open spec fn plan_of(a: Action) -> Plan {
    match a {
        Action::SendFeature(r) => Plan::Feature(r@),
        Action::WritePages(pages) => Plan::Pages(pages_view(pages@)),
        Action::RenderLcdText(t) => Plan::Text(t@),
        Action::Stop(r) => Plan::Stop(r@),
    }
}

pub open spec fn outcome_of(r: Result<Action, CommandError>) -> Result<Plan, CommandError> {
    match r {
        Ok(a) => Ok(plan_of(a)),
        Err(e) => Err(e),
    }
}

pub open spec fn pages_outcome_of(r: Result<Vec<Vec<u8>>, CommandError>) -> Result<Seq<Seq<u8>>, CommandError> {
    match r {
        Ok(pages) => Ok(pages_view(pages@)),
        Err(e) => Err(e),
    }
}

/// Whether the worker still owns a live device.
#[derive(Clone, Copy, Debug, PartialEq, Eq, Structural)]
pub enum Status {
    Disconnected,
    Connected,
}

/// A synchronous request, answered with a `DeckResponse`.
#[derive(Clone, Copy, Debug, PartialEq, Eq, Structural)]
pub enum DeckRequest {
    Ping,
    SetBrightness(u8),
}

#[derive(Clone, Copy, Debug, PartialEq, Eq, Structural)]
pub enum DeckResponse {
    Pong,
    Success,
}

/// A feature report: two command bytes, then zeros.
pub open spec fn feature_report(opcode: u8, value: Seq<u8>) -> Seq<u8> {
    seq![SET_FEATURE_REPORT_ID, opcode] + value + Seq::new(
        (FEATURE_REPORT_LEN - 2 - value.len()) as nat,
        |_i: int| 0u8,
    )
}

fn feature_report_bytes(opcode: u8, value: Option<u8>) -> (r: Vec<u8>)
    ensures
        r@ == feature_report(
            opcode,
            match value {
                Some(v) => seq![v],
                None => seq![],
            },
        ),
{
    let mut r: Vec<u8> = Vec::new();
    r.push(SET_FEATURE_REPORT_ID);
    r.push(opcode);
    match value {
        Some(v) => r.push(v),
        None => {},
    }
    let ghost head = r@;
    while r.len() < FEATURE_REPORT_LEN
        invariant
            head.len() <= r@.len() <= FEATURE_REPORT_LEN,
            head.len() <= 3,
            r@ == head + Seq::new((r@.len() - head.len()) as nat, |_i: int| 0u8),
        decreases FEATURE_REPORT_LEN - r@.len(),
    {
        r.push(0);
        assert(r@ =~= head + Seq::new((r@.len() - head.len()) as nat, |_i: int| 0u8));
    }
    assert(r@ =~= feature_report(
        opcode,
        match value {
            Some(v) => seq![v],
            None => seq![],
        },
    ));
    r
}

/// The bounds of an LCD region's position are the size of the strip that
/// the registry gives the model with an LCD.
pub proof fn lemma_lcd_bounds_are_strip_size()
    ensures
        spec_lcd_strip_size(Kind::Plus) == Some((LCD_STRIP_WIDTH, LCD_STRIP_HEIGHT)),
{
}

/// The feature report that sets the backlight to `percent`.
pub fn brightness_report(percent: u8) -> (r: Vec<u8>)
    requires
        percent <= MAX_BRIGHTNESS,
    ensures
        r@ == feature_report(BRIGHTNESS_OPCODE, seq![percent]),
        r@.len() == FEATURE_REPORT_LEN,
{
    feature_report_bytes(BRIGHTNESS_OPCODE, Some(percent))
}

/// The feature report that resets the device to its idle picture.
pub fn reset_report() -> (r: Vec<u8>)
    ensures
        r@ == feature_report(RESET_OPCODE, seq![]),
        r@.len() == FEATURE_REPORT_LEN,
{
    feature_report_bytes(RESET_OPCODE, None)
}

/// The pages that send an encoded payload, or `ImageTooLarge` when it needs
/// more pages than a transfer can number.
pub open spec fn spec_payload_pages(t: PageTarget, data: Seq<u8>) -> Result<Seq<Seq<u8>>, CommandError> {
    if page_count(data.len(), budget(t)) <= MAX_PAGES {
        Ok(paged(t, data))
    } else {
        Err(CommandError::ImageTooLarge(data.len() as usize))
    }
}

/// What sending an already encoded image to a key comes to.
pub open spec fn spec_key_data_pages(key: u8, data: Seq<u8>) -> Result<Seq<Seq<u8>>, CommandError> {
    if key > MAX_KEY_INDEX {
        Err(CommandError::InvalidButtonIndex(key))
    } else {
        spec_payload_pages(PageTarget::Key(key), data)
    }
}

/// What sending an image to a key comes to: the key must exist and the
/// image must be of the key's size; it is sent as JPEG.
pub open spec fn spec_key_image_pages(key: u8, frame: RgbFrame) -> Result<Seq<Seq<u8>>, CommandError> {
    if key > MAX_KEY_INDEX {
        Err(CommandError::InvalidButtonIndex(key))
    } else if frame.spec_width() != KEY_IMAGE_SIZE || frame.spec_height() != KEY_IMAGE_SIZE {
        Err(CommandError::InvalidImageSize(frame.spec_width(), frame.spec_height()))
    } else {
        spec_payload_pages(
            PageTarget::Key(key),
            jpeg_of(frame.spec_pixels(), KEY_IMAGE_SIZE as nat, KEY_IMAGE_SIZE as nat),
        )
    }
}

/// What filling a key with one color comes to.
pub open spec fn spec_key_color_pages(key: u8, color: [u8; 3]) -> Result<Seq<Seq<u8>>, CommandError> {
    if key > MAX_KEY_INDEX {
        Err(CommandError::InvalidButtonIndex(key))
    } else {
        spec_payload_pages(
            PageTarget::Key(key),
            jpeg_of(
                solid_pixels(KEY_IMAGE_SIZE as nat, KEY_IMAGE_SIZE as nat, color),
                KEY_IMAGE_SIZE as nat,
                KEY_IMAGE_SIZE as nat,
            ),
        )
    }
}

/// What sending an image to the LCD strip at `(x, y)` comes to.
pub open spec fn spec_lcd_image_pages(x: u16, y: u16, frame: RgbFrame) -> Result<Seq<Seq<u8>>, CommandError> {
    let (w, h) = (frame.spec_width(), frame.spec_height());
    if x > LCD_STRIP_WIDTH || y > LCD_STRIP_HEIGHT {
        Err(CommandError::InvalidLcdPosition(x, y))
    } else if w == 0 || h == 0 {
        Err(CommandError::EncodingFailed)
    } else {
        spec_payload_pages(
            PageTarget::LcdRegion { x, y, width: w, height: h },
            jpeg_of(frame.spec_pixels(), w as nat, h as nat),
        )
    }
}

fn payload_pages(target: PageTarget, data: &Vec<u8>) -> (r: Result<Vec<Vec<u8>>, CommandError>)
    ensures
        pages_outcome_of(r) == spec_payload_pages(target, data@),
{
    if fits_in_one_transfer(&target, data.len()) {
        Ok(paginate(&target, data))
    } else {
        Err(CommandError::ImageTooLarge(data.len()))
    }
}

/// The pages that show an already encoded image on a key.
pub fn key_data_pages(key: u8, data: &Vec<u8>) -> (r: Result<Vec<Vec<u8>>, CommandError>)
    ensures
        pages_outcome_of(r) == spec_key_data_pages(key, data@),
{
    if key > MAX_KEY_INDEX {
        return Err(CommandError::InvalidButtonIndex(key));
    }
    payload_pages(PageTarget::Key(key), data)
}

/// The pages that show an image on a key: the image is checked against the
/// key's size, encoded as JPEG and cut into pages.
pub fn key_image_pages(key: u8, frame: &RgbFrame) -> (r: Result<Vec<Vec<u8>>, CommandError>)
    ensures
        pages_outcome_of(r) == spec_key_image_pages(key, *frame),
{
    if key > MAX_KEY_INDEX {
        return Err(CommandError::InvalidButtonIndex(key));
    }
    if frame.width() != KEY_IMAGE_SIZE || frame.height() != KEY_IMAGE_SIZE {
        return Err(CommandError::InvalidImageSize(frame.width(), frame.height()));
    }
    match encode_frame(frame) {
        Some(data) => payload_pages(PageTarget::Key(key), &data),
        None => Err(CommandError::EncodingFailed),
    }
}

/// The pages that fill a key with one color.
pub fn key_color_pages(key: u8, color: [u8; 3]) -> (r: Result<Vec<Vec<u8>>, CommandError>)
    ensures
        pages_outcome_of(r) == spec_key_color_pages(key, color),
{
    if key > MAX_KEY_INDEX {
        return Err(CommandError::InvalidButtonIndex(key));
    }
    let frame = solid_image(KEY_IMAGE_SIZE, KEY_IMAGE_SIZE, color);
    key_image_pages(key, &frame)
}

/// The pages that show an image on the LCD strip with its top left corner
/// at `(x, y)`.
pub fn lcd_image_pages(x: u16, y: u16, frame: &RgbFrame) -> (r: Result<Vec<Vec<u8>>, CommandError>)
    ensures
        pages_outcome_of(r) == spec_lcd_image_pages(x, y, *frame),
{
    if x > LCD_STRIP_WIDTH || y > LCD_STRIP_HEIGHT {
        return Err(CommandError::InvalidLcdPosition(x, y));
    }
    let width = frame.width();
    let height = frame.height();
    match encode_frame(frame) {
        Some(data) => payload_pages(PageTarget::LcdRegion { x, y, width, height }, &data),
        None => Err(CommandError::EncodingFailed),
    }
}

pub open spec fn map_pages(r: Result<Seq<Seq<u8>>, CommandError>) -> Result<Plan, CommandError> {
    match r {
        Ok(pages) => Ok(Plan::Pages(pages)),
        Err(e) => Err(e),
    }
}

/// What the worker does with a command while it owns a live device.
pub open spec fn spec_plan(command: Command) -> Result<Plan, CommandError> {
    match command {
        Command::Shutdown => Ok(Plan::Stop(feature_report(RESET_OPCODE, seq![]))),
        Command::SetBrightness(p) => if p > MAX_BRIGHTNESS {
            Err(CommandError::InvalidBrightness(p))
        } else {
            Ok(Plan::Feature(feature_report(BRIGHTNESS_OPCODE, seq![p])))
        },
        Command::SetButtonImage(key, frame) => map_pages(spec_key_image_pages(key, frame)),
        Command::SetButtonImageData(key, data) => map_pages(spec_key_data_pages(key, data@)),
        Command::SetButtonColor(key, color) => map_pages(spec_key_color_pages(key, color)),
        Command::SetLcdRegion(x, y, frame) => map_pages(spec_lcd_image_pages(x, y, frame)),
        Command::SetLcdText(text) => Ok(Plan::Text(text@)),
    }
}

/// The decision state of the worker that owns one device: the input state
/// machine, and whether the device is still live.
pub struct DeviceWorker {
    input: InputState,
    status: Status,
}

impl DeviceWorker {
    pub closed spec fn spec_status(&self) -> Status {
        self.status
    }

    pub closed spec fn spec_input(&self) -> InputState {
        self.input
    }

    /// A worker for a freshly opened device: connected, nothing held.
    pub fn new() -> (w: Self)
        ensures
            w.spec_status() == Status::Connected,
            w.spec_input()@ == initial_model(),
    {
        DeviceWorker { input: InputState::new(), status: Status::Connected }
    }

    pub fn status(&self) -> (r: Status)
        ensures
            r == self.spec_status(),
    {
        self.status
    }

    pub fn input(&self) -> (r: &InputState)
        ensures
            *r == self.spec_input(),
    {
        &self.input
    }

    /// Decides what a command comes to. A stopped worker refuses every
    /// command; `Shutdown` stops it. A failed command changes nothing.
    pub fn handle_command(&mut self, command: Command) -> (r: Result<Action, CommandError>)
        ensures
            final(self).spec_input() == old(self).spec_input(),
            old(self).spec_status() == Status::Disconnected ==> r == Err::<Action, CommandError>(
                CommandError::Stopped,
            ) && final(self).spec_status() == Status::Disconnected,
            old(self).spec_status() == Status::Connected ==> outcome_of(r) == spec_plan(command)
                && final(self).spec_status() == (if command is Shutdown {
                Status::Disconnected
            } else {
                Status::Connected
            }),
    {
        if let Status::Disconnected = self.status {
            return Err(CommandError::Stopped);
        }
        match command {
            Command::Shutdown => {
                self.status = Status::Disconnected;
                Ok(Action::Stop(reset_report()))
            },
            Command::SetBrightness(percent) => if percent > MAX_BRIGHTNESS {
                Err(CommandError::InvalidBrightness(percent))
            } else {
                Ok(Action::SendFeature(brightness_report(percent)))
            },
            Command::SetButtonImage(key, frame) => match key_image_pages(key, &frame) {
                Ok(pages) => Ok(Action::WritePages(pages)),
                Err(e) => Err(e),
            },
            Command::SetButtonImageData(key, data) => match key_data_pages(key, &data) {
                Ok(pages) => Ok(Action::WritePages(pages)),
                Err(e) => Err(e),
            },
            Command::SetButtonColor(key, color) => match key_color_pages(key, color) {
                Ok(pages) => Ok(Action::WritePages(pages)),
                Err(e) => Err(e),
            },
            Command::SetLcdRegion(x, y, frame) => match lcd_image_pages(x, y, &frame) {
                Ok(pages) => Ok(Action::WritePages(pages)),
                Err(e) => Err(e),
            },
            Command::SetLcdText(text) => Ok(Action::RenderLcdText(text)),
        }
    }

    /// Answers a synchronous request: a ping needs no device work; a
    /// brightness change is the `SetBrightness` command, answered with
    /// `Success` once its action is done.
    pub fn handle_request(&mut self, request: DeckRequest) -> (r: Result<
        (Option<Action>, DeckResponse),
        CommandError,
    >)
        ensures
            final(self).spec_input() == old(self).spec_input(),
            final(self).spec_status() == old(self).spec_status(),
            request is Ping ==> r matches Ok((None, DeckResponse::Pong)),
            request matches DeckRequest::SetBrightness(p) ==> (old(self).spec_status()
                == Status::Disconnected ==> r == Err::<(Option<Action>, DeckResponse), CommandError>(
                CommandError::Stopped,
            )) && (old(self).spec_status() == Status::Connected && p > MAX_BRIGHTNESS ==> r == Err::<
                (Option<Action>, DeckResponse),
                CommandError,
            >(CommandError::InvalidBrightness(p))) && (old(self).spec_status() == Status::Connected
                && p <= MAX_BRIGHTNESS ==> (r matches Ok((Some(a), DeckResponse::Success))
                && plan_of(a) == Plan::Feature(feature_report(BRIGHTNESS_OPCODE, seq![p])))),
    {
        match request {
            DeckRequest::Ping => Ok((None, DeckResponse::Pong)),
            DeckRequest::SetBrightness(percent) => match self.handle_command(
                Command::SetBrightness(percent),
            ) {
                Ok(action) => Ok((Some(action), DeckResponse::Success)),
                Err(e) => Err(e),
            },
        }
    }

    /// Decodes and applies one input report; see `InputState::process`.
    pub fn handle_report(&mut self, report: [u8; 14]) -> (r: Result<Vec<InputEvent>, ProtocolError>)
        ensures
            final(self).spec_status() == old(self).spec_status(),
            processed(old(self).spec_input()@, report@, final(self).spec_input()@, r),
    {
        self.input.process(report)
    }

    /// The device handle failed for good: the worker stops and hands the
    /// consumer a final `Disconnected` event.
    pub fn device_lost(&mut self) -> (e: InputEvent)
        ensures
            final(self).spec_input() == old(self).spec_input(),
            final(self).spec_status() == Status::Disconnected,
            e == InputEvent::Disconnected,
    {
        self.status = Status::Disconnected;
        InputEvent::Disconnected
    }

    /// Decides what a failed input read comes to. While the OS handle still
    /// answers, the failure is one bad read: it is reported and the worker
    /// goes on. Once the handle is gone, the device is lost.
    pub fn handle_read_failure(&mut self, handle_alive: bool) -> (r: Option<InputEvent>)
        ensures
            final(self).spec_input() == old(self).spec_input(),
            handle_alive ==> r is None && final(self).spec_status() == old(self).spec_status(),
            !handle_alive ==> r == Some(InputEvent::Disconnected) && final(self).spec_status()
                == Status::Disconnected,
    {
        if handle_alive {
            None
        } else {
            Some(self.device_lost())
        }
    }
}

/// Something that answers requests of one type with responses of another.
pub trait Requestable {
    type Request;
    type Response;

    fn handle(&mut self, request: Self::Request) -> Self::Response;
}

impl Requestable for DeviceWorker {
    type Request = Command;
    type Response = Result<Action, CommandError>;

    fn handle(&mut self, request: Command) -> Result<Action, CommandError> {
        self.handle_command(request)
    }
}

} // verus!
