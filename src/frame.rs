//! RGB bitmaps as the driver handles them, and their JPEG encoding.

use vstd::prelude::*;

use image::codecs::jpeg::JpegEncoder;
use image::ExtendedColorType;

verus! {

/// An 8-bit RGB bitmap: `width * height` pixels, row by row, three bytes
/// each.
#[derive(Debug, PartialEq, Eq)]
pub struct RgbFrame {
    width: u16,
    height: u16,
    pixels: Vec<u8>,
}

impl RgbFrame {
    #[verifier::type_invariant]
    spec fn pixels_fill_frame(self) -> bool {
        self.pixels@.len() == self.width * self.height * 3
    }

    pub closed spec fn spec_width(&self) -> u16 {
        self.width
    }

    pub closed spec fn spec_height(&self) -> u16 {
        self.height
    }

    pub closed spec fn spec_pixels(&self) -> Seq<u8> {
        self.pixels@
    }

    /// The pixel bytes fill the frame exactly.
    pub open spec fn wf(&self) -> bool {
        self.spec_pixels().len() == self.spec_width() * self.spec_height() * 3
    }

    /// A frame over the given pixel bytes; `None` when their number is not
    /// three per pixel.
    pub fn new(width: u16, height: u16, pixels: Vec<u8>) -> (r: Option<Self>)
        ensures
            r is Some <==> pixels@.len() == width * height * 3,
            r matches Some(f) ==> f.wf() && f.spec_width() == width && f.spec_height() == height
                && f.spec_pixels() == pixels@,
    {
        assert(width as u64 * height as u64 <= 0xFFFF * 0xFFFF) by (nonlinear_arith)
            requires
                width <= 0xFFFF,
                height <= 0xFFFF,
        ;
        let expected: u64 = width as u64 * height as u64 * 3;
        if pixels.len() as u64 == expected {
            Some(RgbFrame { width, height, pixels })
        } else {
            None
        }
    }

    pub fn width(&self) -> (r: u16)
        ensures
            r == self.spec_width(),
    {
        self.width
    }

    pub fn height(&self) -> (r: u16)
        ensures
            r == self.spec_height(),
    {
        self.height
    }

    pub fn pixels(&self) -> (r: &Vec<u8>)
        ensures
            r@ == self.spec_pixels(),
            self.wf(),
    {
        proof {
            use_type_invariant(self);
        }
        &self.pixels
    }
}

/// Every pixel of the frame has the given color.
pub open spec fn is_solid(pixels: Seq<u8>, color: [u8; 3]) -> bool {
    forall|i: int| 0 <= i < pixels.len() ==> #[trigger] pixels[i] == color[i % 3]
}

/// The pixel bytes of a `width` by `height` frame of one color.
pub open spec fn solid_pixels(width: nat, height: nat, color: [u8; 3]) -> Seq<u8> {
    Seq::new(width * height * 3, |i: int| color[i % 3])
}

/// A frame of the given size in which every pixel has one color.
pub fn solid_image(width: u16, height: u16, color: [u8; 3]) -> (f: RgbFrame)
    ensures
        f.wf(),
        f.spec_width() == width,
        f.spec_height() == height,
        f.spec_pixels() == solid_pixels(width as nat, height as nat, color),
{
    assert(width as u64 * height as u64 <= 0xFFFF * 0xFFFF) by (nonlinear_arith)
        requires
            width <= 0xFFFF,
            height <= 0xFFFF,
    ;
    let count: u64 = width as u64 * height as u64;
    let mut pixels: Vec<u8> = Vec::new();
    let mut i: u64 = 0;
    while i < count
        invariant
            count == width * height,
            i <= count,
            pixels@.len() == i * 3,
            is_solid(pixels@, color),
        decreases count - i,
    {
        pixels.push(color[0]);
        pixels.push(color[1]);
        pixels.push(color[2]);
        i = i + 1;
        assert(is_solid(pixels@, color)) by {
            assert forall|k: int| 0 <= k < pixels@.len() implies #[trigger] pixels@[k] == color[k
                % 3] by {
                if k >= (i - 1) * 3 {
                    assert(k % 3 == k - (i - 1) * 3);
                }
            }
        }
    }
    assert(pixels@ =~= solid_pixels(width as nat, height as nat, color));
    RgbFrame { width, height, pixels }
}

/// The JPEG stream that the image codec writes for the given RGB pixels.
pub uninterp spec fn jpeg_of(pixels: Seq<u8>, width: nat, height: nat) -> Seq<u8>;

/// Relies on `image::codecs::jpeg::JpegEncoder::encode` with 8-bit RGB
/// input: it panics unless the buffer holds three bytes per pixel, fails
/// only for a zero width or height (a `Vec` writer never fails), and
/// otherwise writes a stream that depends on the pixels and size alone.
#[verifier::external_body]
fn encode_jpeg(pixels: &Vec<u8>, width: u16, height: u16) -> (r: Option<Vec<u8>>)
    requires
        pixels@.len() == width * height * 3,
    ensures
        r is Some <==> (width >= 1 && height >= 1),
        r matches Some(out) ==> out@ == jpeg_of(pixels@, width as nat, height as nat),
{
    let mut out: Vec<u8> = Vec::new();
    let result = JpegEncoder::new(&mut out).encode(
        pixels,
        width as u32,
        height as u32,
        ExtendedColorType::Rgb8,
    );
    match result {
        Ok(()) => Some(out),
        Err(_) => None,
    }
}

/// The JPEG encoding of a frame; `None` for a frame with no pixels.
pub fn encode_frame(frame: &RgbFrame) -> (r: Option<Vec<u8>>)
    ensures
        r is Some <==> (frame.spec_width() >= 1 && frame.spec_height() >= 1),
        r matches Some(out) ==> out@ == jpeg_of(
            frame.spec_pixels(),
            frame.spec_width() as nat,
            frame.spec_height() as nat,
        ),
{
    proof {
        use_type_invariant(frame);
    }
    encode_jpeg(&frame.pixels, frame.width, frame.height)
}

} // verus!
