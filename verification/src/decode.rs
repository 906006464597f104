use crate::error::CameraError;
use crate::frame::Frame;
use crate::frame::FrameView;
use vstd::prelude::*;

verus! {

/// The uncompressed layouts in which a camera delivers a buffer.
#[derive(Clone, Copy, Debug, PartialEq, Eq, Structural)]
pub enum SourceFormat {
    /// Packed YUV 4:2:2, four bytes for two pixels.
    Yuyv,
    /// Planar YUV 4:2:0: a plane of luma, then a plane of paired chroma.
    Nv12,
    /// One byte of luma a pixel.
    Gray,
    /// Three bytes a pixel: red, green, blue.
    RawRgb,
    /// Three bytes a pixel: blue, green, red.
    RawBgr,
}

/// How the bytes of a captured buffer are laid out.
#[derive(Clone, Copy, Debug, PartialEq, Eq, Structural)]
pub enum PixelFormat {
    /// Four bytes a pixel, already red, green, blue, alpha.
    Rgba,
    /// A layout of the camera, still to be converted.
    Source(SourceFormat),
}

/// A buffer as the camera delivered it.
#[derive(Debug, PartialEq, Eq)]
pub struct RawFrame {
    pub width: u32,
    pub height: u32,
    pub format: PixelFormat,
    pub data: Vec<u8>,
}

pub struct RawFrameView {
    pub width: u32,
    pub height: u32,
    pub format: PixelFormat,
    pub data: Seq<u8>,
}

impl View for RawFrame {
    type V = RawFrameView;

    open spec fn view(&self) -> RawFrameView {
        RawFrameView { width: self.width, height: self.height, format: self.format, data: self.data@ }
    }
}

/// The RGBA bytes that the capture library's decoder makes of a packed or planar YUV buffer
/// of `width` by `height` pixels, or `None` where it refuses the buffer.
pub uninterp spec fn converted_rgba(format: SourceFormat, width: u32, height: u32, data: Seq<u8>) -> Option<Seq<u8>>;

/// Whether the capture library's decoder is asked about a buffer of this format and size.
/// It multiplies the bytes of a pixel by the width before anything else, in 32 bits for a
/// planar buffer and in the machine's word for the image it returns, so no row may pass
/// that size. Its planar conversion moreover divides the buffer into rows of `width` bytes,
/// computes the sizes in 32 bits and allocates the whole grid before it looks at the buffer,
/// so a planar buffer is handed over only with a width, a grid whose byte count fits, and
/// three bytes for every two pixels.
pub open spec fn convertible(format: SourceFormat, width: u32, height: u32, len: nat) -> bool {
    &&& 4 * width <= u32::MAX
    &&& format is Nv12 ==> width > 0 && 4 * width * height <= u32::MAX && 2 * len == 3 * width * height
}

/// The RGBA bytes that gray, RGB or BGR bytes widen to: every byte of luma three times, or
/// every three bytes of colour in the order red, green, blue, each time with an alpha of
/// 255; bytes left over after the last whole pixel are dropped. For the YUV layouts, whose
/// conversion is not written out here, there is none.
pub open spec fn widened(format: SourceFormat, data: Seq<u8>) -> Option<Seq<u8>> {
    match format {
        SourceFormat::Gray => Some(
            Seq::new((4 * data.len()) as nat, |i: int| if i % 4 == 3 { 255u8 } else { data[i / 4] }),
        ),
        SourceFormat::RawRgb => Some(
            Seq::new(
                (4 * (data.len() / 3)) as nat,
                |i: int| if i % 4 == 3 { 255u8 } else { data[3 * (i / 4) + i % 4] },
            ),
        ),
        SourceFormat::RawBgr => Some(
            Seq::new(
                (4 * (data.len() / 3)) as nat,
                |i: int| if i % 4 == 3 { 255u8 } else { data[3 * (i / 4) + 2 - i % 4] },
            ),
        ),
        SourceFormat::Yuyv | SourceFormat::Nv12 => None,
    }
}

/// The bytes of the image that the decoder lays over converted bytes: all of them, where
/// they hold at least the pixels of the grid.
pub open spec fn laid_out(width: u32, height: u32, bytes: Seq<u8>) -> Option<Seq<u8>> {
    if 4 * width * height <= bytes.len() {
        Some(bytes)
    } else {
        None
    }
}

/// What the capture library's decoder makes of a buffer in one of the camera's layouts.
pub open spec fn conversion(format: SourceFormat, width: u32, height: u32, data: Seq<u8>) -> Option<Seq<u8>> {
    match widened(format, data) {
        Some(bytes) => laid_out(width, height, bytes),
        None => converted_rgba(format, width, height, data),
    }
}

/// The RGBA bytes of a captured buffer: its own bytes where it is RGBA already, else what the
/// capture library's decoder makes of it.
pub open spec fn decoded_pixels(raw: RawFrameView) -> Option<Seq<u8>> {
    match raw.format {
        PixelFormat::Rgba => Some(raw.data),
        PixelFormat::Source(format) => if convertible(format, raw.width, raw.height, raw.data.len()) {
            conversion(format, raw.width, raw.height, raw.data)
        } else {
            None
        },
    }
}

/// The frame that RGBA bytes make at a given size: there is one when the bytes are exactly
/// the pixels of the grid.
pub open spec fn framed(width: u32, height: u32, pixels: Option<Seq<u8>>) -> Option<FrameView> {
    match pixels {
        Some(bytes) if Frame::fits(width, height, bytes.len()) => Some(
            FrameView { width: width as nat, height: height as nat, pixels: bytes },
        ),
        _ => None,
    }
}

/// The picture that a captured buffer decodes to, if it decodes.
pub open spec fn decoded(raw: RawFrameView) -> Option<FrameView> {
    framed(raw.width, raw.height, decoded_pixels(raw))
}

/// What a decoder returned, as the contracts see it.
pub open spec fn bytes_view(pixels: Option<Vec<u8>>) -> Option<Seq<u8>> {
    match pixels {
        Some(bytes) => Some(bytes@),
        None => None,
    }
}

/// Decodes a buffer with `nokhwa::Buffer::decode_image` and the `RgbAFormat` decoder, and
/// gives the bytes of the image it returns. For gray, RGB and BGR bytes the contract states
/// them: the decoder widens every pixel to four bytes, and `image::ImageBuffer::from_raw`
/// takes the widened bytes whole where they hold at least the grid. For the YUV layouts it
/// claims only that the outcome is fixed by the format, the size and the bytes. The layouts
/// handed over are the uncompressed ones, whose conversions run to the end on every buffer
/// within the bounds of `convertible`.
#[verifier::external_body]
fn convert_rgba(format: SourceFormat, width: u32, height: u32, data: &Vec<u8>) -> (out: Option<Vec<u8>>)
    requires
        convertible(format, width, height, data@.len()),
    ensures
        bytes_view(out) == (match widened(format, data@) {
            Some(bytes) => laid_out(width, height, bytes),
            None => converted_rgba(format, width, height, data@),
        }),
{
    let source = match format {
        SourceFormat::Yuyv => nokhwa::utils::FrameFormat::YUYV,
        SourceFormat::Nv12 => nokhwa::utils::FrameFormat::NV12,
        SourceFormat::Gray => nokhwa::utils::FrameFormat::GRAY,
        SourceFormat::RawRgb => nokhwa::utils::FrameFormat::RAWRGB,
        SourceFormat::RawBgr => nokhwa::utils::FrameFormat::RAWBGR,
    };
    let buffer = nokhwa::Buffer::new(nokhwa::utils::Resolution::new(width, height), data, source);
    match buffer.decode_image::<nokhwa::pixel_format::RgbAFormat>() {
        Ok(image) => Some(image.into_raw()),
        Err(_) => None,
    }
}

/// Makes a frame of what a decoder returned for a buffer of `width` by `height` pixels.
/// A decoder that refused, or that returned bytes that are not exactly the pixels of the
/// grid, gives no frame.
pub fn frame_of_decoded(width: u32, height: u32, pixels: Option<Vec<u8>>) -> (made: Result<Frame, CameraError>)
    ensures
        match made {
            Ok(frame) => framed(width, height, bytes_view(pixels)) == Some(frame@),
            Err(e) => e == CameraError::FramePollError && framed(width, height, bytes_view(pixels)) is None,
        },
{
    match pixels {
        Some(bytes) => match Frame::new(width, height, bytes) {
            Some(frame) => Ok(frame),
            None => Err(CameraError::FramePollError),
        },
        None => Err(CameraError::FramePollError),
    }
}

/// Decodes a captured buffer to an RGBA frame.
pub fn decode_frame(raw: &RawFrame) -> (made: Result<Frame, CameraError>)
    ensures
        match made {
            Ok(frame) => decoded(raw@) == Some(frame@),
            Err(e) => e == CameraError::FramePollError && decoded(raw@) is None,
        },
{
    let pixels = match raw.format {
        PixelFormat::Rgba => Some(raw.data.clone()),
        PixelFormat::Source(format) => {
            if decoder_takes(format, raw.width, raw.height, raw.data.len()) {
                convert_rgba(format, raw.width, raw.height, &raw.data)
            } else {
                None
            }
        },
    };
    frame_of_decoded(raw.width, raw.height, pixels)
}

fn decoder_takes(format: SourceFormat, width: u32, height: u32, len: usize) -> (takes: bool)
    ensures
        takes == convertible(format, width, height, len as nat),
{
    assert(width * height <= 0xffff_ffff * 0xffff_ffff) by (nonlinear_arith)
        requires
            0 <= width <= 0xffff_ffff,
            0 <= height <= 0xffff_ffff,
    ;
    assert(4 * width * height == 4 * (width * height) && 3 * width * height == 3 * (width * height))
        by (nonlinear_arith);
    let area: u64 = (width as u64) * (height as u64);
    let planar = match format {
        SourceFormat::Nv12 => true,
        _ => false,
    };
    width <= 0x3fff_ffff && (!planar || (width > 0 && area <= 0x3fff_ffff && 2 * (len as u128) == 3 * (
        area as u128)))
}

} // verus!
