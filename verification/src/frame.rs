use vstd::arithmetic::div_mod::lemma_fundamental_div_mod;
use vstd::arithmetic::div_mod::lemma_fundamental_div_mod_converse;
use vstd::prelude::*;

verus! {

/// A decoded picture as the contracts see it: a grid of `width` by `height` pixels of four
/// bytes each (red, green, blue, alpha), row after row.
pub struct FrameView {
    pub width: nat,
    pub height: nat,
    pub pixels: Seq<u8>,
}

impl FrameView {
    /// The byte buffer holds exactly the pixels of the grid.
    pub open spec fn wf(self) -> bool {
        self.pixels.len() == 4 * self.width * self.height
    }

    /// The same picture with every row reversed.
    pub open spec fn mirrored(self) -> FrameView {
        FrameView {
            width: self.width,
            height: self.height,
            pixels: mirrored_pixels(self.width, self.pixels),
        }
    }
}

/// The byte that a mirrored grid of rows `width` pixels wide shows at place `i`: the same
/// channel of the pixel that stands as far from the right edge of that row as the pixel of
/// `i` stands from the left.
pub open spec fn mirror_source(width: nat, i: int) -> int {
    let pixel = i / 4;
    let row = pixel / (width as int);
    let column = pixel % (width as int);
    (row * width + (width - 1 - column)) * 4 + i % 4
}

/// The bytes of a grid of rows `width` pixels wide after each row is reversed pixel by pixel.
pub open spec fn mirrored_pixels(width: nat, pixels: Seq<u8>) -> Seq<u8> {
    Seq::new(pixels.len(), |i: int| pixels[mirror_source(width, i)])
}

/// Within a grid, `mirror_source` stays within the grid and is its own inverse.
pub proof fn mirror_source_involution(width: nat, height: nat, i: int)
    requires
        0 <= i < 4 * width * height,
    ensures
        0 <= mirror_source(width, i) < 4 * width * height,
        mirror_source(width, mirror_source(width, i)) == i,
{
    let w = width as int;
    let h = height as int;
    assert(w > 0) by (nonlinear_arith)
        requires
            0 <= i < 4 * w * h,
            w >= 0,
    ;
    let pixel = i / 4;
    let channel = i % 4;
    let row = pixel / w;
    let column = pixel % w;
    lemma_fundamental_div_mod(pixel, w);
    assert(0 <= column < w);
    assert(4 * w * h == 4 * (w * h)) by (nonlinear_arith);
    assert(pixel < w * h);
    assert(0 <= row < h) by (nonlinear_arith)
        requires
            pixel == w * row + column,
            0 <= column < w,
            0 <= pixel < w * h,
            w > 0,
    ;
    let other = row * w + (w - 1 - column);
    let j = other * 4 + channel;
    assert(j == mirror_source(width, i));
    assert(0 <= other < w * h) by (nonlinear_arith)
        requires
            other == row * w + (w - 1 - column),
            0 <= column < w,
            0 <= row < h,
    ;
    lemma_fundamental_div_mod_converse(j, 4, other, channel);
    lemma_fundamental_div_mod_converse(other, w, row, w - 1 - column);
    assert(mirror_source(width, j) == (row * w + (w - 1 - (w - 1 - column))) * 4 + channel);
    assert(row * w + column == pixel) by (nonlinear_arith)
        requires
            pixel == w * row + column,
    ;
}

/// Mirroring keeps the number of bytes.
pub proof fn mirror_keeps_length(width: nat, pixels: Seq<u8>)
    ensures
        mirrored_pixels(width, pixels).len() == pixels.len(),
{
}

/// Mirroring a grid twice gives the grid back, byte for byte.
pub proof fn mirror_twice_is_identity(frame: FrameView)
    requires
        frame.wf(),
    ensures
        frame.mirrored().wf(),
        frame.mirrored().width == frame.width,
        frame.mirrored().height == frame.height,
        frame.mirrored().mirrored() == frame,
{
    let once = mirrored_pixels(frame.width, frame.pixels);
    let twice = mirrored_pixels(frame.width, once);
    assert forall|i: int| 0 <= i < frame.pixels.len() implies twice[i] == frame.pixels[i] by {
        mirror_source_involution(frame.width, frame.height, i);
    }
    assert(twice =~= frame.pixels);
}

/// Mirroring moves each pixel of a row to the place as far from the other edge, and keeps
/// its four bytes in order.
pub proof fn mirror_moves_pixels(frame: FrameView, row: int, column: int, channel: int)
    requires
        frame.wf(),
        0 <= row < frame.height,
        0 <= column < frame.width,
        0 <= channel < 4,
    ensures
        0 <= (row * frame.width + column) * 4 + channel < frame.pixels.len(),
        0 <= (row * frame.width + (frame.width - 1 - column)) * 4 + channel < frame.pixels.len(),
        frame.mirrored().pixels[(row * frame.width + column) * 4 + channel]
            == frame.pixels[(row * frame.width + (frame.width - 1 - column)) * 4 + channel],
{
    let w = frame.width as int;
    let h = frame.height as int;
    let pixel = row * w + column;
    let i = pixel * 4 + channel;
    assert(0 <= pixel < w * h) by (nonlinear_arith)
        requires
            pixel == row * w + column,
            0 <= column < w,
            0 <= row < h,
    ;
    assert(4 * w * h == 4 * (w * h)) by (nonlinear_arith);
    lemma_fundamental_div_mod_converse(i, 4, pixel, channel);
    lemma_fundamental_div_mod_converse(pixel, w, row, column);
    assert(mirror_source(frame.width, i) == (row * w + (w - 1 - column)) * 4 + channel);
    mirror_source_involution(frame.width, frame.height, i);
}

/// Reverses each row of an RGBA grid in place with `image::imageops::flip_horizontal_in_place`,
/// on the `image::ImageBuffer` that `from_raw` lays over the bytes. A buffer that holds
/// exactly `width` by `height` pixels is accepted by `from_raw`, which keeps the bytes row
/// after row, and the flip makes the pixel at column `x` of each row change places with the
/// one at column `width - 1 - x`.
#[verifier::external_body]
fn flip_horizontal(width: u32, height: u32, pixels: &mut Vec<u8>)
    requires
        old(pixels)@.len() == 4 * width * height,
    ensures
        final(pixels)@ == mirrored_pixels(width as nat, old(pixels)@),
{
    let grid = image::ImageBuffer::<image::Rgba<u8>, &mut [u8]>::from_raw(width, height, pixels);
    if let Some(mut grid) = grid {
        image::imageops::flip_horizontal_in_place(&mut grid);
    }
}

/// A decoded picture: `width` by `height` pixels of four bytes each, row after row.
#[derive(Debug, PartialEq, Eq)]
pub struct Frame {
    width: u32,
    height: u32,
    pixels: Vec<u8>,
}

impl View for Frame {
    type V = FrameView;

    closed spec fn view(&self) -> FrameView {
        FrameView { width: self.width as nat, height: self.height as nat, pixels: self.pixels@ }
    }
}

impl Frame {
    #[verifier::type_invariant]
    spec fn well_formed(&self) -> bool {
        self.pixels@.len() == 4 * self.width * self.height
    }

    /// Whether `len` bytes are exactly the pixels of a grid of `width` by `height`.
    pub open spec fn fits(width: u32, height: u32, len: nat) -> bool {
        len == 4 * width * height
    }

    /// Makes a frame of an RGBA buffer, if the buffer holds exactly `width` by `height` pixels.
    pub fn new(width: u32, height: u32, pixels: Vec<u8>) -> (made: Option<Frame>)
        ensures
            made is Some <==> Self::fits(width, height, pixels@.len()),
            made matches Some(frame) ==> frame@ == (FrameView {
                width: width as nat,
                height: height as nat,
                pixels: pixels@,
            }),
    {
        assert(width * height <= 0xffff_ffff * 0xffff_ffff) by (nonlinear_arith)
            requires
                0 <= width <= 0xffff_ffff,
                0 <= height <= 0xffff_ffff,
        ;
        assert(4 * width * height == 4 * (width * height)) by (nonlinear_arith);
        let area: u64 = (width as u64) * (height as u64);
        let needed: u128 = 4u128 * (area as u128);
        if pixels.len() as u128 == needed {
            Some(Frame { width, height, pixels })
        } else {
            None
        }
    }

    pub fn width(&self) -> (width: u32)
        ensures
            width == self@.width,
    {
        self.width
    }

    pub fn height(&self) -> (height: u32)
        ensures
            height == self@.height,
    {
        self.height
    }

    /// The bytes of the grid. Every frame holds exactly the pixels of its grid.
    pub fn pixels(&self) -> (pixels: &Vec<u8>)
        ensures
            pixels@ == self@.pixels,
            self@.wf(),
    {
        proof {
            use_type_invariant(self);
        }
        &self.pixels
    }

    /// Gives the byte buffer back.
    pub fn into_raw(self) -> (pixels: Vec<u8>)
        ensures
            pixels@ == self@.pixels,
            self@.wf(),
    {
        proof {
            use_type_invariant(&self);
        }
        self.pixels
    }

    /// The same picture with every row reversed, as a mirror shows it.
    pub fn mirrored(self) -> (flipped: Frame)
        ensures
            self@.wf(),
            flipped@ == self@.mirrored(),
    {
        proof {
            use_type_invariant(&self);
        }
        let width = self.width;
        let height = self.height;
        let mut pixels = self.pixels;
        flip_horizontal(width, height, &mut pixels);
        Frame { width, height, pixels }
    }
}

impl Clone for Frame {
    fn clone(&self) -> (out: Self)
        ensures
            out@ == self@,
    {
        proof {
            use_type_invariant(self);
        }
        Frame { width: self.width, height: self.height, pixels: self.pixels.clone() }
    }
}

} // verus!
