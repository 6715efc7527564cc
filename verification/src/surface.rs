//! What a backend offers to receive finished outlines, and the pixel
//! formats in which it takes textures.

use vstd::prelude::*;
use crate::geometry::{Value, Vector};
use crate::path::Outline;
use crate::style::{FillRule, PathStyle, Rgba8};

verus! {

/// The layout of the bytes of a texture.
#[derive(Clone, Copy, Debug, PartialEq, Eq, Structural)]
pub enum PixelFormat {
    /// One byte of luminance per pixel.
    L8,
    /// Red, green and blue, one byte each.
    Rgb24,
    /// Red, green, blue and alpha, one byte each.
    Rgba32,
}

impl PixelFormat {
    /// The number of bytes that one pixel takes.
    pub open spec fn spec_bytes_per_pixel(self) -> nat {
        match self {
            PixelFormat::L8 => 1,
            PixelFormat::Rgb24 => 3,
            PixelFormat::Rgba32 => 4,
        }
    }

    pub fn bytes_per_pixel(self) -> (n: usize)
        ensures
            n == self.spec_bytes_per_pixel(),
    {
        match self {
            PixelFormat::L8 => 1,
            PixelFormat::Rgb24 => 3,
            PixelFormat::Rgba32 => 4,
        }
    }
}

/// The pixel with the index `i` in `data`. Luminance stands for all three
/// colors; a format without alpha gives an opaque pixel.
pub open spec fn pixel_at(data: Seq<u8>, format: PixelFormat, i: int) -> Rgba8 {
    match format {
        PixelFormat::L8 => (data[i], data[i], data[i], 255u8),
        PixelFormat::Rgb24 => (data[3 * i], data[3 * i + 1], data[3 * i + 2], 255u8),
        PixelFormat::Rgba32 => (data[4 * i], data[4 * i + 1], data[4 * i + 2], data[4 * i + 3]),
    }
}

/// The pixels that `data` holds in the given format.
pub open spec fn pixels_of(data: Seq<u8>, format: PixelFormat) -> Seq<Rgba8> {
    Seq::new((data.len() / format.spec_bytes_per_pixel()) as nat, |i: int| pixel_at(data, format, i))
}

/// Whether `len` bytes are exactly the pixels of a texture of the given
/// size and format.
pub open spec fn texture_fits(width: u32, height: u32, len: nat, format: PixelFormat) -> bool {
    len == width * height * format.spec_bytes_per_pixel()
}

/// Tells whether `len` bytes are exactly the pixels of a texture of the
/// given size and format.
pub fn texture_size_matches(width: u32, height: u32, len: usize, format: PixelFormat) -> (b: bool)
    ensures
        b == texture_fits(width, height, len as nat, format),
{
    assert(width * height <= 0xffff_ffff * 0xffff_ffff) by (nonlinear_arith)
        requires
            width <= 0xffff_ffff,
            height <= 0xffff_ffff,
    ;
    let pixels: u64 = (width as u64) * (height as u64);
    let step = format.bytes_per_pixel();
    assert(pixels * step <= 0xffff_ffff_ffff_ffff * 4) by (nonlinear_arith)
        requires
            pixels <= 0xffff_ffff_ffff_ffff,
            step <= 4,
    ;
    let bytes: u128 = (pixels as u128) * (step as u128);
    len as u128 == bytes
}

/// Decodes the bytes of a texture into pixels.
pub fn decode_pixels(data: &[u8], format: PixelFormat) -> (pixels: Vec<Rgba8>)
    requires
        data@.len() % format.spec_bytes_per_pixel() == 0,
    ensures
        pixels@ == pixels_of(data@, format),
{
    let step = format.bytes_per_pixel();
    let count = data.len() / step;
    let mut pixels: Vec<Rgba8> = Vec::new();
    let mut i: usize = 0;
    while i < count
        invariant
            i <= count,
            step == format.spec_bytes_per_pixel(),
            count == data@.len() / step as nat,
            data@.len() % step as nat == 0,
            data@.len() <= usize::MAX,
            pixels@.len() == i,
            forall|k: int| 0 <= k < i ==> pixels@[k] == pixel_at(data@, format, k),
        decreases count - i,
    {
        assert(i * step + step <= data@.len()) by (nonlinear_arith)
            requires
                i < count,
                count == data@.len() / step as nat,
                step > 0,
        ;
        let at = i * step;
        let pixel = match format {
            PixelFormat::L8 => (data[at], data[at], data[at], 255u8),
            PixelFormat::Rgb24 => (data[at], data[at + 1], data[at + 2], 255u8),
            PixelFormat::Rgba32 => (data[at], data[at + 1], data[at + 2], data[at + 3]),
        };
        assert(pixel == pixel_at(data@, format, i as int)) by {
            assert(at == format.spec_bytes_per_pixel() * i) by (nonlinear_arith)
                requires
                    at == i * step,
                    step == format.spec_bytes_per_pixel(),
            ;
        }
        pixels.push(pixel);
        i += 1;
    }
    assert(pixels@ =~= pixels_of(data@, format));
    pixels
}

/// A format without alpha gives opaque pixels, whatever the bytes are.
pub proof fn law_no_alpha_is_opaque(data: Seq<u8>, format: PixelFormat, i: int)
    requires
        format != PixelFormat::Rgba32,
        0 <= i < pixels_of(data, format).len(),
    ensures
        pixels_of(data, format)[i].3 == 255,
{
}

/// A texture of three bytes per pixel decodes into as many pixels as its
/// size says, each with the three bytes as its colors and an opaque alpha.
pub proof fn law_rgb_texture_is_opaque(width: u32, height: u32, data: Seq<u8>)
    requires
        texture_fits(width, height, data.len(), PixelFormat::Rgb24),
    ensures
        pixels_of(data, PixelFormat::Rgb24).len() == width * height,
        forall|i: int|
            0 <= i < width * height ==> #[trigger] pixels_of(data, PixelFormat::Rgb24)[i] == (
                data[3 * i],
                data[3 * i + 1],
                data[3 * i + 2],
                255u8,
            ),
{
    assert((width * height * 3) / 3 == width * height);
}

/// What is painted of a path in one go.
#[derive(Clone, Copy, Debug, PartialEq, Eq, Structural)]
pub enum Layer {
    Fill,
    Stroke,
}

/// The layers that a style asks for, in the order in which they are
/// painted: the fill first, the stroke over it.
pub open spec fn layers(fill: bool, stroke: bool) -> Seq<Layer> {
    (if fill {
        seq![Layer::Fill]
    } else {
        Seq::empty()
    }) + (if stroke {
        seq![Layer::Stroke]
    } else {
        Seq::empty()
    })
}

/// The layers to paint for a style with or without a fill and a stroke, in
/// the order in which a surface paints them.
pub fn draw_order(fill: bool, stroke: bool) -> (order: Vec<Layer>)
    ensures
        order@ == layers(fill, stroke),
{
    let mut order: Vec<Layer> = Vec::new();
    if fill {
        order.push(Layer::Fill);
    }
    if stroke {
        order.push(Layer::Stroke);
    }
    assert(order@ =~= layers(fill, stroke));
    order
}

/// A backend that receives outlines and styles and draws.
pub trait Surface: Sized {
    /// The numeric type of a line width.
    type Scalar: Value;

    type Outline: Outline;

    /// The surface's own form of a style.
    type Style: Clone;

    /// The surface's handle for an outline to clip by.
    type ClipPath: Clone;

    /// The surface's handle for a texture.
    type Image: Clone;

    /// A surface with the view box from the origin to `size`.
    fn new(size: Vector) -> Self;

    /// Compiles a style into the surface's own form.
    fn build_style(&mut self, style: PathStyle<Self>) -> Self::Style;

    /// Paints an outline: the fill where the style has one, then the stroke
    /// where it has one.
    fn draw_path(
        &mut self,
        path: Self::Outline,
        style: &Self::Style,
        clip: Option<&Self::ClipPath>,
    );

    /// Compiles an outline and a fill rule into a clip path.
    fn clip_path(&mut self, path: Self::Outline, fill_rule: FillRule) -> Self::ClipPath;

    /// Makes a texture of `width` by `height` pixels from the bytes in
    /// `data`, which are exactly its pixels in the given format.
    fn texture(&mut self, width: u32, height: u32, data: &[u8], format: PixelFormat) -> Self::Image
        requires
            texture_fits(width, height, data@.len(), format),
    ;
}

} // verus!
