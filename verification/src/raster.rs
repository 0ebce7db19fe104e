//! Pixel buffers: an RGBA raster of the `image` crate, seen by the rest of the
//! library as a grid of colours with a width and a height.
//!
//! Everything that touches the `image` crate stands in this file. The functions
//! marked `external_body` are believed, not proved: each says above its header
//! which function of `image` it calls and what it claims of it.

use vstd::prelude::*;
use image::GenericImage;

verus! {

/// An RGBA colour with 8-bit channels.
#[derive(Copy, Clone, Debug, PartialEq, Eq, Structural)]
pub struct Color {
    pub red: u8,
    pub green: u8,
    pub blue: u8,
    pub alpha: u8,
}

/// The mathematical model of a pixel buffer: `rows[y][x]` is the colour of the
/// pixel in column `x` of row `y`, rows counted from the top.
pub struct Raster {
    pub width: nat,
    pub rows: Seq<Seq<Color>>,
}

impl Raster {
    /// Number of rows.
    pub open spec fn height(self) -> nat {
        self.rows.len()
    }

    /// Every row holds exactly `width` pixels.
    pub open spec fn wf(self) -> bool {
        forall|y: int| 0 <= y < self.rows.len() ==> (#[trigger] self.rows[y]).len() == self.width
    }

    /// The colour at column `x` of row `y`.
    pub open spec fn pixel(self, x: int, y: int) -> Color {
        self.rows[y][x]
    }

    /// The raster of the given size whose pixel at `(x, y)` is `f(x, y)`.
    pub open spec fn from_fn(width: nat, height: nat, f: spec_fn(int, int) -> Color) -> Raster {
        Raster { width, rows: Seq::new(height, |y: int| Seq::new(width, |x: int| f(x, y))) }
    }

    /// The raster of the given size with every pixel of one colour.
    pub open spec fn filled(width: nat, height: nat, color: Color) -> Raster {
        Raster::from_fn(width, height, |x: int, y: int| color)
    }

    /// The `width` by `height` region of `self` whose top left corner is `(x, y)`.
    pub open spec fn crop(self, x: int, y: int, width: nat, height: nat) -> Raster {
        Raster::from_fn(width, height, |i: int, j: int| self.pixel(x + i, y + j))
    }

    /// `self` with `top` laid over it, the top left corner of `top` at `(x, y)`.
    pub open spec fn overlay(self, top: Raster, x: int, y: int) -> Raster {
        Raster::from_fn(
            self.width,
            self.height(),
            |i: int, j: int|
                if x <= i < x + top.width && y <= j < y + top.height() {
                    top.pixel(i - x, j - y)
                } else {
                    self.pixel(i, j)
                },
        )
    }

    /// `self` with the pixel at `(x, y)` set to `color`.
    pub open spec fn with_pixel(self, x: int, y: int, color: Color) -> Raster {
        Raster { width: self.width, rows: self.rows.update(y, self.rows[y].update(x, color)) }
    }

    /// The raster that row-major RGBA bytes describe.
    pub open spec fn from_bytes(data: Seq<u8>, width: nat, height: nat) -> Raster {
        Raster::from_fn(
            width,
            height,
            |x: int, y: int|
                Color {
                    red: data[(y * width + x) * 4],
                    green: data[(y * width + x) * 4 + 1],
                    blue: data[(y * width + x) * 4 + 2],
                    alpha: data[(y * width + x) * 4 + 3],
                },
        )
    }
}

/// The bytes of a `width` by `height` buffer, four for each pixel, fit one
/// allocation, and so does the count of one row's bytes fit `usize`.
pub open spec fn allocatable(width: int, height: int) -> bool {
    &&& 4 * width <= usize::MAX
    &&& 4 * width * height <= isize::MAX
}

/// `len` bytes are enough for a `width` by `height` buffer: four for each
/// pixel, with the count of one row's bytes within `usize`.
pub open spec fn enough_bytes(width: int, height: int, len: int) -> bool {
    &&& 4 * width <= usize::MAX
    &&& 4 * width * height <= len
}

/// An image of this width can be resampled: a row of sixteen-byte pixels as
/// wide as the image fits one allocation.
pub open spec fn samplable(width: int) -> bool {
    16 * width <= isize::MAX
}

/// An RGBA image held in memory: an `image::RgbaImage`. Verus cannot take that
/// type itself, whose pixel parameter is bound by a trait of `image`, so the
/// image is held in a field that Verus does not look into, and what it holds
/// is named by `buffer_rows` and `buffer_width`.
#[verifier::external_body]
pub struct PixelBuffer {
    inner: image::RgbaImage,
}

/// The rows of a buffer, from the top, each from the left.
pub uninterp spec fn buffer_rows(buf: PixelBuffer) -> Seq<Seq<Color>>;

/// The width of a buffer in pixels.
pub uninterp spec fn buffer_width(buf: PixelBuffer) -> nat;

impl View for PixelBuffer {
    type V = Raster;

    open spec fn view(&self) -> Raster {
        Raster { width: buffer_width(*self), rows: buffer_rows(*self) }
    }
}

/// Calls `ImageBuffer::dimensions`, which returns the buffer's width and
/// height. The rows of the model are as many as the height and each as long
/// as the width.
#[verifier::external_body]
pub(crate) fn dimensions(buf: &PixelBuffer) -> (res: (u32, u32))
    ensures
        res.0 == buffer_width(*buf),
        res.1 == buffer_rows(*buf).len(),
        forall|y: int| 0 <= y < res.1 ==> (#[trigger] buffer_rows(*buf)[y]).len() == res.0,
{
    buf.inner.dimensions()
}

/// Calls `ImageBuffer::from_raw`, which takes the bytes as row-major RGBA
/// pixels and refuses them exactly when they are fewer than four for each
/// pixel of the stated size, or when the count of one row's bytes or of all
/// bytes does not fit `usize`.
#[verifier::external_body]
pub(crate) fn buffer_from_raw(width: u32, height: u32, data: Vec<u8>) -> (res: Option<PixelBuffer>)
    ensures
        res.is_some() <==> enough_bytes(width as int, height as int, data@.len() as int),
        res matches Some(buf) ==> buf@ == Raster::from_bytes(data@, width as nat, height as nat),
{
    image::RgbaImage::from_raw(width, height, data).map(|inner| PixelBuffer { inner })
}

/// Calls `ImageBuffer::into_raw`, which hands back the bytes that the buffer
/// was built on: at least four for each pixel, row-major RGBA.
#[verifier::external_body]
pub(crate) fn buffer_into_raw(buf: PixelBuffer) -> (res: Vec<u8>)
    ensures
        res@.len() >= 4 * buf@.width * buf@.height(),
        Raster::from_bytes(res@, buf@.width, buf@.height()) == buf@,
{
    buf.inner.into_raw()
}

/// Calls `ImageBuffer::get_pixel`, which returns the pixel at `(x, y)` and
/// panics outside the image.
#[verifier::external_body]
pub(crate) fn get_pixel(buf: &PixelBuffer, x: u32, y: u32) -> (res: Color)
    requires
        x < buf@.width,
        y < buf@.height(),
    ensures
        res == buf@.pixel(x as int, y as int),
{
    let p = buf.inner.get_pixel(x, y);
    Color { red: p.0[0], green: p.0[1], blue: p.0[2], alpha: p.0[3] }
}

/// Calls `ImageBuffer::put_pixel`, which overwrites the pixel at `(x, y)`,
/// leaves every other pixel as it was, and panics outside the image.
#[verifier::external_body]
pub(crate) fn put_pixel(buf: &mut PixelBuffer, x: u32, y: u32, color: Color)
    requires
        x < old(buf)@.width,
        y < old(buf)@.height(),
    ensures
        final(buf)@ == old(buf)@.with_pixel(x as int, y as int, color),
{
    buf.inner.put_pixel(x, y, image::Rgba([color.red, color.green, color.blue, color.alpha]));
}

/// Calls `ImageBuffer::new`, which allocates a buffer of the given size with
/// every channel of every pixel zero. It panics when the byte count does not
/// fit an allocation, which the precondition leaves out.
#[verifier::external_body]
pub(crate) fn new_buffer(width: u32, height: u32) -> (res: PixelBuffer)
    requires
        allocatable(width as int, height as int),
    ensures
        res@ == Raster::filled(
            width as nat,
            height as nat,
            Color { red: 0, green: 0, blue: 0, alpha: 0 },
        ),
{
    PixelBuffer { inner: image::RgbaImage::new(width, height) }
}

/// Calls `imageops::crop_imm` and `SubImage::to_image`, which together copy the
/// stated region into a buffer of its own. The region is required to lie
/// within the image; `crop_imm` would otherwise shrink it silently.
#[verifier::external_body]
pub(crate) fn crop(buf: &PixelBuffer, x: u32, y: u32, width: u32, height: u32) -> (res: PixelBuffer)
    requires
        x + width <= buf@.width,
        y + height <= buf@.height(),
    ensures
        res@ == buf@.crop(x as int, y as int, width as nat, height as nat),
{
    PixelBuffer { inner: image::imageops::crop_imm(&buf.inner, x, y, width, height).to_image() }
}

/// What `imageops::resize` makes of an image when asked for one pixel by one
/// with the nearest-neighbour filter.
pub uninterp spec fn nearest_to_single_pixel(img: Raster) -> Raster;

/// The largest dimension up to which the resampler's 32-bit floating-point
/// coordinates are exact.
pub const EXACT_SAMPLING_LIMIT: u32 = 0x100_0000;

/// Calls `imageops::resize` for a one by one image with `FilterType::Nearest`.
/// The result is one pixel, a function of the image alone. Where the image is
/// not empty and neither side exceeds `EXACT_SAMPLING_LIMIT`, the resampler's
/// window is the single pixel at half the width and half the height, each
/// rounded down, taken with weight one, so the result is that pixel. The
/// resampler allocates a row of floating-point pixels as wide as the image,
/// sixteen bytes each; the precondition keeps that within an allocation.
#[verifier::external_body]
pub(crate) fn resize_to_single_pixel(buf: &PixelBuffer) -> (res: PixelBuffer)
    requires
        samplable(buf@.width as int),
    ensures
        res@ == nearest_to_single_pixel(buf@),
        res@.width == 1,
        res@.height() == 1,
        res@.wf(),
        1 <= buf@.width <= EXACT_SAMPLING_LIMIT && 1 <= buf@.height() <= EXACT_SAMPLING_LIMIT
            ==> res@.pixel(0, 0) == buf@.pixel(buf@.width as int / 2, buf@.height() as int / 2),
{
    let filter = image::imageops::FilterType::Nearest;
    PixelBuffer { inner: image::imageops::resize(&buf.inner, 1, 1, filter) }
}

/// The error type of the `image` crate, carried through and never looked into.
#[verifier::external_type_specification]
#[verifier::external_body]
pub struct ExImageError(image::ImageError);

/// Calls `GenericImage::copy_from`, which copies `top` pixel by pixel into
/// `canvas` with its top left corner at `(x, y)`, or fails and copies nothing
/// when `top` does not fit there. The sums it tests are required to fit `u32`.
#[verifier::external_body]
pub(crate) fn copy_from(canvas: &mut PixelBuffer, top: &PixelBuffer, x: u32, y: u32) -> (res: Result<
    (),
    image::ImageError,
>)
    requires
        top@.width + x <= u32::MAX,
        top@.height() + y <= u32::MAX,
    ensures
        res.is_ok() <==> top@.width + x <= old(canvas)@.width && top@.height() + y <= old(
            canvas,
        )@.height(),
        res.is_ok() ==> final(canvas)@ == old(canvas)@.overlay(top@, x as int, y as int),
        res.is_err() ==> final(canvas)@ == old(canvas)@,
{
    canvas.inner.copy_from(&top.inner, x, y)
}

/// Whether a `width` by `height` buffer can be allocated.
pub fn fits_allocation(width: u32, height: u32) -> (res: bool)
    ensures
        res == allocatable(width as int, height as int),
{
    assert(width * height <= 0xffff_ffff * 0xffff_ffff) by (nonlinear_arith)
        requires
            width <= 0xffff_ffff,
            height <= 0xffff_ffff,
    ;
    let pixels: u128 = (width as u128) * (height as u128);
    assert(4 * width * height == 4 * (width * height)) by (nonlinear_arith);
    4 * (width as u128) <= usize::MAX as u128 && 4 * pixels <= isize::MAX as u128
}

/// Whether an image of this width can be resampled.
pub fn fits_sampling(width: u32) -> (res: bool)
    ensures
        res == samplable(width as int),
{
    16 * (width as u128) <= isize::MAX as u128
}

impl PixelBuffer {
    /// A buffer of the given size with every channel of every pixel zero, or
    /// `None` when it cannot be allocated.
    pub fn blank(width: u32, height: u32) -> (res: Option<PixelBuffer>)
        ensures
            res.is_some() <==> allocatable(width as int, height as int),
            res matches Some(buf) ==> buf@ == Raster::filled(
                width as nat,
                height as nat,
                Color { red: 0, green: 0, blue: 0, alpha: 0 },
            ) && buf@.wf(),
    {
        if fits_allocation(width, height) {
            Some(new_buffer(width, height))
        } else {
            None
        }
    }

    /// A buffer of `width` by `height` pixels over row-major RGBA bytes, or
    /// `None` when the bytes are too few for that size.
    pub fn from_raw(width: u32, height: u32, data: Vec<u8>) -> (res: Option<PixelBuffer>)
        ensures
            res.is_some() <==> enough_bytes(width as int, height as int, data@.len() as int),
            res matches Some(buf) ==> buf@ == Raster::from_bytes(data@, width as nat, height as nat)
                && buf@.wf(),
    {
        buffer_from_raw(width, height, data)
    }

    /// The buffer's row-major RGBA bytes.
    pub fn into_raw(self) -> (res: Vec<u8>)
        ensures
            res@.len() >= 4 * self@.width * self@.height(),
            Raster::from_bytes(res@, self@.width, self@.height()) == self@,
    {
        buffer_into_raw(self)
    }

    /// Width in pixels.
    pub fn width(&self) -> (res: u32)
        ensures
            res == self@.width,
            self@.wf(),
    {
        dimensions(self).0
    }

    /// Height in pixels.
    pub fn height(&self) -> (res: u32)
        ensures
            res == self@.height(),
            self@.wf(),
    {
        dimensions(self).1
    }

    /// The colour at `(x, y)`, or `None` outside the image.
    pub fn pixel(&self, x: u32, y: u32) -> (res: Option<Color>)
        ensures
            res == if x < self@.width && y < self@.height() {
                Some(self@.pixel(x as int, y as int))
            } else {
                None
            },
    {
        let (width, height) = dimensions(self);
        if x < width && y < height {
            Some(get_pixel(self, x, y))
        } else {
            None
        }
    }
}

} // verus!
