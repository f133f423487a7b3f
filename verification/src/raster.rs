//! Images of the `image` crate as the ditherers see them.
//!
//! The buffers themselves stay with the `image` crate. What this module
//! states about them is not proved: each function marked
//! `external_body` is a single call into that crate, and its contract
//! records what the crate's source shows about the call.

use image::DynamicImage;
use image::GenericImageView;
use image::Luma;
use image::Rgba;
use vstd::prelude::*;

verus! {

/// Red, green, blue and alpha of one pixel.
pub type RgbaPixel = (u8, u8, u8, u8);

/// A rectangle of pixel values, `rows[y][x]` being the pixel in column `x`
/// of row `y`. The width is kept beside the rows so that an image without
/// rows still has one.
pub struct Grid<T> {
    pub width: nat,
    pub rows: Seq<Seq<T>>,
}

impl<T> Grid<T> {
    pub open spec fn height(self) -> nat {
        self.rows.len()
    }

    /// Every row has `width` pixels.
    pub open spec fn wf(self) -> bool {
        forall|y: int| 0 <= y < self.rows.len() ==> (#[trigger] self.rows[y]).len() == self.width
    }

    pub open spec fn contains(self, x: int, y: int) -> bool {
        0 <= x < self.width && 0 <= y < self.rows.len()
    }

    pub open spec fn at(self, x: int, y: int) -> T {
        self.rows[y][x]
    }

    /// The grid with the pixel at `(x, y)` replaced by `value`.
    pub open spec fn put(self, x: int, y: int, value: T) -> Grid<T> {
        Grid { width: self.width, rows: self.rows.update(y, self.rows[y].update(x, value)) }
    }

    /// The grid of the given size that holds `value` everywhere.
    pub open spec fn filled(width: nat, height: nat, value: T) -> Grid<T> {
        Grid { width, rows: Seq::new(height, |y: int| Seq::new(width, |x: int| value)) }
    }
}

/// The image crate's `DynamicImage`: an image in any of its pixel formats.
#[verifier::external_type_specification]
#[verifier::external_body]
pub struct ExDynamicImage(DynamicImage);

/// A single-channel 8-bit image: the image crate's
/// `ImageBuffer<Luma<u8>, Vec<u8>>`.
#[verifier::external_body]
pub struct GrayImage {
    inner: image::GrayImage,
}

/// A four-channel 8-bit image: the image crate's
/// `ImageBuffer<Rgba<u8>, Vec<u8>>`.
#[verifier::external_body]
pub struct RgbaImage {
    inner: image::RgbaImage,
}

/// The rows of pixels of a dynamic image, each pixel as its `get_pixel`
/// reports it.
pub uninterp spec fn dynamic_rows(image: DynamicImage) -> Seq<Seq<RgbaPixel>>;

/// The width of a dynamic image.
pub uninterp spec fn dynamic_width(image: DynamicImage) -> nat;

/// The rows of the single-channel copy that `DynamicImage::to_luma8` makes
/// of an image.
pub uninterp spec fn dynamic_luma_rows(image: DynamicImage) -> Seq<Seq<u8>>;

/// The rows of pixels of a single-channel image.
pub uninterp spec fn gray_rows(image: GrayImage) -> Seq<Seq<u8>>;

/// The width of a single-channel image.
pub uninterp spec fn gray_width(image: GrayImage) -> nat;

/// The rows of pixels of a four-channel image.
pub uninterp spec fn rgba_rows(image: RgbaImage) -> Seq<Seq<RgbaPixel>>;

/// The width of a four-channel image.
pub uninterp spec fn rgba_width(image: RgbaImage) -> nat;

impl View for GrayImage {
    type V = Grid<u8>;

    open spec fn view(&self) -> Grid<u8> {
        Grid { width: gray_width(*self), rows: gray_rows(*self) }
    }
}

impl View for RgbaImage {
    type V = Grid<RgbaPixel>;

    open spec fn view(&self) -> Grid<RgbaPixel> {
        Grid { width: rgba_width(*self), rows: rgba_rows(*self) }
    }
}

/// A dynamic image as a grid of the pixels that its `get_pixel` reports.
pub open spec fn rgba_view(image: DynamicImage) -> Grid<RgbaPixel> {
    Grid { width: dynamic_width(image), rows: dynamic_rows(image) }
}

/// A dynamic image as the grid of brightness values that its `to_luma8`
/// computes.
pub open spec fn luma_view(image: DynamicImage) -> Grid<u8> {
    Grid { width: dynamic_width(image), rows: dynamic_luma_rows(image) }
}

/// Calls `GenericImageView::dimensions` on a `DynamicImage`, which hands on
/// the width and height of the buffer inside. Claimed: the pair is the
/// image's width and its number of rows, and every row has that width.
#[verifier::external_body]
pub(crate) fn dynamic_dimensions(image: &DynamicImage) -> (dims: (u32, u32))
    ensures
        dims.0 == dynamic_width(*image),
        dims.1 == dynamic_rows(*image).len(),
        forall|y: int| 0 <= y < dims.1 ==> (#[trigger] dynamic_rows(*image)[y]).len() == dims.0,
{
    image.dimensions()
}

/// Calls `GenericImageView::get_pixel` on a `DynamicImage`, which panics
/// outside the image and otherwise converts the stored pixel to 8-bit RGBA.
/// Claimed: the result is the pixel of the image's rows at that place.
#[verifier::external_body]
pub(crate) fn dynamic_get_pixel(image: &DynamicImage, x: u32, y: u32) -> (pixel: RgbaPixel)
    requires
        x < dynamic_width(*image),
        y < dynamic_rows(*image).len(),
    ensures
        pixel == dynamic_rows(*image)[y as int][x as int],
{
    let Rgba([r, g, b, a]) = image.get_pixel(x, y);
    (r, g, b, a)
}

/// Calls `DynamicImage::to_luma8`, which copies the image into a new
/// single-channel buffer of the same width and height. Claimed: the copy has
/// the image's width and number of rows, each row has that width, and its
/// pixels are those that `dynamic_luma_rows` names.
#[verifier::external_body]
pub(crate) fn dynamic_to_luma8(image: &DynamicImage) -> (gray: GrayImage)
    ensures
        gray_width(gray) == dynamic_width(*image),
        gray_rows(gray) == dynamic_luma_rows(*image),
        gray_rows(gray).len() == dynamic_rows(*image).len(),
{
    GrayImage { inner: image.to_luma8() }
}

/// Calls `ImageBuffer::new` for a single-channel image, which panics when
/// `width * height` does not fit in `usize`, allocates a vector of that many
/// zero bytes, which panics above `isize::MAX` bytes, and wraps it. Claimed:
/// the result has the given size and is zero everywhere.
#[verifier::external_body]
pub(crate) fn gray_new(width: u32, height: u32) -> (image: GrayImage)
    requires
        width * height <= isize::MAX,
    ensures
        gray_width(image) == width,
        gray_rows(image) == Grid::<u8>::filled(width as nat, height as nat, 0u8).rows,
{
    GrayImage { inner: image::GrayImage::new(width, height) }
}

/// Calls `ImageBuffer::dimensions` on a single-channel image, which returns
/// its two size fields. Claimed: the pair is the image's width and its
/// number of rows, every row has that width, and the pixel count is at most
/// `isize::MAX`: the buffer's constructors check that the vector inside
/// holds that many bytes, and no vector holds more than `isize::MAX`.
#[verifier::external_body]
pub(crate) fn gray_dimensions(image: &GrayImage) -> (dims: (u32, u32))
    ensures
        dims.0 == gray_width(*image),
        dims.1 == gray_rows(*image).len(),
        forall|y: int| 0 <= y < dims.1 ==> (#[trigger] gray_rows(*image)[y]).len() == dims.0,
        dims.0 * dims.1 <= isize::MAX,
{
    image.inner.dimensions()
}

/// Calls `ImageBuffer::get_pixel` on a single-channel image, which panics
/// outside the image. Claimed: the result is the pixel of the image's rows
/// at that place.
#[verifier::external_body]
pub(crate) fn gray_get_pixel(image: &GrayImage, x: u32, y: u32) -> (value: u8)
    requires
        x < gray_width(*image),
        y < gray_rows(*image).len(),
    ensures
        value == gray_rows(*image)[y as int][x as int],
{
    image.inner.get_pixel(x, y).0[0]
}

/// Calls `ImageBuffer::put_pixel` on a single-channel image, which panics
/// outside the image and otherwise overwrites one pixel. Claimed: the width
/// stays, and the rows change at that place only, to the given value.
#[verifier::external_body]
pub(crate) fn gray_put_pixel(image: &mut GrayImage, x: u32, y: u32, value: u8)
    requires
        x < gray_width(*old(image)),
        y < gray_rows(*old(image)).len(),
    ensures
        gray_width(*final(image)) == gray_width(*old(image)),
        gray_rows(*final(image)) == old(image)@.put(x as int, y as int, value).rows,
{
    image.inner.put_pixel(x, y, Luma([value]));
}

/// Calls `ImageBuffer::new` for a four-channel image, which panics when
/// `4 * width * height` does not fit in `usize`, allocates a vector of that
/// many zero bytes, which panics above `isize::MAX` bytes, and wraps it.
/// Claimed: the result has the given size and is zero everywhere.
#[verifier::external_body]
pub(crate) fn rgba_new(width: u32, height: u32) -> (image: RgbaImage)
    requires
        4 * width * height <= isize::MAX,
    ensures
        rgba_width(image) == width,
        rgba_rows(image) == Grid::<RgbaPixel>::filled(
            width as nat,
            height as nat,
            (0u8, 0u8, 0u8, 0u8),
        ).rows,
{
    RgbaImage { inner: image::RgbaImage::new(width, height) }
}

/// Calls `ImageBuffer::dimensions` on a four-channel image, which returns
/// its two size fields. Claimed: the pair is the image's width and its
/// number of rows, and every row has that width.
#[verifier::external_body]
pub(crate) fn rgba_dimensions(image: &RgbaImage) -> (dims: (u32, u32))
    ensures
        dims.0 == rgba_width(*image),
        dims.1 == rgba_rows(*image).len(),
        forall|y: int| 0 <= y < dims.1 ==> (#[trigger] rgba_rows(*image)[y]).len() == dims.0,
{
    image.inner.dimensions()
}

/// Calls `ImageBuffer::get_pixel` on a four-channel image, which panics
/// outside the image. Claimed: the result is the pixel of the image's rows
/// at that place.
#[verifier::external_body]
pub(crate) fn rgba_get_pixel(image: &RgbaImage, x: u32, y: u32) -> (pixel: RgbaPixel)
    requires
        x < rgba_width(*image),
        y < rgba_rows(*image).len(),
    ensures
        pixel == rgba_rows(*image)[y as int][x as int],
{
    let Rgba([r, g, b, a]) = *image.inner.get_pixel(x, y);
    (r, g, b, a)
}

/// Calls `ImageBuffer::put_pixel` on a four-channel image, which panics
/// outside the image and otherwise overwrites one pixel. Claimed: the width
/// stays, and the rows change at that place only, to the given pixel.
#[verifier::external_body]
pub(crate) fn rgba_put_pixel(image: &mut RgbaImage, x: u32, y: u32, pixel: RgbaPixel)
    requires
        x < rgba_width(*old(image)),
        y < rgba_rows(*old(image)).len(),
    ensures
        rgba_width(*final(image)) == rgba_width(*old(image)),
        rgba_rows(*final(image)) == old(image)@.put(x as int, y as int, pixel).rows,
{
    image.inner.put_pixel(x, y, Rgba([pixel.0, pixel.1, pixel.2, pixel.3]));
}

/// Whether a single-channel image of this size can be asked for: its
/// `width * height` bytes must not be more than `isize::MAX`, the most that
/// a vector holds.
pub fn gray_buffer_fits(width: u32, height: u32) -> (fits: bool)
    ensures
        fits == (width * height <= isize::MAX),
{
    assert(width * height <= u64::MAX) by (nonlinear_arith)
        requires
            width <= u32::MAX,
            height <= u32::MAX,
    ;
    width as u64 * height as u64 <= isize::MAX as u64
}

/// Whether a four-channel image of this size can be asked for: its
/// `4 * width * height` bytes must not be more than `isize::MAX`, the most
/// that a vector holds.
pub fn rgba_buffer_fits(width: u32, height: u32) -> (fits: bool)
    ensures
        fits == (4 * width * height <= isize::MAX),
{
    assert(4 * width * height == (4 * width) * height) by (nonlinear_arith);
    match (4 * width as u64).checked_mul(height as u64) {
        Some(bytes) => bytes <= isize::MAX as u64,
        None => false,
    }
}

impl GrayImage {
    /// A black image of the given size, or `None` where `width * height` is
    /// more than `isize::MAX`.
    pub fn new(width: u32, height: u32) -> (made: Option<GrayImage>)
        ensures
            made is Some <==> width * height <= isize::MAX,
            made matches Some(image) ==> image@ == Grid::<u8>::filled(
                width as nat,
                height as nat,
                0u8,
            ),
    {
        if gray_buffer_fits(width, height) {
            Some(gray_new(width, height))
        } else {
            None
        }
    }

    /// The width and the height of the image.
    pub fn dimensions(&self) -> (dims: (u32, u32))
        ensures
            dims.0 == self@.width,
            dims.1 == self@.height(),
            self@.wf(),
    {
        gray_dimensions(self)
    }

    /// The pixel at `(x, y)`, or `None` outside the image.
    pub fn get_pixel(&self, x: u32, y: u32) -> (pixel: Option<u8>)
        ensures
            pixel == if self@.contains(x as int, y as int) {
                Some(self@.at(x as int, y as int))
            } else {
                None
            },
    {
        let (width, height) = gray_dimensions(self);
        if x < width && y < height {
            Some(gray_get_pixel(self, x, y))
        } else {
            None
        }
    }

    /// Overwrites the pixel at `(x, y)` and returns `true`; outside the
    /// image it changes nothing and returns `false`.
    pub fn put_pixel(&mut self, x: u32, y: u32, value: u8) -> (inside: bool)
        ensures
            inside == old(self)@.contains(x as int, y as int),
            final(self)@ == if inside {
                old(self)@.put(x as int, y as int, value)
            } else {
                old(self)@
            },
    {
        let (width, height) = gray_dimensions(self);
        if x < width && y < height {
            gray_put_pixel(self, x, y, value);
            true
        } else {
            false
        }
    }
}

impl RgbaImage {
    /// A transparent black image of the given size, or `None` where
    /// `4 * width * height` is more than `isize::MAX`.
    pub fn new(width: u32, height: u32) -> (made: Option<RgbaImage>)
        ensures
            made is Some <==> 4 * width * height <= isize::MAX,
            made matches Some(image) ==> image@ == Grid::<RgbaPixel>::filled(
                width as nat,
                height as nat,
                (0u8, 0u8, 0u8, 0u8),
            ),
    {
        if rgba_buffer_fits(width, height) {
            Some(rgba_new(width, height))
        } else {
            None
        }
    }

    /// The width and the height of the image.
    pub fn dimensions(&self) -> (dims: (u32, u32))
        ensures
            dims.0 == self@.width,
            dims.1 == self@.height(),
            self@.wf(),
    {
        rgba_dimensions(self)
    }

    /// The pixel at `(x, y)`, or `None` outside the image.
    pub fn get_pixel(&self, x: u32, y: u32) -> (pixel: Option<RgbaPixel>)
        ensures
            pixel == if self@.contains(x as int, y as int) {
                Some(self@.at(x as int, y as int))
            } else {
                None
            },
    {
        let (width, height) = rgba_dimensions(self);
        if x < width && y < height {
            Some(rgba_get_pixel(self, x, y))
        } else {
            None
        }
    }

    /// Overwrites the pixel at `(x, y)` and returns `true`; outside the
    /// image it changes nothing and returns `false`.
    pub fn put_pixel(&mut self, x: u32, y: u32, pixel: RgbaPixel) -> (inside: bool)
        ensures
            inside == old(self)@.contains(x as int, y as int),
            final(self)@ == if inside {
                old(self)@.put(x as int, y as int, pixel)
            } else {
                old(self)@
            },
    {
        let (width, height) = rgba_dimensions(self);
        if x < width && y < height {
            rgba_put_pixel(self, x, y, pixel);
            true
        } else {
            false
        }
    }
}

} // verus!
