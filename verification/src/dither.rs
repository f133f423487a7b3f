//! The two ditherers.
//!
//! Both are maps over independent pixels: what comes out at `(x, y)` depends
//! on the pixel that went in at `(x, y)` and on the threshold that the tiled
//! matrix puts there, and on nothing else.

use crate::luminance::compute_luminance;
use crate::luminance::luminance;
use crate::matrix::lemma_position_in_matrix;
use crate::matrix::threshold_index;
use crate::matrix::tile_index;
use crate::matrix::BayerMatrixOption;
use crate::options::PreserveOrder;
use crate::raster::dynamic_dimensions;
use crate::raster::dynamic_get_pixel;
use crate::raster::dynamic_to_luma8;
use crate::raster::gray_dimensions;
use crate::raster::gray_get_pixel;
use crate::raster::gray_new;
use crate::raster::gray_put_pixel;
use crate::raster::luma_view;
use crate::raster::rgba_buffer_fits;
use crate::raster::rgba_new;
use crate::raster::rgba_put_pixel;
use crate::raster::rgba_view;
use crate::raster::GrayImage;
use crate::raster::Grid;
use crate::raster::RgbaImage;
use crate::raster::RgbaPixel;
use image::DynamicImage;
use vstd::prelude::*;

verus! {

/// White where the intensity is above the threshold, black elsewhere.
pub open spec fn gray_level(intensity: u8, threshold: u8) -> u8 {
    if intensity > threshold {
        255
    } else {
        0
    }
}

/// Opaque or transparent: favouring light, a pixel is opaque where its
/// intensity is above the threshold; favouring dark, where it is not.
pub open spec fn alpha_level(intensity: u8, threshold: u8, order: PreserveOrder) -> u8 {
    match order {
        PreserveOrder::Light => if intensity > threshold {
            255
        } else {
            0
        },
        PreserveOrder::Dark => if intensity > threshold {
            0
        } else {
            255
        },
    }
}

/// A colour with its alpha replaced by the level that its brightness earns
/// against the threshold.
pub open spec fn color_level(pixel: RgbaPixel, threshold: u8, order: PreserveOrder) -> RgbaPixel {
    (pixel.0, pixel.1, pixel.2, alpha_level(luminance(pixel.0, pixel.1, pixel.2), threshold, order))
}

/// A brightness as an opaque grey.
pub open spec fn opaque_gray(value: u8) -> RgbaPixel {
    (value, value, value, 255u8)
}

/// The black-and-white image that dithering makes of a grid of brightness
/// values.
pub open spec fn dithered_gray(source: Grid<u8>, option: BayerMatrixOption) -> Grid<u8> {
    Grid {
        width: source.width,
        rows: Seq::new(
            source.height(),
            |y: int|
                Seq::new(
                    source.width,
                    |x: int| gray_level(source.rows[y][x], option.threshold_at(x, y)),
                ),
        ),
    }
}

/// The image that colour dithering makes of a grid of colours.
pub open spec fn dithered_color(
    source: Grid<RgbaPixel>,
    option: BayerMatrixOption,
    order: PreserveOrder,
) -> Grid<RgbaPixel> {
    Grid {
        width: source.width,
        rows: Seq::new(
            source.height(),
            |y: int|
                Seq::new(
                    source.width,
                    |x: int| color_level(source.rows[y][x], option.threshold_at(x, y), order),
                ),
        ),
    }
}

/// A grid of brightness values as a grid of opaque greys.
pub open spec fn grays_as_rgba(source: Grid<u8>) -> Grid<RgbaPixel> {
    Grid {
        width: source.width,
        rows: Seq::new(
            source.height(),
            |y: int| Seq::new(source.width, |x: int| opaque_gray(source.rows[y][x])),
        ),
    }
}

/// The value that grayscale dithering gives a pixel of brightness
/// `intensity` at `(x, y)`.
pub fn dither_gray_pixel(intensity: u8, x: u32, y: u32, option: BayerMatrixOption) -> (level: u8)
    ensures
        level == gray_level(intensity, option.threshold_at(x as int, y as int)),
{
    let threshold = option.threshold(threshold_index(x, y, option));
    if intensity > threshold {
        255
    } else {
        0
    }
}

/// The pixel that colour dithering gives the colour `pixel` at `(x, y)`: its
/// red, green and blue, and the alpha that its brightness earns.
pub fn dither_color_pixel(
    pixel: RgbaPixel,
    x: u32,
    y: u32,
    option: BayerMatrixOption,
    order: PreserveOrder,
) -> (out: RgbaPixel)
    ensures
        out == color_level(pixel, option.threshold_at(x as int, y as int), order),
{
    let intensity = compute_luminance(&[pixel.0, pixel.1, pixel.2]);
    let threshold = option.threshold(threshold_index(x, y, option));
    let alpha: u8 = match order {
        PreserveOrder::Light => {
            if intensity > threshold {
                255
            } else {
                0
            }
        },
        PreserveOrder::Dark => {
            if intensity > threshold {
                0
            } else {
                255
            }
        },
    };
    (pixel.0, pixel.1, pixel.2, alpha)
}

/// Dithers a single-channel image: each pixel becomes white where it is
/// above the threshold that the tiled matrix puts there, and black
/// elsewhere.
pub fn dither_luma(gray: &GrayImage, option: BayerMatrixOption) -> (out: GrayImage)
    ensures
        out@.width == gray@.width,
        out@.height() == gray@.height(),
        out@ == dithered_gray(gray@, option),
{
    let (width, height) = gray_dimensions(gray);
    let mut out = gray_new(width, height);
    let mut y: u32 = 0;
    while y < height
        invariant
            y <= height,
            gray@.width == width,
            gray@.height() == height,
            gray@.wf(),
            out@.width == width,
            out@.height() == height,
            out@.wf(),
            forall|xx: int, yy: int|
                0 <= yy < y && 0 <= xx < width ==> #[trigger] out@.rows[yy][xx] == gray_level(
                    gray@.rows[yy][xx],
                    option.threshold_at(xx, yy),
                ),
        decreases height - y,
    {
        let mut x: u32 = 0;
        while x < width
            invariant
                y < height,
                x <= width,
                gray@.width == width,
                gray@.height() == height,
                gray@.wf(),
                out@.width == width,
                out@.height() == height,
                out@.wf(),
                forall|xx: int, yy: int|
                    0 <= yy < y && 0 <= xx < width ==> #[trigger] out@.rows[yy][xx] == gray_level(
                        gray@.rows[yy][xx],
                        option.threshold_at(xx, yy),
                    ),
                forall|xx: int|
                    0 <= xx < x ==> #[trigger] out@.rows[y as int][xx] == gray_level(
                        gray@.rows[y as int][xx],
                        option.threshold_at(xx, y as int),
                    ),
            decreases width - x,
        {
            let intensity = gray_get_pixel(gray, x, y);
            let level = dither_gray_pixel(intensity, x, y, option);
            gray_put_pixel(&mut out, x, y, level);
            x = x + 1;
        }
        y = y + 1;
    }
    proof {
        let expected = dithered_gray(gray@, option);
        assert forall|yy: int| 0 <= yy < height implies out@.rows[yy] =~= expected.rows[yy] by {
            assert(out@.rows[yy].len() == width);
        }
        assert(out@.rows =~= expected.rows);
    }
    out
}

/// Dithers an image in grayscale: the image is reduced to brightness as the
/// image crate's `to_luma8` does it, and the result is dithered.
pub fn apply_bayer_dithering_grayscale(image: &DynamicImage, bayer_option: BayerMatrixOption) -> (out:
    GrayImage)
    ensures
        out@.width == rgba_view(*image).width,
        out@.height() == rgba_view(*image).height(),
        out@ == dithered_gray(luma_view(*image), bayer_option),
{
    let gray_image = dynamic_to_luma8(image);
    dither_luma(&gray_image, bayer_option)
}

/// Dithers an image in colour: each pixel keeps its red, green and blue, and
/// its alpha becomes opaque or transparent as its brightness compares with
/// the threshold that the tiled matrix puts there.
pub fn apply_bayer_dithering_color(
    image: &DynamicImage,
    bayer_option: BayerMatrixOption,
    preserve_order: PreserveOrder,
) -> (out: RgbaImage)
    requires
        4 * rgba_view(*image).width * rgba_view(*image).height() <= isize::MAX,
    ensures
        out@.width == rgba_view(*image).width,
        out@.height() == rgba_view(*image).height(),
        out@ == dithered_color(rgba_view(*image), bayer_option, preserve_order),
{
    let (width, height) = dynamic_dimensions(image);
    let mut out = rgba_new(width, height);
    let ghost source = rgba_view(*image);
    let mut y: u32 = 0;
    while y < height
        invariant
            y <= height,
            source == rgba_view(*image),
            source.width == width,
            source.height() == height,
            source.wf(),
            out@.width == width,
            out@.height() == height,
            out@.wf(),
            forall|xx: int, yy: int|
                0 <= yy < y && 0 <= xx < width ==> #[trigger] out@.rows[yy][xx] == color_level(
                    source.rows[yy][xx],
                    bayer_option.threshold_at(xx, yy),
                    preserve_order,
                ),
        decreases height - y,
    {
        let mut x: u32 = 0;
        while x < width
            invariant
                y < height,
                x <= width,
                source == rgba_view(*image),
                source.width == width,
                source.height() == height,
                source.wf(),
                out@.width == width,
                out@.height() == height,
                out@.wf(),
                forall|xx: int, yy: int|
                    0 <= yy < y && 0 <= xx < width ==> #[trigger] out@.rows[yy][xx] == color_level(
                        source.rows[yy][xx],
                        bayer_option.threshold_at(xx, yy),
                        preserve_order,
                    ),
                forall|xx: int|
                    0 <= xx < x ==> #[trigger] out@.rows[y as int][xx] == color_level(
                        source.rows[y as int][xx],
                        bayer_option.threshold_at(xx, y as int),
                        preserve_order,
                    ),
            decreases width - x,
        {
            let pixel = dynamic_get_pixel(image, x, y);
            let dithered = dither_color_pixel(pixel, x, y, bayer_option, preserve_order);
            rgba_put_pixel(&mut out, x, y, dithered);
            x = x + 1;
        }
        y = y + 1;
    }
    proof {
        let expected = dithered_color(source, bayer_option, preserve_order);
        assert forall|yy: int| 0 <= yy < height implies out@.rows[yy] =~= expected.rows[yy] by {
            assert(out@.rows[yy].len() == width);
        }
        assert(out@.rows =~= expected.rows);
    }
    out
}

/// Dithers an image in colour where the result can be allocated, and
/// returns `None` where its `4 * width * height` bytes are more than a
/// vector holds.
pub fn try_apply_bayer_dithering_color(
    image: &DynamicImage,
    bayer_option: BayerMatrixOption,
    preserve_order: PreserveOrder,
) -> (out: Option<RgbaImage>)
    ensures
        out is Some <==> 4 * rgba_view(*image).width * rgba_view(*image).height() <= isize::MAX,
        out matches Some(dithered) ==> dithered@.width == rgba_view(*image).width,
        out matches Some(dithered) ==> dithered@.height() == rgba_view(*image).height(),
        out matches Some(dithered) ==> dithered@ == dithered_color(
            rgba_view(*image),
            bayer_option,
            preserve_order,
        ),
{
    let (width, height) = dynamic_dimensions(image);
    if rgba_buffer_fits(width, height) {
        Some(apply_bayer_dithering_color(image, bayer_option, preserve_order))
    } else {
        None
    }
}

/// Copies a single-channel image into a four-channel one: each brightness
/// becomes the opaque grey of that brightness.
pub fn luma_to_rgba8(luma_img: &GrayImage) -> (out: RgbaImage)
    requires
        4 * luma_img@.width * luma_img@.height() <= isize::MAX,
    ensures
        out@.width == luma_img@.width,
        out@.height() == luma_img@.height(),
        out@ == grays_as_rgba(luma_img@),
{
    let (width, height) = gray_dimensions(luma_img);
    let mut out = rgba_new(width, height);
    let mut y: u32 = 0;
    while y < height
        invariant
            y <= height,
            luma_img@.width == width,
            luma_img@.height() == height,
            luma_img@.wf(),
            out@.width == width,
            out@.height() == height,
            out@.wf(),
            forall|xx: int, yy: int|
                0 <= yy < y && 0 <= xx < width ==> #[trigger] out@.rows[yy][xx] == opaque_gray(
                    luma_img@.rows[yy][xx],
                ),
        decreases height - y,
    {
        let mut x: u32 = 0;
        while x < width
            invariant
                y < height,
                x <= width,
                luma_img@.width == width,
                luma_img@.height() == height,
                luma_img@.wf(),
                out@.width == width,
                out@.height() == height,
                out@.wf(),
                forall|xx: int, yy: int|
                    0 <= yy < y && 0 <= xx < width ==> #[trigger] out@.rows[yy][xx] == opaque_gray(
                        luma_img@.rows[yy][xx],
                    ),
                forall|xx: int|
                    0 <= xx < x ==> #[trigger] out@.rows[y as int][xx] == opaque_gray(
                        luma_img@.rows[y as int][xx],
                    ),
            decreases width - x,
        {
            let luma_value = gray_get_pixel(luma_img, x, y);
            rgba_put_pixel(&mut out, x, y, (luma_value, luma_value, luma_value, 255));
            x = x + 1;
        }
        y = y + 1;
    }
    proof {
        let expected = grays_as_rgba(luma_img@);
        assert forall|yy: int| 0 <= yy < height implies out@.rows[yy] =~= expected.rows[yy] by {
            assert(out@.rows[yy].len() == width);
        }
        assert(out@.rows =~= expected.rows);
    }
    out
}

/// The policy that holds where none is chosen: dark pixels stay opaque.
pub open spec fn order_or_default(preserve_order: Option<PreserveOrder>) -> PreserveOrder {
    match preserve_order {
        Some(order) => order,
        None => PreserveOrder::Dark,
    }
}

/// The four-channel image that either mode makes of an image: in colour,
/// the colour-dithered image under the chosen policy, dark where none is
/// chosen; otherwise the grayscale-dithered image as opaque greys.
pub open spec fn dithered_rgba(
    image: DynamicImage,
    option: BayerMatrixOption,
    color: bool,
    preserve_order: Option<PreserveOrder>,
) -> Grid<RgbaPixel> {
    if color {
        dithered_color(rgba_view(image), option, order_or_default(preserve_order))
    } else {
        grays_as_rgba(dithered_gray(luma_view(image), option))
    }
}

/// Dithers an image in the chosen mode into a four-channel image, and
/// returns `None` where the `4 * width * height` bytes of the result are
/// more than a vector holds.
pub fn dither_to_rgba(
    image: &DynamicImage,
    bayer_option: BayerMatrixOption,
    color: bool,
    preserve_order: Option<PreserveOrder>,
) -> (out: Option<RgbaImage>)
    ensures
        out is Some <==> 4 * rgba_view(*image).width * rgba_view(*image).height() <= isize::MAX,
        out matches Some(dithered) ==> dithered@.width == rgba_view(*image).width,
        out matches Some(dithered) ==> dithered@.height() == rgba_view(*image).height(),
        out matches Some(dithered) ==> dithered@ == dithered_rgba(
            *image,
            bayer_option,
            color,
            preserve_order,
        ),
{
    if color {
        let order = match preserve_order {
            Some(order) => order,
            None => PreserveOrder::Dark,
        };
        try_apply_bayer_dithering_color(image, bayer_option, order)
    } else {
        let gray = apply_bayer_dithering_grayscale(image, bayer_option);
        let (width, height) = gray_dimensions(&gray);
        if rgba_buffer_fits(width, height) {
            Some(luma_to_rgba8(&gray))
        } else {
            None
        }
    }
}

/// What grayscale dithering puts at a pixel inside the image: with `order`
/// the side of the matrix, the threshold is read at position
/// `tile_index(x, y, order)`, that is `(y mod order) * order + (x mod order)`,
/// which lies inside the matrix, and the pixel is white exactly where the
/// source is above it.
pub proof fn lemma_dithered_gray_at(source: Grid<u8>, option: BayerMatrixOption, x: int, y: int)
    requires
        source.contains(x, y),
    ensures
        ({
            let index = tile_index(x, y, option.order() as int);
            &&& 0 <= index < option.thresholds().len()
            &&& option.thresholds().len() == option.order() * option.order()
            &&& dithered_gray(source, option).contains(x, y)
            &&& dithered_gray(source, option).at(x, y) == (if source.at(x, y)
                > option.thresholds()[index] {
                255u8
            } else {
                0u8
            })
        }),
{
    lemma_position_in_matrix(x as nat, y as nat, option);
}

/// What colour dithering puts at a pixel inside the image: red, green and
/// blue of the source, and an alpha that compares the brightness of the
/// source with the threshold at position `tile_index(x, y, order)`, that is
/// `(y mod order) * order + (x mod order)`, which lies inside the matrix.
/// Favouring light, the pixel is opaque exactly where the brightness is
/// above the threshold; favouring dark, exactly where it is not.
pub proof fn lemma_dithered_color_at(
    source: Grid<RgbaPixel>,
    option: BayerMatrixOption,
    order: PreserveOrder,
    x: int,
    y: int,
)
    requires
        source.contains(x, y),
    ensures
        ({
            let index = tile_index(x, y, option.order() as int);
            let pixel = source.at(x, y);
            let above = luminance(pixel.0, pixel.1, pixel.2) > option.thresholds()[index];
            let out = dithered_color(source, option, order).at(x, y);
            &&& 0 <= index < option.thresholds().len()
            &&& option.thresholds().len() == option.order() * option.order()
            &&& dithered_color(source, option, order).contains(x, y)
            &&& out.0 == pixel.0 && out.1 == pixel.1 && out.2 == pixel.2
            &&& order == PreserveOrder::Light ==> out.3 == (if above {
                255u8
            } else {
                0u8
            })
            &&& order == PreserveOrder::Dark ==> out.3 == (if above {
                0u8
            } else {
                255u8
            })
        }),
{
    lemma_position_in_matrix(x as nat, y as nat, option);
}

/// Dithering keeps the size of the image: width and height of the result
/// are those of the source, in both modes and for every matrix, and every
/// row of the result has the full width.
pub proof fn lemma_dithering_keeps_size(
    luma: Grid<u8>,
    color: Grid<RgbaPixel>,
    option: BayerMatrixOption,
    order: PreserveOrder,
)
    ensures
        dithered_gray(luma, option).width == luma.width,
        dithered_gray(luma, option).height() == luma.height(),
        dithered_gray(luma, option).wf(),
        dithered_color(color, option, order).width == color.width,
        dithered_color(color, option, order).height() == color.height(),
        dithered_color(color, option, order).wf(),
{
}

/// An image of one brightness that is above every threshold of the matrix
/// comes out white everywhere.
pub proof fn lemma_uniform_above_is_white(source: Grid<u8>, option: BayerMatrixOption, level: u8)
    requires
        forall|x: int, y: int| source.contains(x, y) ==> #[trigger] source.rows[y][x] == level,
        forall|i: int| 0 <= i < option.thresholds().len() ==> level > option.thresholds()[i],
    ensures
        dithered_gray(source, option) == Grid::<u8>::filled(source.width, source.height(), 255u8),
{
    let out = dithered_gray(source, option);
    let white = Grid::<u8>::filled(source.width, source.height(), 255u8);
    assert forall|y: int| 0 <= y < source.height() implies out.rows[y] =~= white.rows[y] by {
        assert forall|x: int| 0 <= x < source.width implies out.rows[y][x] == 255u8 by {
            lemma_position_in_matrix(x as nat, y as nat, option);
            assert(source.contains(x, y));
        }
    }
    assert(out.rows =~= white.rows);
}

/// An image of one brightness that is above no threshold of the matrix
/// comes out black everywhere.
pub proof fn lemma_uniform_not_above_is_black(
    source: Grid<u8>,
    option: BayerMatrixOption,
    level: u8,
)
    requires
        forall|x: int, y: int| source.contains(x, y) ==> #[trigger] source.rows[y][x] == level,
        forall|i: int| 0 <= i < option.thresholds().len() ==> level <= option.thresholds()[i],
    ensures
        dithered_gray(source, option) == Grid::<u8>::filled(source.width, source.height(), 0u8),
{
    let out = dithered_gray(source, option);
    let black = Grid::<u8>::filled(source.width, source.height(), 0u8);
    assert forall|y: int| 0 <= y < source.height() implies out.rows[y] =~= black.rows[y] by {
        assert forall|x: int| 0 <= x < source.width implies out.rows[y][x] == 0u8 by {
            lemma_position_in_matrix(x as nat, y as nat, option);
            assert(source.contains(x, y));
        }
    }
    assert(out.rows =~= black.rows);
}

/// Favouring light and favouring dark give opposite alpha levels: each is
/// the bitwise complement of the other, one 0 and the other 255.
pub proof fn lemma_alpha_levels_complement(intensity: u8, threshold: u8)
    ensures
        alpha_level(intensity, threshold, PreserveOrder::Light) == !alpha_level(
            intensity,
            threshold,
            PreserveOrder::Dark,
        ),
        alpha_level(intensity, threshold, PreserveOrder::Light) + alpha_level(
            intensity,
            threshold,
            PreserveOrder::Dark,
        ) == 255,
{
    assert(!0u8 == 255u8) by (bit_vector);
    assert(!255u8 == 0u8) by (bit_vector);
}

/// Colour dithering of one image under the two policies gives, at every
/// pixel, the same red, green and blue and complementary alpha.
pub proof fn lemma_orders_complement(
    source: Grid<RgbaPixel>,
    option: BayerMatrixOption,
    x: int,
    y: int,
)
    requires
        source.contains(x, y),
    ensures
        ({
            let light = dithered_color(source, option, PreserveOrder::Light).at(x, y);
            let dark = dithered_color(source, option, PreserveOrder::Dark).at(x, y);
            &&& light.0 == dark.0 == source.at(x, y).0
            &&& light.1 == dark.1 == source.at(x, y).1
            &&& light.2 == dark.2 == source.at(x, y).2
            &&& light.3 == !dark.3
            &&& light.3 + dark.3 == 255
        }),
{
    let pixel = source.rows[y][x];
    lemma_alpha_levels_complement(
        luminance(pixel.0, pixel.1, pixel.2),
        option.threshold_at(x, y),
    );
}

/// Grayscale dithering is a function of the image and the matrix: two runs
/// on one image with one matrix give the same image, pixel for pixel.
pub proof fn lemma_grayscale_repeatable(
    image: DynamicImage,
    option: BayerMatrixOption,
    first: GrayImage,
    second: GrayImage,
)
    requires
        first@ == dithered_gray(luma_view(image), option),
        second@ == dithered_gray(luma_view(image), option),
    ensures
        first@ == second@,
        first@.width == second@.width,
        first@.height() == second@.height(),
        forall|x: int, y: int| first@.contains(x, y) ==> first@.at(x, y) == second@.at(x, y),
{
}

} // verus!
