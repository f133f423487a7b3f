//! The brightness of a colour.
//!
//! Brightness is the weighted mean of the three channels with the weights
//! 299/1000, 587/1000 and 114/1000, rounded to the nearest whole number; a
//! mean that lies halfway between two whole numbers goes to the larger.
//! The sum is taken in whole thousandths, so nothing is lost before the
//! rounding.

use vstd::prelude::*;

verus! {

/// The weight of the red channel, in thousandths.
pub const WEIGHT_RED: u32 = 299;

/// The weight of the green channel, in thousandths.
pub const WEIGHT_GREEN: u32 = 587;

/// The weight of the blue channel, in thousandths.
pub const WEIGHT_BLUE: u32 = 114;

/// The weighted sum of the channels, in thousandths:
/// `299 * red + 587 * green + 114 * blue`.
pub open spec fn exact_sum(red: u8, green: u8, blue: u8) -> int {
    WEIGHT_RED * red + WEIGHT_GREEN * green + WEIGHT_BLUE * blue
}

/// The brightness of a colour: the whole number nearest to a thousandth of
/// the weighted sum, kept within 0 and 255.
pub open spec fn luminance(red: u8, green: u8, blue: u8) -> u8 {
    let nearest = (exact_sum(red, green, blue) + 500) / 1000;
    if nearest > 255 {
        255u8
    } else if nearest < 0 {
        0u8
    } else {
        nearest as u8
    }
}

/// Computes the brightness of the colour `pixel`, given as red, green and
/// blue: the whole number nearest to
/// `(299 * red + 587 * green + 114 * blue) / 1000`.
pub fn compute_luminance(pixel: &[u8; 3]) -> (brightness: u8)
    ensures
        brightness == luminance(pixel[0], pixel[1], pixel[2]),
        1000 * brightness - 500 <= exact_sum(pixel[0], pixel[1], pixel[2]) < 1000 * brightness
            + 500,
{
    let sum: u32 = WEIGHT_RED * pixel[0] as u32 + WEIGHT_GREEN * pixel[1] as u32 + WEIGHT_BLUE
        * pixel[2] as u32;
    let nearest: u32 = (sum + 500) / 1000;
    if nearest > 255 {
        255
    } else {
        nearest as u8
    }
}

/// Brightness is the whole number nearest to a thousandth of the weighted
/// sum: it is off by at most half, and the bounds 0 and 255 never cut it.
pub proof fn lemma_luminance_is_nearest(red: u8, green: u8, blue: u8)
    ensures
        luminance(red, green, blue) == (exact_sum(red, green, blue) + 500) / 1000,
        2 * (1000 * luminance(red, green, blue) - exact_sum(red, green, blue)) <= 1000,
        2 * (exact_sum(red, green, blue) - 1000 * luminance(red, green, blue)) <= 1000,
{
}

/// Brightness lies between the smallest and the largest channel, so a grey
/// has the brightness of its channels.
pub proof fn lemma_luminance_between_channels(red: u8, green: u8, blue: u8, low: u8, high: u8)
    requires
        low <= red <= high,
        low <= green <= high,
        low <= blue <= high,
    ensures
        low <= luminance(red, green, blue) <= high,
        red == green == blue ==> luminance(red, green, blue) == red,
{
}

/// Black has brightness 0 and white has brightness 255.
pub proof fn lemma_luminance_extremes()
    ensures
        luminance(0, 0, 0) == 0,
        luminance(255, 255, 255) == 255,
{
}

/// Brightness does not fall when no channel falls.
pub proof fn lemma_luminance_monotone(r1: u8, g1: u8, b1: u8, r2: u8, g2: u8, b2: u8)
    requires
        r1 <= r2,
        g1 <= g2,
        b1 <= b2,
    ensures
        luminance(r1, g1, b1) <= luminance(r2, g2, b2),
{
}

} // verus!
