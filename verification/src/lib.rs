//! Ordered (Bayer-matrix) dithering of raster images.
//!
//! An image is reduced to two levels by comparing each pixel's brightness
//! with a threshold taken from a small square matrix that is tiled over the
//! image. The grayscale mode emits a black-and-white image; the colour mode
//! keeps every pixel's colour and writes the two levels into its alpha
//! channel.

pub mod raster;
pub mod matrix;
pub mod luminance;
pub mod options;
pub mod dither;
