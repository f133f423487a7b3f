use bayer_dither::raster::gray_buffer_fits;
use bayer_dither::raster::rgba_buffer_fits;
use bayer_dither::raster::GrayImage;
use bayer_dither::raster::RgbaImage;

#[test]
fn new_gray_image_is_black() {
    let image = GrayImage::new(3, 2).unwrap();
    assert_eq!(image.dimensions(), (3, 2));
    for y in 0..2 {
        for x in 0..3 {
            assert_eq!(image.get_pixel(x, y), Some(0));
        }
    }
}

#[test]
fn new_rgba_image_is_transparent_black() {
    let image = RgbaImage::new(2, 3).unwrap();
    assert_eq!(image.dimensions(), (2, 3));
    for y in 0..3 {
        for x in 0..2 {
            assert_eq!(image.get_pixel(x, y), Some((0, 0, 0, 0)));
        }
    }
}

#[test]
fn empty_images_can_be_made() {
    assert_eq!(GrayImage::new(0, 0).unwrap().dimensions(), (0, 0));
    assert_eq!(GrayImage::new(0, 7).unwrap().dimensions(), (0, 7));
    assert_eq!(GrayImage::new(7, 0).unwrap().dimensions(), (7, 0));
    assert_eq!(RgbaImage::new(0, 0).unwrap().dimensions(), (0, 0));
    assert_eq!(RgbaImage::new(0, 7).unwrap().dimensions(), (0, 7));
    assert_eq!(RgbaImage::new(7, 0).unwrap().dimensions(), (7, 0));
}

#[test]
fn images_too_large_for_a_vector_are_refused() {
    assert!(GrayImage::new(u32::MAX, u32::MAX).is_none());
    assert!(RgbaImage::new(u32::MAX, u32::MAX).is_none());
    assert!(RgbaImage::new(1 << 31, 1 << 31).is_none());
}

#[test]
fn buffer_fits_counts_the_bytes() {
    for (width, height) in [
        (0u32, 0u32),
        (1, 1),
        (640, 480),
        (u32::MAX, 0),
        (u32::MAX, 1),
        (1 << 16, 1 << 15),
        (1 << 16, 1 << 16),
        (1 << 31, 1 << 30),
        (1 << 31, 1 << 31),
        (1 << 31, u32::MAX),
        (u32::MAX, u32::MAX),
    ] {
        let pixels = width as u128 * height as u128;
        assert_eq!(gray_buffer_fits(width, height), pixels <= isize::MAX as u128);
        assert_eq!(rgba_buffer_fits(width, height), 4 * pixels <= isize::MAX as u128);
    }
}

#[test]
fn put_pixel_changes_one_gray_pixel() {
    let mut image = GrayImage::new(3, 2).unwrap();
    assert!(image.put_pixel(1, 0, 77));
    assert!(image.put_pixel(2, 1, 200));
    assert_eq!(image.dimensions(), (3, 2));
    let expected = [[0, 77, 0], [0, 0, 200]];
    for y in 0..2u32 {
        for x in 0..3u32 {
            assert_eq!(image.get_pixel(x, y), Some(expected[y as usize][x as usize]));
        }
    }
    assert!(image.put_pixel(1, 0, 5));
    assert_eq!(image.get_pixel(1, 0), Some(5));
}

#[test]
fn put_pixel_changes_one_rgba_pixel() {
    let mut image = RgbaImage::new(2, 2).unwrap();
    assert!(image.put_pixel(0, 1, (1, 2, 3, 4)));
    assert_eq!(image.get_pixel(0, 0), Some((0, 0, 0, 0)));
    assert_eq!(image.get_pixel(1, 0), Some((0, 0, 0, 0)));
    assert_eq!(image.get_pixel(0, 1), Some((1, 2, 3, 4)));
    assert_eq!(image.get_pixel(1, 1), Some((0, 0, 0, 0)));
}

#[test]
fn pixels_outside_the_image_are_refused() {
    let mut gray = GrayImage::new(3, 2).unwrap();
    assert_eq!(gray.get_pixel(3, 0), None);
    assert_eq!(gray.get_pixel(0, 2), None);
    assert_eq!(gray.get_pixel(u32::MAX, u32::MAX), None);
    assert!(!gray.put_pixel(3, 0, 9));
    assert!(!gray.put_pixel(0, 2, 9));
    let mut rgba = RgbaImage::new(3, 2).unwrap();
    assert_eq!(rgba.get_pixel(3, 1), None);
    assert_eq!(rgba.get_pixel(2, 2), None);
    assert!(!rgba.put_pixel(3, 1, (9, 9, 9, 9)));
    assert!(!rgba.put_pixel(2, 2, (9, 9, 9, 9)));
    for y in 0..2 {
        for x in 0..3 {
            assert_eq!(gray.get_pixel(x, y), Some(0));
            assert_eq!(rgba.get_pixel(x, y), Some((0, 0, 0, 0)));
        }
    }
    let empty = GrayImage::new(0, 0).unwrap();
    assert_eq!(empty.get_pixel(0, 0), None);
}
