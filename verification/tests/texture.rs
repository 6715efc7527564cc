use pathfinder_color::ColorU;
use vector::pathfinder::{image_size_is_valid, texture};
use vector::PixelFormat;

fn color(r: u8, g: u8, b: u8, a: u8) -> ColorU {
    ColorU { r, g, b, a }
}

#[test]
fn rgb_texture_is_opaque() {
    let data = [10u8, 20, 30, 0, 0, 0, 255, 255, 255, 1, 2, 3, 4, 5, 6, 7, 8, 9];
    let image = texture(3, 2, &data, PixelFormat::Rgb24);
    assert_eq!((image.size().x(), image.size().y()), (3, 2));
    assert_eq!(
        **image.pixels(),
        vec![
            color(10, 20, 30, 255),
            color(0, 0, 0, 255),
            color(255, 255, 255, 255),
            color(1, 2, 3, 255),
            color(4, 5, 6, 255),
            color(7, 8, 9, 255),
        ]
    );
    assert!(image.is_opaque());
}

#[test]
fn luminance_texture_is_grey() {
    let image = texture(2, 1, &[0, 200], PixelFormat::L8);
    assert_eq!((image.size().x(), image.size().y()), (2, 1));
    assert_eq!(**image.pixels(), vec![color(0, 0, 0, 255), color(200, 200, 200, 255)]);
}

#[test]
fn rgba_texture_keeps_alpha() {
    let image = texture(1, 2, &[1, 2, 3, 4, 5, 6, 7, 8], PixelFormat::Rgba32);
    assert_eq!((image.size().x(), image.size().y()), (1, 2));
    assert_eq!(**image.pixels(), vec![color(1, 2, 3, 4), color(5, 6, 7, 8)]);
    assert!(!image.is_opaque());
}

#[test]
fn empty_texture() {
    let image = texture(0, 7, &[], PixelFormat::Rgba32);
    assert_eq!((image.size().x(), image.size().y()), (0, 7));
    assert!(image.pixels().is_empty());
}

#[test]
fn sides_over_the_signed_range_are_no_image() {
    assert!(image_size_is_valid(0, 0));
    assert!(image_size_is_valid(i32::MAX as u32, 1));
    assert!(!image_size_is_valid(i32::MAX as u32 + 1, 1));
    assert!(!image_size_is_valid(1, u32::MAX));
}
