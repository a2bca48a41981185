use avif_transcode::config::{build_config, ColorSpace};
use avif_transcode::format::{detect, Format};
use avif_transcode::pixel::{Pixel, PixelBuffer};

#[test]
fn detect_png_signature() {
    let bytes = [0x89u8, b'P', b'N', b'G', 0x0d, 0x0a, 0x1a, 0x0a];
    assert_eq!(detect(&bytes), Format::Png);
}

#[test]
fn detect_non_png_is_provisionally_jpeg() {
    assert_eq!(detect(&[0xffu8, 0xd8, 0xff, 0xe0]), Format::Jpeg);
    assert_eq!(detect(&[0x89u8, b'P', b'N']), Format::Jpeg);
    assert_eq!(detect(&[]), Format::Jpeg);
    assert_eq!(detect(&[0x89u8, b'P', b'N', b'H']), Format::Jpeg);
}

#[test]
fn premultiply_matches_integer_formula() {
    let mut buffer = PixelBuffer {
        width: 2,
        height: 2,
        pixels: vec![
            Pixel { r: 200, g: 100, b: 50, a: 128 },
            Pixel { r: 10, g: 20, b: 30, a: 255 },
            Pixel { r: 255, g: 255, b: 255, a: 0 },
            Pixel { r: 7, g: 8, b: 9, a: 1 },
        ],
    };
    buffer.premultiply();
    // (c * a) / 255 with truncating integer division, alpha unchanged.
    assert_eq!(buffer.pixels[0], Pixel { r: 100, g: 50, b: 25, a: 128 });
    // A fully opaque pixel is unchanged.
    assert_eq!(buffer.pixels[1], Pixel { r: 10, g: 20, b: 30, a: 255 });
    // A fully transparent pixel loses its color channels.
    assert_eq!(buffer.pixels[2], Pixel { r: 0, g: 0, b: 0, a: 0 });
    assert_eq!(buffer.pixels[3], Pixel { r: 0, g: 0, b: 0, a: 1 });
    assert_eq!(buffer.width, 2);
    assert_eq!(buffer.height, 2);
}

#[test]
fn premultiply_is_not_a_clamp() {
    // Applying the transform twice scales twice: it is a physical scaling,
    // not a projection.
    let mut buffer = PixelBuffer {
        width: 1,
        height: 1,
        pixels: vec![Pixel { r: 200, g: 200, b: 200, a: 128 }],
    };
    buffer.premultiply();
    assert_eq!(buffer.pixels[0], Pixel { r: 100, g: 100, b: 100, a: 128 });
    buffer.premultiply();
    assert_eq!(buffer.pixels[0], Pixel { r: 50, g: 50, b: 50, a: 128 });
}

#[test]
fn config_for_quality_80() {
    let config = build_config(80, false);
    assert_eq!(config.quality, 80);
    // min((80 + 100) / 2, 80 + 80 / 4 + 2) = min(90, 102) = 90
    assert_eq!(config.alpha_quality, 90);
    assert_eq!(config.speed, 4);
    assert_eq!(config.color_space, ColorSpace::Rgb);
    assert_eq!(config.thread_budget, 0);
    assert!(!config.premultiplied_alpha);
}

#[test]
fn config_alpha_quality_branches() {
    // Low quality: the quarter-boost branch is smaller.
    assert_eq!(build_config(0, false).alpha_quality, 2);
    assert_eq!(build_config(20, false).alpha_quality, 27);
    // High quality: the half-boost branch is smaller.
    assert_eq!(build_config(100, true).alpha_quality, 100);
    let config = build_config(100, true);
    assert!(config.premultiplied_alpha);
}
