use avif_transcode::decode::{decode, DecodeError};
use avif_transcode::encode::{encode, EncodeError};
use avif_transcode::config::{build_config, EncodeConfig, ColorSpace};
use avif_transcode::pipeline::{transcode, transcode_with, PipelineError};
use avif_transcode::pixel::{Pixel, PixelBuffer};

/// A quantization table segment: table 0, all entries 1.
fn dqt() -> Vec<u8> {
    let mut v = vec![0xff, 0xdb, 0x00, 0x43, 0x00];
    v.extend_from_slice(&[1u8; 64]);
    v
}

/// A Huffman table segment holding one single-bit code for the symbol 0:
/// enough to code a zero DC difference (class 0x00) or an immediate
/// end-of-block (class 0x10).
fn minimal_dht(class_and_id: u8) -> Vec<u8> {
    let mut v = vec![0xff, 0xc4, 0x00, 0x14, class_and_id];
    v.extend_from_slice(&[1, 0, 0, 0, 0, 0, 0, 0, 0, 0, 0, 0, 0, 0, 0, 0]);
    v.push(0x00);
    v
}

/// An 8x8 baseline greyscale JPEG whose single data unit carries a zero DC
/// coefficient and no AC coefficients, so every decoded sample is 128.
fn grey_jpeg() -> Vec<u8> {
    let mut v = vec![0xff, 0xd8];
    v.extend(dqt());
    // SOF0: precision 8, height 8, width 8, one component, 1x1 sampling.
    v.extend_from_slice(&[
        0xff, 0xc0, 0x00, 0x0b, 0x08, 0x00, 0x08, 0x00, 0x08, 0x01, 0x01, 0x11, 0x00,
    ]);
    v.extend(minimal_dht(0x00));
    v.extend(minimal_dht(0x10));
    // SOS: one component, DC/AC table 0, full spectral selection.
    v.extend_from_slice(&[0xff, 0xda, 0x00, 0x08, 0x01, 0x01, 0x00, 0x00, 0x3f, 0x00]);
    // Entropy data: DC code '0', EOB code '0', padded with 1 bits.
    v.push(0x3f);
    v.extend_from_slice(&[0xff, 0xd9]);
    v
}

/// An 8x8 baseline JPEG with four components and no Adobe marker, which the
/// decoder reports as CMYK.
fn cmyk_jpeg() -> Vec<u8> {
    let mut v = vec![0xff, 0xd8];
    v.extend(dqt());
    // SOF0: four components, all 1x1 sampling with quantization table 0.
    v.extend_from_slice(&[
        0xff, 0xc0, 0x00, 0x14, 0x08, 0x00, 0x08, 0x00, 0x08, 0x04, 0x01, 0x11, 0x00, 0x02, 0x11,
        0x00, 0x03, 0x11, 0x00, 0x04, 0x11, 0x00,
    ]);
    v.extend(minimal_dht(0x00));
    v.extend(minimal_dht(0x10));
    // SOS: four components, all on DC/AC table 0.
    v.extend_from_slice(&[
        0xff, 0xda, 0x00, 0x0e, 0x04, 0x01, 0x00, 0x02, 0x00, 0x03, 0x00, 0x04, 0x00, 0x00, 0x3f,
        0x00,
    ]);
    // Entropy data: per component a zero DC difference and an end-of-block,
    // eight zero bits in all.
    v.push(0x00);
    v.extend_from_slice(&[0xff, 0xd9]);
    v
}

/// A 1x1 lossless JPEG with three components at 16-bit precision: the
/// decoder still reports the RGB pixel model for it, but returns two bytes
/// per sample.
fn lossless_rgb16_jpeg() -> Vec<u8> {
    let mut v = vec![0xff, 0xd8];
    // SOF3 (lossless): precision 16, height 1, width 1, three components,
    // all 1x1 sampling.
    v.extend_from_slice(&[
        0xff, 0xc3, 0x00, 0x11, 0x10, 0x00, 0x01, 0x00, 0x01, 0x03, 0x01, 0x11, 0x00, 0x02, 0x11,
        0x00, 0x03, 0x11, 0x00,
    ]);
    v.extend(minimal_dht(0x00));
    // SOS: three components on DC table 0; predictor 1, no point transform.
    v.extend_from_slice(&[
        0xff, 0xda, 0x00, 0x0c, 0x03, 0x01, 0x00, 0x02, 0x00, 0x03, 0x00, 0x01, 0x00, 0x00,
    ]);
    // Entropy data: per component a zero difference, padded with 1 bits.
    v.push(0x1f);
    v.extend_from_slice(&[0xff, 0xd9]);
    v
}

/// A 10x10 opaque red PNG.
fn red_png() -> Vec<u8> {
    let pixels = vec![rgb::RGBA::new(255u8, 0, 0, 255); 100];
    lodepng::encode32(&pixels, 10, 10).expect("encoding the fixture PNG")
}

#[test]
fn png_decode_reports_header_dimensions() {
    let buffer = decode(&red_png()).expect("a well-formed PNG decodes");
    assert_eq!(buffer.width, 10);
    assert_eq!(buffer.height, 10);
    assert_eq!(buffer.pixels.len(), 100);
    for p in &buffer.pixels {
        assert_eq!(*p, Pixel { r: 255, g: 0, b: 0, a: 255 });
    }
}

#[test]
fn greyscale_jpeg_expands_to_opaque_grey() {
    let buffer = decode(&grey_jpeg()).expect("a well-formed greyscale JPEG decodes");
    assert_eq!(buffer.width, 8);
    assert_eq!(buffer.height, 8);
    assert_eq!(buffer.pixels.len(), 64);
    for p in &buffer.pixels {
        assert_eq!(*p, Pixel { r: 128, g: 128, b: 128, a: 255 });
    }
}

#[test]
fn cmyk_jpeg_is_rejected_by_name() {
    match decode(&cmyk_jpeg()) {
        Err(DecodeError::UnsupportedPixelModel(name)) => assert_eq!(name, "CMYK"),
        other => panic!("expected the CMYK rejection, got {:?}", other),
    }
}

#[test]
fn deep_sample_rgb_jpeg_is_rejected_by_name() {
    match decode(&lossless_rgb16_jpeg()) {
        Err(DecodeError::UnsupportedPixelModel(name)) => assert_eq!(name, "RGB48"),
        other => panic!("expected the deep-sample rejection, got {:?}", other),
    }
}

#[test]
fn garbage_is_malformed() {
    assert_eq!(decode(&[0x12]), Err(DecodeError::MalformedImage));
    assert_eq!(decode(&[]), Err(DecodeError::MalformedImage));
    let mut truncated = red_png();
    truncated.truncate(12);
    assert_eq!(decode(&truncated), Err(DecodeError::MalformedImage));
}

#[test]
fn transcode_red_png_produces_avif() {
    let out = transcode(&red_png(), 80).expect("a well-formed PNG transcodes");
    assert!(!out.bytes.is_empty());
    assert!(out.color_bytes + out.alpha_bytes <= out.bytes.len());
}

#[test]
fn transcode_premultiplied() {
    let pixels = vec![rgb::RGBA::new(200u8, 100, 50, 128); 16];
    let png = lodepng::encode32(&pixels, 4, 4).expect("encoding the fixture PNG");
    let out = transcode_with(&png, 80, true).expect("a premultiplied transcode succeeds");
    assert!(!out.bytes.is_empty());
    assert!(out.color_bytes + out.alpha_bytes <= out.bytes.len());
}

#[test]
fn transcode_garbage_is_a_decode_error() {
    assert_eq!(
        transcode(&[0x12], 80).unwrap_err(),
        PipelineError::Decode(DecodeError::MalformedImage)
    );
}

#[test]
fn transcode_cmyk_is_a_decode_error() {
    match transcode(&cmyk_jpeg(), 80) {
        Err(PipelineError::Decode(DecodeError::UnsupportedPixelModel(name))) => {
            assert_eq!(name, "CMYK")
        }
        other => panic!("expected the CMYK rejection, got {:?}", other),
    }
}

#[test]
fn out_of_range_quality_is_an_encode_error() {
    match transcode(&red_png(), 0) {
        Err(PipelineError::Encode(EncodeError::EncodingFailed(_))) => {}
        other => panic!("expected an encode error, got {:?}", other),
    }
}

#[test]
fn encode_rejects_out_of_range_config() {
    let buffer = PixelBuffer {
        width: 1,
        height: 1,
        pixels: vec![Pixel { r: 1, g: 2, b: 3, a: 255 }],
    };
    let config = EncodeConfig {
        quality: 101,
        alpha_quality: 90,
        speed: 4,
        color_space: ColorSpace::Rgb,
        thread_budget: 0,
        premultiplied_alpha: false,
    };
    assert!(encode(&buffer, &config).is_err());
    let config = build_config(80, false);
    assert!(encode(&buffer, &config).is_ok());
}
