//! Compression of a normalized pixel buffer into an AVIF file, with a
//! breakdown of the bytes spent on the color and alpha planes.

use imgref::Img;
use ravif::{AlphaColorMode, ColorModel, Encoder};
use vstd::prelude::*;
use vstd::string::StringExecFns;

use crate::config::{ColorSpace, EncodeConfig};
use crate::pixel::PixelBuffer;

verus! {

/// Why an encode failed: the compression stage could not produce output, for
/// the stated reason.
#[derive(Clone, PartialEq, Eq, Debug)]
pub enum EncodeError {
    EncodingFailed(String),
}

/// A compressed image: the encoded file plus the bytes attributable to the
/// color and alpha planes. The total may exceed their sum by the container
/// overhead, never the other way around.
#[derive(Clone, Debug)]
pub struct EncodedOutput {
    pub bytes: Vec<u8>,
    pub color_bytes: usize,
    pub alpha_bytes: usize,
}

impl EncodedOutput {
    /// The plane sizes never exceed the total output size.
    pub open spec fn wf(self) -> bool {
        self.color_bytes + self.alpha_bytes <= self.bytes@.len()
    }
}

/// The rgb crate's four-channel pixel struct, the encoder's input form.
#[verifier::external_type_specification]
#[verifier::external_body]
#[verifier::reject_recursive_types(T)]
#[verifier::reject_recursive_types(A)]
pub struct ExRgba<T, A>(rgb::Rgba<T, A>);

/// Relies on the rgb crate's pixel struct: the conversion moves the four
/// channels of each pixel, one for one.
#[verifier::external_body]
fn to_encoder_pixels(buffer: &PixelBuffer) -> (r: Vec<rgb::Rgba<u8, u8>>)
    ensures
        r@.len() == buffer.pixels@.len(),
{
    buffer.pixels.iter().map(|p| rgb::Rgba { r: p.r, g: p.g, b: p.b, a: p.a }).collect()
}

/// Relies on ravif's Encoder (new, the with_* builders, encode_rgba): the
/// returned AVIF file embeds the color and alpha AV1 payloads whole beside
/// the container boxes, so their sizes sum to less than the file size. The
/// builders panic outside quality 1-100, speed 1-10, or on zero threads, and
/// the image constructor panics on a pixel count that does not match the
/// dimensions or on a dimension above `u32::MAX`; the preconditions keep
/// those inputs out. Output bytes are not promised to be reproducible across
/// machines or thread counts, so nothing more is stated of them.
#[verifier::external_body]
fn encode_avif(
    px: Vec<rgb::Rgba<u8, u8>>,
    width: usize,
    height: usize,
    config: &EncodeConfig,
    threads: Option<usize>,
) -> (r: Result<(Vec<u8>, usize, usize), String>)
    requires
        px@.len() == width * height,
        width > 0,
        height > 0,
        width as int <= u32::MAX as int,
        height as int <= u32::MAX as int,
        1 <= config.quality <= 100,
        1 <= config.alpha_quality <= 100,
        1 <= config.speed <= 10,
        threads matches Some(n) ==> n > 0,
    ensures
        r matches Ok(t) ==> t.1 + t.2 < t.0@.len(),
{
    let model = match config.color_space {
        ColorSpace::Rgb => ColorModel::RGB,
        ColorSpace::YCbCr => ColorModel::YCbCr,
    };
    let alpha = if config.premultiplied_alpha { AlphaColorMode::Premultiplied } else { AlphaColorMode::UnassociatedClean };
    let enc = Encoder::new().with_quality(config.quality.into()).with_alpha_quality(config.alpha_quality.into()).with_speed(config.speed).with_internal_color_model(model).with_alpha_color_mode(alpha).with_num_threads(threads);
    match enc.encode_rgba(Img::new(px, width, height).as_ref()) {
        Ok(o) => Ok((o.avif_file, o.color_byte_size, o.alpha_byte_size)),
        Err(e) => Err(format!("{}", e)),
    }
}

/// Compresses the buffer under the given configuration.
///
/// The encoder only accepts quality and alpha quality between 1 and 100,
/// speed between 1 and 10, and dimensions up to `u32::MAX`; a configuration
/// or buffer outside those ranges is rejected here with
/// [`EncodeError::EncodingFailed`] rather than handed on. On success the
/// output is non-empty and its color and alpha plane sizes sum to at most
/// the total size. The encoder itself may still fail for internal reasons;
/// that failure is likewise reported as `EncodingFailed`.
pub fn encode(buffer: &PixelBuffer, config: &EncodeConfig) -> (r: Result<
    EncodedOutput,
    EncodeError,
>)
    requires
        buffer.wf(),
    ensures
        r matches Ok(o) ==> o.wf() && o.bytes@.len() > 0,
        !(1 <= config.quality <= 100) || !(1 <= config.alpha_quality <= 100) || !(1 <= config.speed
            <= 10) ==> r is Err,
        buffer.width as int > u32::MAX as int || buffer.height as int > u32::MAX as int ==> r
            is Err,
        r matches Err(e) ==> e matches EncodeError::EncodingFailed(_),
{
    if config.quality < 1 || config.quality > 100 || config.alpha_quality < 1
        || config.alpha_quality > 100 || config.speed < 1 || config.speed > 10 {
        return Err(
            EncodeError::EncodingFailed(String::from_str("encoder configuration out of range")),
        );
    }
    if buffer.width > u32::MAX as usize || buffer.height > u32::MAX as usize {
        return Err(
            EncodeError::EncodingFailed(
                String::from_str("image dimensions exceed the encoder's limit"),
            ),
        );
    }
    let threads: Option<usize> = if config.thread_budget == 0 {
        None
    } else {
        Some(config.thread_budget)
    };
    let px = to_encoder_pixels(buffer);
    match encode_avif(px, buffer.width, buffer.height, config, threads) {
        Ok((bytes, color_bytes, alpha_bytes)) => Ok(
            EncodedOutput { bytes, color_bytes, alpha_bytes },
        ),
        Err(reason) => Err(EncodeError::EncodingFailed(reason)),
    }
}

} // verus!
