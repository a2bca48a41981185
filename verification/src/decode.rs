//! Decoding of classified bytes into a normalized [`PixelBuffer`]: PNG
//! directly to RGBA, JPEG via per-pixel-model expansion (greyscale and RGB
//! to RGBA), with CMYK and deep-sample layouts deliberately rejected.

use vstd::prelude::*;
use vstd::string::StringExecFns;

use crate::format::{detect, spec_detect, Format};
use crate::pixel::{Pixel, PixelBuffer};

verus! {

/// The pixel layouts the JPEG decoder can report.
#[derive(Clone, Copy, PartialEq, Eq, Structural, Debug)]
pub enum PixelModel {
    /// Greyscale, 8 bits per pixel.
    L8,
    /// Greyscale, 16 bits per pixel.
    L16,
    /// RGB, 8 bits per channel.
    Rgb24,
    /// CMYK, 8 bits per channel.
    Cmyk32,
}

/// Why a decode failed.
#[derive(Clone, PartialEq, Eq, Debug)]
pub enum DecodeError {
    /// The bitstream is corrupt or its header information is unreadable.
    MalformedImage,
    /// The pixel layout was recognized but is deliberately unsupported; the
    /// payload names it. CMYK-to-RGB conversion is ambiguous without a color
    /// profile, so the pipeline refuses rather than guesses.
    UnsupportedPixelModel(String),
}

/// What the PNG decoder yields for a byte stream: `None` if the stream is not
/// a well-formed PNG, otherwise the header width and height and the row-major
/// RGBA pixels. PNG decoding is exactly determined by the format, so this is
/// a function of the bytes alone.
pub uninterp spec fn png_decoded(bytes: Seq<u8>) -> Option<(usize, usize, Seq<Pixel>)>;

/// What the JPEG decoder reports for a byte stream: `None` if the stream is
/// not a well-formed JPEG, otherwise the frame width and height, the pixel
/// model, and the count of returned sample bytes. Only this metadata is
/// named: it is fixed by the parsed frame structure and so is a function of
/// the bytes. The sample values are not, since the decoder picks its
/// inverse-DCT implementation by runtime CPU detection and the rounding may
/// differ slightly between machines; contracts speak of the samples a call
/// actually returned.
pub uninterp spec fn jpeg_meta(bytes: Seq<u8>) -> Option<(u16, u16, PixelModel, usize)>;

/// Relies on lodepng::decode32: it converts any well-formed PNG to a 32-bit
/// RGBA bitmap whose width and height come from the image header, rejects
/// zero-sized images, and fills exactly one pixel per position.
#[verifier::external_body]
fn decode_png(bytes: &[u8]) -> (r: Option<(usize, usize, Vec<Pixel>)>)
    ensures
        r is Some <==> png_decoded(bytes@) is Some,
        r matches Some(t) ==> {
            &&& png_decoded(bytes@) == Some((t.0, t.1, t.2@))
            &&& t.0 > 0
            &&& t.1 > 0
            &&& t.2@.len() == (t.0 as int) * (t.1 as int)
        },
{
    match lodepng::decode32(bytes) {
        Ok(img) => {
            let pixels = img.buffer.into_iter().map(
                |p| Pixel { r: p.r, g: p.g, b: p.b, a: p.a },
            ).collect();
            Some((img.width, img.height, pixels))
        },
        Err(_) => None,
    }
}

/// Relies on jpeg_decoder's Decoder (new, decode, info): it rejects streams
/// with zero width or height and reports the frame's pixel format, chosen by
/// component count alone, so the count of returned sample bytes is not tied
/// to the model here; the caller checks it. The sample values themselves may
/// vary slightly between machines (the decoder selects an inverse DCT by CPU
/// detection), so nothing ties them to the bytes.
#[verifier::external_body]
fn decode_jpeg(bytes: &[u8]) -> (r: Option<(u16, u16, PixelModel, Vec<u8>)>)
    ensures
        r is Some <==> jpeg_meta(bytes@) is Some,
        r matches Some(t) ==> {
            &&& jpeg_meta(bytes@) == Some((t.0, t.1, t.2, t.3@.len() as usize))
            &&& t.0 > 0
            &&& t.1 > 0
        },
{
    let mut decoder = jpeg_decoder::Decoder::new(bytes);
    let samples = match decoder.decode() {
        Ok(s) => s,
        Err(_) => return None,
    };
    let info = decoder.info()?;
    let model = match info.pixel_format {
        jpeg_decoder::PixelFormat::L8 => PixelModel::L8,
        jpeg_decoder::PixelFormat::L16 => PixelModel::L16,
        jpeg_decoder::PixelFormat::RGB24 => PixelModel::Rgb24,
        jpeg_decoder::PixelFormat::CMYK32 => PixelModel::Cmyk32,
    };
    Some((info.width, info.height, model, samples))
}

/// Greyscale samples expanded to RGBA: the grey value replicated into the
/// three color channels, alpha fully opaque.
pub open spec fn grey_to_rgba(samples: Seq<u8>) -> Seq<Pixel> {
    Seq::new(
        samples.len(),
        |i: int| Pixel { r: samples[i], g: samples[i], b: samples[i], a: 255 },
    )
}

/// RGB sample triples expanded to RGBA: the channels copied, alpha fully
/// opaque.
pub open spec fn rgb_to_rgba(samples: Seq<u8>) -> Seq<Pixel> {
    Seq::new(
        samples.len() / 3,
        |i: int| Pixel { r: samples[3 * i], g: samples[3 * i + 1], b: samples[3 * i + 2], a: 255 },
    )
}

/// The outcome class a byte stream decodes to: an image with its dimensions,
/// a malformed stream, or a recognized but deliberately unsupported pixel
/// model, named.
pub enum Decoded {
    Image(usize, usize),
    Malformed,
    Unsupported(Seq<char>),
}

/// The decode outcome as a function of the input bytes: classify by magic
/// prefix, consult the matching decoder, and accept exactly the 8-bit
/// greyscale and RGB layouts, recognized by their sample counts (one byte
/// per pixel, three bytes per pixel). CMYK, 16-bit greyscale, and RGB whose
/// samples are two bytes wide (a lossless deep-sample frame, also reported
/// as the RGB model) are rejected by name; any other count is treated as
/// malformed. Anything without the PNG signature is provisionally handed to
/// the JPEG decoder.
pub open spec fn decode_spec(bytes: Seq<u8>) -> Decoded {
    match spec_detect(bytes) {
        Format::Png => match png_decoded(bytes) {
            Some(t) => Decoded::Image(t.0, t.1),
            None => Decoded::Malformed,
        },
        _ => match jpeg_meta(bytes) {
            Some(m) => match m.2 {
                PixelModel::L8 => if m.3 == (m.0 as int) * (m.1 as int) {
                    Decoded::Image(m.0 as usize, m.1 as usize)
                } else {
                    Decoded::Malformed
                },
                PixelModel::Rgb24 => if m.3 == 3 * (m.0 as int) * (m.1 as int) {
                    Decoded::Image(m.0 as usize, m.1 as usize)
                } else if m.3 == 6 * (m.0 as int) * (m.1 as int) {
                    Decoded::Unsupported("RGB48"@)
                } else {
                    Decoded::Malformed
                },
                PixelModel::Cmyk32 => Decoded::Unsupported("CMYK"@),
                PixelModel::L16 => Decoded::Unsupported("L16"@),
            },
            None => Decoded::Malformed,
        },
    }
}

/// What a finished decode promises, relating the result to the input bytes:
/// a PNG yields exactly the pixels the PNG decoder reports; a greyscale or
/// RGB JPEG with the 8-bit sample count yields the expansion of the samples
/// the JPEG decoder returned, with the reported dimensions; a CMYK,
/// 16-bit-greyscale or deep-sample RGB JPEG yields the error naming that
/// model; anything else yields the malformed-image error.
pub open spec fn decode_post(bytes: Seq<u8>, r: Result<PixelBuffer, DecodeError>) -> bool {
    match spec_detect(bytes) {
        Format::Png => match png_decoded(bytes) {
            Some(t) => r matches Ok(b) && b.width == t.0 && b.height == t.1 && b.pixels@ == t.2
                && b.wf(),
            None => r matches Err(e) && e == DecodeError::MalformedImage,
        },
        _ => match jpeg_meta(bytes) {
            Some(m) => match m.2 {
                PixelModel::L8 => if m.3 == (m.0 as int) * (m.1 as int) {
                    r matches Ok(b) && b.width == m.0 as usize && b.height == m.1 as usize
                        && b.wf() && (exists|s: Seq<u8>|
                        s.len() == m.3 && b.pixels@ == grey_to_rgba(s))
                } else {
                    r matches Err(e) && e == DecodeError::MalformedImage
                },
                PixelModel::Rgb24 => if m.3 == 3 * (m.0 as int) * (m.1 as int) {
                    r matches Ok(b) && b.width == m.0 as usize && b.height == m.1 as usize
                        && b.wf() && (exists|s: Seq<u8>|
                        s.len() == m.3 && b.pixels@ == rgb_to_rgba(s))
                } else if m.3 == 6 * (m.0 as int) * (m.1 as int) {
                    r matches Err(e) && (e matches DecodeError::UnsupportedPixelModel(s) && s@
                        == "RGB48"@)
                } else {
                    r matches Err(e) && e == DecodeError::MalformedImage
                },
                PixelModel::Cmyk32 => r matches Err(e) && (e
                    matches DecodeError::UnsupportedPixelModel(s) && s@ == "CMYK"@),
                PixelModel::L16 => r matches Err(e) && (e
                    matches DecodeError::UnsupportedPixelModel(s) && s@ == "L16"@),
            },
            None => r matches Err(e) && e == DecodeError::MalformedImage,
        },
    }
}

/// Expands greyscale samples to RGBA pixels.
fn expand_grey(samples: &Vec<u8>) -> (out: Vec<Pixel>)
    ensures
        out@ == grey_to_rgba(samples@),
{
    let mut out: Vec<Pixel> = Vec::new();
    let mut i: usize = 0;
    while i < samples.len()
        invariant
            i <= samples@.len(),
            out@.len() == i,
            forall|j: int| 0 <= j < i ==> out@[j] == grey_to_rgba(samples@)[j],
        decreases samples@.len() - i,
    {
        let v = samples[i];
        out.push(Pixel { r: v, g: v, b: v, a: 255 });
        i += 1;
    }
    proof {
        assert(out@ =~= grey_to_rgba(samples@));
    }
    out
}

/// Expands RGB sample triples to RGBA pixels.
fn expand_rgb(samples: &Vec<u8>) -> (out: Vec<Pixel>)
    ensures
        out@ == rgb_to_rgba(samples@),
{
    let len = samples.len();
    let n = len / 3;
    let mut out: Vec<Pixel> = Vec::new();
    let mut i: usize = 0;
    while i < n
        invariant
            len == samples@.len(),
            n == samples@.len() / 3,
            i <= n,
            out@.len() == i,
            forall|j: int| 0 <= j < i ==> out@[j] == rgb_to_rgba(samples@)[j],
        decreases n - i,
    {
        proof {
            vstd::arithmetic::div_mod::lemma_fundamental_div_mod(samples@.len() as int, 3);
            vstd::arithmetic::div_mod::lemma_mod_bound(samples@.len() as int, 3);
            assert(samples@.len() >= 3 * (n as int));
            assert(3 * (i as int) + 2 < samples@.len());
        }
        let p = Pixel {
            r: samples[3 * i],
            g: samples[3 * i + 1],
            b: samples[3 * i + 2],
            a: 255,
        };
        out.push(p);
        i += 1;
    }
    proof {
        assert(out@ =~= rgb_to_rgba(samples@));
    }
    out
}

/// Decodes a byte stream to a normalized pixel buffer.
///
/// The result follows [`decode_post`] exactly: a well-formed PNG or 8-bit
/// greyscale or RGB JPEG yields a buffer with the header's width and height
/// and one RGBA pixel per position; a corrupt stream, or one whose sample
/// count fits no layout, yields [`DecodeError::MalformedImage`]; a JPEG
/// whose pixel layout is recognized but unsupported (CMYK, 16-bit greyscale,
/// deep-sample RGB) yields [`DecodeError::UnsupportedPixelModel`] naming the
/// layout.
pub fn decode(bytes: &[u8]) -> (r: Result<PixelBuffer, DecodeError>)
    ensures
        decode_post(bytes@, r),
{
    match detect(bytes) {
        Format::Png => match decode_png(bytes) {
            Some((width, height, pixels)) => Ok(PixelBuffer { width, height, pixels }),
            None => Err(DecodeError::MalformedImage),
        },
        _ => match decode_jpeg(bytes) {
            Some((w, h, model, samples)) => {
                let width = w as usize;
                let height = h as usize;
                proof {
                    lemma_dimension_product_bound(w, h);
                    assert(3 * ((w as int) * (h as int)) == 3 * (w as int) * (h as int))
                        by (nonlinear_arith);
                    assert(6 * ((w as int) * (h as int)) == 6 * (w as int) * (h as int))
                        by (nonlinear_arith);
                }
                let base: u64 = (w as u64) * (h as u64);
                match model {
                    PixelModel::L8 => {
                        if samples.len() as u64 == base {
                            Ok(PixelBuffer { width, height, pixels: expand_grey(&samples) })
                        } else {
                            Err(DecodeError::MalformedImage)
                        }
                    },
                    PixelModel::Rgb24 => {
                        if samples.len() as u64 == 3 * base {
                            let pixels = expand_rgb(&samples);
                            proof {
                                lemma_triple_length(
                                    width as int,
                                    height as int,
                                    samples@.len() as int,
                                );
                            }
                            Ok(PixelBuffer { width, height, pixels })
                        } else if samples.len() as u64 == 6 * base {
                            Err(DecodeError::UnsupportedPixelModel(String::from_str("RGB48")))
                        } else {
                            Err(DecodeError::MalformedImage)
                        }
                    },
                    PixelModel::Cmyk32 => Err(
                        DecodeError::UnsupportedPixelModel(String::from_str("CMYK")),
                    ),
                    PixelModel::L16 => Err(
                        DecodeError::UnsupportedPixelModel(String::from_str("L16")),
                    ),
                }
            },
            None => Err(DecodeError::MalformedImage),
        },
    }
}

/// The product of two 16-bit dimensions stays well below 64 bits.
proof fn lemma_dimension_product_bound(w: u16, h: u16)
    ensures
        0 <= (w as int) * (h as int) <= 0xfffe0001,
{
    assert((w as int) * (h as int) <= 0xfffe0001) by (nonlinear_arith)
        requires
            w <= 0xffff,
            h <= 0xffff,
    ;
    assert((w as int) * (h as int) >= 0) by (nonlinear_arith)
        requires
            w >= 0,
            h >= 0,
    ;
}

/// Three samples per pixel divide back into the pixel count.
proof fn lemma_triple_length(w: int, h: int, len: int)
    requires
        len == 3 * w * h,
    ensures
        len / 3 == w * h,
{
    assert((3 * (w * h)) / 3 == w * h) by (nonlinear_arith);
    assert(3 * w * h == 3 * (w * h)) by (nonlinear_arith);
}

/// A byte stream carrying the PNG signature that the PNG decoder accepts
/// decodes to exactly the image the decoder reports: header width, header
/// height, and those pixels.
pub proof fn lemma_png_decode(
    bytes: Seq<u8>,
    w: usize,
    h: usize,
    pixels: Seq<Pixel>,
    r: Result<PixelBuffer, DecodeError>,
)
    requires
        spec_detect(bytes) == Format::Png,
        png_decoded(bytes) == Some((w, h, pixels)),
        decode_post(bytes, r),
    ensures
        r matches Ok(b) && b.width == w && b.height == h && b.pixels@ == pixels && b.wf(),
{
}

/// Each position of a greyscale expansion replicates that grey sample into
/// the color channels, fully opaque.
pub proof fn lemma_grey_expansion(samples: Seq<u8>, i: int)
    requires
        0 <= i < samples.len(),
    ensures
        grey_to_rgba(samples).len() == samples.len(),
        grey_to_rgba(samples)[i] == (Pixel {
            r: samples[i],
            g: samples[i],
            b: samples[i],
            a: 255,
        }),
{
}

/// A greyscale JPEG with one sample per pixel decodes to a buffer of the
/// reported dimensions in which every pixel replicates one returned grey
/// sample into the color channels and is fully opaque.
pub proof fn lemma_greyscale_decode(
    bytes: Seq<u8>,
    w: u16,
    h: u16,
    count: usize,
    r: Result<PixelBuffer, DecodeError>,
)
    requires
        spec_detect(bytes) != Format::Png,
        jpeg_meta(bytes) == Some((w, h, PixelModel::L8, count)),
        count == (w as int) * (h as int),
        decode_post(bytes, r),
    ensures
        r matches Ok(b) && b.width == w as usize && b.height == h as usize && b.wf(),
        forall|i: int|
            0 <= i < r->Ok_0.pixels@.len() ==> {
                let p = #[trigger] r->Ok_0.pixels@[i];
                p.a == 255 && p.r == p.g && p.g == p.b
            },
{
    let b = r->Ok_0;
    let s = choose|s: Seq<u8>| s.len() == count && b.pixels@ == grey_to_rgba(s);
    assert forall|i: int| 0 <= i < b.pixels@.len() implies {
        let p = #[trigger] b.pixels@[i];
        p.a == 255 && p.r == p.g && p.g == p.b
    } by {
        assert(b.pixels@[i] == grey_to_rgba(s)[i]);
    }
}

/// A CMYK JPEG is always rejected with the name "CMYK", never decoded to a
/// silently wrong RGB interpretation.
pub proof fn lemma_cmyk_rejected(
    bytes: Seq<u8>,
    w: u16,
    h: u16,
    count: usize,
    r: Result<PixelBuffer, DecodeError>,
)
    requires
        spec_detect(bytes) != Format::Png,
        jpeg_meta(bytes) == Some((w, h, PixelModel::Cmyk32, count)),
        decode_post(bytes, r),
    ensures
        r matches Err(e) && (e matches DecodeError::UnsupportedPixelModel(s) && s@ == "CMYK"@),
{
}

} // verus!
