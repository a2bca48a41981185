//! The orchestrator: detect the format, decode, optionally premultiply,
//! build the encode configuration, encode. Each stage's failure is wrapped in
//! a typed error and short-circuits the sequence; no partial output is ever
//! returned.

use vstd::prelude::*;

use crate::config::build_config;
use crate::decode::{decode, decode_spec, DecodeError, Decoded};
use crate::encode::{encode, EncodeError, EncodedOutput};

verus! {

/// A stage failure, tagged with the stage it came from.
#[derive(Clone, PartialEq, Eq, Debug)]
pub enum PipelineError {
    Decode(DecodeError),
    Encode(EncodeError),
}

/// What a finished transcode call promises, relating the result to the
/// decode model of the input bytes:
/// - a malformed input yields exactly the wrapped malformed-image error;
/// - an input with a recognized but unsupported pixel model yields exactly
///   the wrapped error naming that model;
/// - an input that decodes yields either a well-formed, non-empty output or a
///   wrapped encode error, and an out-of-range base quality always the
///   latter;
/// - errors never cross stages, in both directions: an encode error implies
///   the input decoded, and a decode error implies it did not.
pub open spec fn transcode_post(
    bytes: Seq<u8>,
    base_quality: u8,
    r: Result<EncodedOutput, PipelineError>,
) -> bool {
    &&& decode_spec(bytes) is Malformed ==> r is Err && r->Err_0 == PipelineError::Decode(
        DecodeError::MalformedImage,
    )
    &&& decode_spec(bytes) is Unsupported ==> r is Err && r->Err_0 is Decode
        && r->Err_0->Decode_0 is UnsupportedPixelModel
        && r->Err_0->Decode_0->UnsupportedPixelModel_0@ == decode_spec(bytes)->Unsupported_0
    &&& decode_spec(bytes) is Image && !(1 <= base_quality <= 100) ==> r is Err
        && r->Err_0 is Encode
    &&& r is Ok ==> decode_spec(bytes) is Image && r->Ok_0.wf() && r->Ok_0.bytes@.len() > 0
    &&& r is Err && r->Err_0 is Encode ==> decode_spec(bytes) is Image
    &&& r is Err && r->Err_0 is Decode ==> !(decode_spec(bytes) is Image)
}

/// Transcodes raw PNG or JPEG bytes into an AVIF file, converting the
/// decoded buffer to premultiplied alpha first when requested. The
/// premultiply transform is applied at most once, here.
pub fn transcode_with(raw_bytes: &[u8], base_quality: u8, premultiplied_alpha: bool) -> (r: Result<
    EncodedOutput,
    PipelineError,
>)
    ensures
        transcode_post(raw_bytes@, base_quality, r),
{
    let mut buffer = match decode(raw_bytes) {
        Ok(b) => b,
        Err(e) => return Err(PipelineError::Decode(e)),
    };
    if premultiplied_alpha {
        buffer.premultiply();
    }
    let config = build_config(base_quality, premultiplied_alpha);
    match encode(&buffer, &config) {
        Ok(out) => Ok(out),
        Err(e) => Err(PipelineError::Encode(e)),
    }
}

/// Transcodes raw PNG or JPEG bytes into an AVIF file with straight alpha,
/// the pipeline's default.
pub fn transcode(raw_bytes: &[u8], base_quality: u8) -> (r: Result<EncodedOutput, PipelineError>)
    ensures
        transcode_post(raw_bytes@, base_quality, r),
{
    transcode_with(raw_bytes, base_quality, false)
}

} // verus!
