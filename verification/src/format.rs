//! Classification of an input byte stream by its magic prefix.

use vstd::prelude::*;

verus! {

/// The source encodings the pipeline can be handed.
///
/// Classification is provisional: only the PNG signature is recognized
/// positively, and everything else is handed to the JPEG decoder, which does
/// its own bitstream validation. `Unknown` is therefore never produced by
/// [`detect`]; the decoder treats it like `Jpeg`.
#[derive(Clone, Copy, PartialEq, Eq, Structural, Debug)]
pub enum Format {
    Png,
    Jpeg,
    Unknown,
}

/// A byte stream is classified as PNG exactly when its first four bytes are
/// the PNG signature `0x89 'P' 'N' 'G'`; anything else is provisionally JPEG.
pub open spec fn spec_detect(bytes: Seq<u8>) -> Format {
    if bytes.len() >= 4 && bytes[0] == 0x89 && bytes[1] == 0x50 && bytes[2] == 0x4e && bytes[3]
        == 0x47 {
        Format::Png
    } else {
        Format::Jpeg
    }
}

/// Classifies a byte stream by its first four bytes. Never fails: bytes that
/// carry no recognized signature are provisionally treated as JPEG, and the
/// JPEG decoder rejects them if they are not a valid JPEG stream.
pub fn detect(bytes: &[u8]) -> (f: Format)
    ensures
        f == spec_detect(bytes@),
{
    if bytes.len() >= 4 && bytes[0] == 0x89 && bytes[1] == 0x50 && bytes[2] == 0x4e && bytes[3]
        == 0x47 {
        Format::Png
    } else {
        Format::Jpeg
    }
}

} // verus!
