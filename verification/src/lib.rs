//! Core of a single-shot image transcoding pipeline: detect the format of an
//! uploaded PNG or JPEG, decode it to a normalized RGBA pixel buffer,
//! optionally convert to premultiplied alpha, and re-encode the buffer as an
//! AVIF file under a tunable quality configuration.

pub mod config;
pub mod decode;
pub mod encode;
pub mod format;
pub mod pipeline;
pub mod pixel;
