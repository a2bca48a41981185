//! The immutable parameter set an encode call runs under, derived from a base
//! quality value by a fixed formula.

use vstd::prelude::*;

verus! {

/// How the encoder stores color internally: device RGB (no transform) or a
/// luma/chroma transform.
#[derive(Clone, Copy, PartialEq, Eq, Structural, Debug)]
pub enum ColorSpace {
    Rgb,
    YCbCr,
}

/// Encoder parameters, on a 0-100 quality scale. Immutable once constructed;
/// one instance per encode call.
#[derive(Clone, Copy, PartialEq, Eq, Structural, Debug)]
pub struct EncodeConfig {
    /// Color-plane quality, 0-100. Out-of-range values are passed through by
    /// [`build_config`]; the encoder rejects them.
    pub quality: u8,
    /// Alpha-plane quality, derived from `quality` by [`spec_alpha_quality`].
    pub alpha_quality: u8,
    /// Effort/speed trade-off; smaller is slower but smaller output.
    pub speed: u8,
    /// Internal color layout of the encoded file.
    pub color_space: ColorSpace,
    /// Worker threads for the encoder; 0 lets the encoder choose.
    pub thread_budget: usize,
    /// Whether the buffer handed to the encoder was premultiplied.
    pub premultiplied_alpha: bool,
}

/// The alpha-plane quality derived from the color quality:
/// `min((q + 100) / 2, q + q / 4 + 2)`, with truncating division. This biases
/// alpha quality upward at low `q` while capping the boost at high `q`.
pub open spec fn spec_alpha_quality(q: int) -> int {
    if (q + 100) / 2 <= q + q / 4 + 2 {
        (q + 100) / 2
    } else {
        q + q / 4 + 2
    }
}

/// Builds the configuration for one encode call from the caller's base
/// quality. Pure, with no failure mode: the base quality is passed through
/// unvalidated, the alpha quality follows the fixed formula, and the other
/// fields take the pipeline's deliberate defaults (effort level 4, device
/// RGB, encoder-chosen thread count).
pub fn build_config(base_quality: u8, premultiplied_alpha: bool) -> (c: EncodeConfig)
    ensures
        c.quality == base_quality,
        c.alpha_quality as int == spec_alpha_quality(base_quality as int),
        c.speed == 4,
        c.color_space == ColorSpace::Rgb,
        c.thread_budget == 0,
        c.premultiplied_alpha == premultiplied_alpha,
{
    let q = base_quality as u16;
    let half_boost = (q + 100) / 2;
    let quarter_boost = q + q / 4 + 2;
    let alpha_quality = if half_boost <= quarter_boost {
        half_boost
    } else {
        quarter_boost
    };
    EncodeConfig {
        quality: base_quality,
        alpha_quality: alpha_quality as u8,
        speed: 4,
        color_space: ColorSpace::Rgb,
        thread_budget: 0,
        premultiplied_alpha,
    }
}

} // verus!
