//! The normalized pixel representation that every decoder produces and the
//! encoder consumes, together with the in-place alpha premultiplication
//! transform.

use vstd::prelude::*;

verus! {

/// One pixel: red, green, blue and alpha, 8 bits per channel.
#[derive(Clone, Copy, PartialEq, Eq, Structural, Debug)]
pub struct Pixel {
    pub r: u8,
    pub g: u8,
    pub b: u8,
    pub a: u8,
}

/// A color channel scaled by the pixel's alpha: `c * a / 255` with truncating
/// integer division.
pub open spec fn premultiplied_channel(c: u8, a: u8) -> u8 {
    (((c as int) * (a as int)) / 255) as u8
}

/// The premultiplied form of a pixel: each color channel scaled by the alpha
/// value, the alpha value itself unchanged.
pub open spec fn premultiplied_pixel(p: Pixel) -> Pixel {
    Pixel {
        r: premultiplied_channel(p.r, p.a),
        g: premultiplied_channel(p.g, p.a),
        b: premultiplied_channel(p.b, p.a),
        a: p.a,
    }
}

/// A decoded image: a row-major sequence of RGBA pixels with its dimensions.
///
/// A buffer produced by a successful decode is well formed (`wf`): both
/// dimensions are positive and there is exactly one pixel per position.
#[derive(Clone, PartialEq, Eq, Debug)]
pub struct PixelBuffer {
    pub width: usize,
    pub height: usize,
    pub pixels: Vec<Pixel>,
}

impl PixelBuffer {
    /// Both dimensions are positive and the pixel count matches them.
    pub open spec fn wf(self) -> bool {
        &&& self.width > 0
        &&& self.height > 0
        &&& self.pixels@.len() == self.width * self.height
    }

    /// Converts the buffer, in place, from straight alpha to premultiplied
    /// alpha: every color channel becomes `c * a / 255` (truncating), alpha
    /// stays. This is a physical scaling, not a projection: applying it twice
    /// scales twice, so a pipeline must call it at most once per buffer.
    pub fn premultiply(&mut self)
        ensures
            final(self).width == old(self).width,
            final(self).height == old(self).height,
            final(self).pixels@.len() == old(self).pixels@.len(),
            forall|j: int|
                0 <= j < old(self).pixels@.len() ==> final(self).pixels@[j]
                    == premultiplied_pixel(old(self).pixels@[j]),
            old(self).wf() ==> final(self).wf(),
    {
        let ghost orig = *self;
        let n = self.pixels.len();
        let mut i: usize = 0;
        while i < n
            invariant
                n == orig.pixels@.len(),
                i <= n,
                self.width == orig.width,
                self.height == orig.height,
                self.pixels@.len() == n,
                forall|j: int| 0 <= j < i ==> self.pixels@[j] == premultiplied_pixel(orig.pixels@[j]),
                forall|j: int| i <= j < n ==> self.pixels@[j] == orig.pixels@[j],
            decreases n - i,
        {
            let p = self.pixels[i];
            proof {
                lemma_channel_product_bounds(p.r, p.a);
                lemma_channel_product_bounds(p.g, p.a);
                lemma_channel_product_bounds(p.b, p.a);
            }
            let q = Pixel {
                r: ((p.r as u16) * (p.a as u16) / 255) as u8,
                g: ((p.g as u16) * (p.a as u16) / 255) as u8,
                b: ((p.b as u16) * (p.a as u16) / 255) as u8,
                a: p.a,
            };
            self.pixels.set(i, q);
            i += 1;
        }
    }
}

/// The product of two channel values fits in 16 bits and its quotient by 255
/// fits back into a channel.
proof fn lemma_channel_product_bounds(c: u8, a: u8)
    ensures
        (c as int) * (a as int) <= 65025,
        0 <= ((c as int) * (a as int)) / 255 <= 255,
{
    assert((c as int) * (a as int) <= 65025) by (nonlinear_arith)
        requires
            c <= 255,
            a <= 255,
    ;
}

/// Premultiplying a fully opaque pixel leaves it unchanged.
pub proof fn lemma_premultiply_opaque(p: Pixel)
    requires
        p.a == 255,
    ensures
        premultiplied_pixel(p) == p,
{
    assert(((p.r as int) * 255) / 255 == p.r as int) by (nonlinear_arith);
    assert(((p.g as int) * 255) / 255 == p.g as int) by (nonlinear_arith);
    assert(((p.b as int) * 255) / 255 == p.b as int) by (nonlinear_arith);
}

/// Premultiplying a fully transparent pixel zeroes its color channels.
pub proof fn lemma_premultiply_transparent(p: Pixel)
    requires
        p.a == 0,
    ensures
        premultiplied_pixel(p) == (Pixel { r: 0, g: 0, b: 0, a: 0 }),
{
}

} // verus!
