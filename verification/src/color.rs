//! RGBA colours and source-over compositing.

use vstd::prelude::*;

verus! {

/// One pixel: red, green, blue and alpha, eight bits each.
#[derive(Clone, Copy, Debug, PartialEq, Eq, Structural)]
pub struct Rgba {
    pub r: u8,
    pub g: u8,
    pub b: u8,
    pub a: u8,
}

/// What `image`'s `Pixel::blend` leaves in an `Rgba<u8>` pixel `dst` after
/// `src` was blended onto it. The crate computes it in single-precision
/// floating point from the eight channel values and nothing else.
pub uninterp spec fn image_blend(dst: Rgba, src: Rgba) -> Rgba;

/// Calls `image::Pixel::blend` on `Rgba<u8>` pixels built from `dst` and
/// `src`. Nothing is claimed of the result but that it is the crate's blend
/// of these two pixels: the crate rounds in floating point, so that even a
/// transparent source may change a channel by one.
#[verifier::external_body]
fn blend_with_image(dst: Rgba, src: Rgba) -> (out: Rgba)
    ensures
        out == image_blend(dst, src),
{
    let mut px = image::Rgba([dst.r, dst.g, dst.b, dst.a]);
    image::Pixel::blend(&mut px, &image::Rgba([src.r, src.g, src.b, src.a]));
    Rgba { r: px.0[0], g: px.0[1], b: px.0[2], a: px.0[3] }
}

impl Rgba {
    /// Fully opaque white, the colour of a fresh canvas.
    pub open spec fn spec_white() -> Rgba {
        Rgba { r: 255, g: 255, b: 255, a: 255 }
    }

    /// Black at the given opacity, the colour of the brush.
    pub open spec fn spec_black(opacity: u8) -> Rgba {
        Rgba { r: 0, g: 0, b: 0, a: opacity }
    }

    /// `src` composited over `self`: a transparent source changes nothing,
    /// an opaque source replaces the pixel, and anything between is blended
    /// by `image`.
    pub open spec fn under(self, src: Rgba) -> Rgba {
        if src.a == 0 {
            self
        } else if src.a == 255 {
            src
        } else {
            image_blend(self, src)
        }
    }

    #[verifier::when_used_as_spec(spec_white)]
    pub fn white() -> (c: Rgba)
        ensures
            c == Rgba::spec_white(),
    {
        Rgba { r: 255, g: 255, b: 255, a: 255 }
    }

    #[verifier::when_used_as_spec(spec_black)]
    pub fn black(opacity: u8) -> (c: Rgba)
        ensures
            c == Rgba::spec_black(opacity),
    {
        Rgba { r: 0, g: 0, b: 0, a: opacity }
    }

    /// Source-over compositing of `src` onto `self`.
    pub fn blend(self, src: Rgba) -> (out: Rgba)
        ensures
            out == self.under(src),
            src.a == 0 ==> out == self,
            src.a == 255 ==> out == src,
    {
        if src.a == 0 {
            self
        } else if src.a == 255 {
            src
        } else {
            blend_with_image(self, src)
        }
    }
}

} // verus!
