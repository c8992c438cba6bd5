//! The raster canvas: a fixed-size grid of RGBA pixels.

use vstd::prelude::*;
use crate::color::Rgba;

verus! {

/// A fixed-size grid of RGBA pixels, kept in an `image::RgbaImage`, that
/// is an `image::ImageBuffer` of `Rgba<u8>` pixels over a `Vec<u8>`.
///
/// The buffer is hidden from the verifier. All that is known of it is what
/// the four functions below that call it state, over `canvas_dims` and
/// `canvas_pixels`.
#[verifier::external_body]
pub struct RasterCanvas {
    image: image::RgbaImage,
}

/// Width and height of the image buffer, as `ImageBuffer::dimensions`
/// gives them.
pub uninterp spec fn canvas_dims(c: RasterCanvas) -> (u32, u32);

/// The pixels the image buffer holds, by column and row, each as
/// `ImageBuffer::get_pixel` gives it.
pub uninterp spec fn canvas_pixels(c: RasterCanvas) -> Map<(int, int), Rgba>;

/// The mathematical value of a canvas.
pub struct CanvasView {
    pub width: nat,
    pub height: nat,
    pub pixels: Map<(int, int), Rgba>,
}

impl CanvasView {
    /// Whether `(x, y)` names a pixel of the canvas.
    pub open spec fn contains(self, x: int, y: int) -> bool {
        0 <= x < self.width && 0 <= y < self.height
    }

    /// The grid is not empty and holds exactly the pixels within its bounds.
    pub open spec fn wf(self) -> bool {
        &&& self.width >= 1
        &&& self.height >= 1
        &&& forall|x: int, y: int|
            self.contains(x, y) <==> #[trigger] self.pixels.dom().contains((x, y))
    }

    /// The pixel at `(x, y)`.
    pub open spec fn pixel(self, x: int, y: int) -> Rgba {
        self.pixels[(x, y)]
    }

    /// The pixel at `(x, y)`, each coordinate first moved to the nearest one
    /// within the bounds.
    pub open spec fn clamped(self, x: int, y: int) -> Rgba {
        self.pixels[(clamp(x, self.width as int), clamp(y, self.height as int))]
    }

    /// The pixels row after row from the top, each row from the left.
    pub open spec fn row_major(self) -> Seq<Rgba> {
        Seq::new(
            self.width * self.height,
            |i: int| self.pixels[(i % (self.width as int), i / (self.width as int))],
        )
    }

    /// The canvas with the pixel at `(x, y)` replaced by `p`; unchanged when
    /// `(x, y)` is outside the bounds.
    pub open spec fn put(self, x: int, y: int, p: Rgba) -> CanvasView {
        if self.contains(x, y) {
            CanvasView { pixels: self.pixels.insert((x, y), p), ..self }
        } else {
            self
        }
    }

    /// The canvas with `src` composited over the pixel at `(x, y)`;
    /// unchanged when `(x, y)` is outside the bounds.
    pub open spec fn blend(self, x: int, y: int, src: Rgba) -> CanvasView {
        if self.contains(x, y) {
            self.put(x, y, self.pixels[(x, y)].under(src))
        } else {
            self
        }
    }
}

/// The coordinate nearest to `v` among `0, .., size - 1`.
pub open spec fn clamp(v: int, size: int) -> int {
    if v < 0 {
        0
    } else if v >= size {
        size - 1
    } else {
        v
    }
}

impl View for RasterCanvas {
    type V = CanvasView;

    open spec fn view(&self) -> CanvasView {
        CanvasView {
            width: canvas_dims(*self).0 as nat,
            height: canvas_dims(*self).1 as nat,
            pixels: canvas_pixels(*self),
        }
    }
}

/// Calls `ImageBuffer::from_pixel`, which makes a buffer of the given
/// width and height and copies `fill` into every pixel of it. The crate
/// panics when the length in bytes overflows `usize`, and the vector it
/// allocates when that length is above `isize::MAX`.
#[verifier::external_body]
fn image_filled(width: u32, height: u32, fill: Rgba) -> (c: RasterCanvas)
    requires
        4 * width * height <= isize::MAX,
    ensures
        canvas_dims(c) == (width, height),
        forall|x: int, y: int|
            (0 <= x < width && 0 <= y < height) <==> #[trigger] canvas_pixels(c).dom().contains(
                (x, y),
            ),
        forall|x: int, y: int|
            0 <= x < width && 0 <= y < height ==> #[trigger] canvas_pixels(c)[(x, y)] == fill,
{
    let px = image::Rgba([fill.r, fill.g, fill.b, fill.a]);
    RasterCanvas { image: image::RgbaImage::from_pixel(width, height, px) }
}

/// Calls `ImageBuffer::dimensions`, which returns the width and the
/// height the buffer was made with.
#[verifier::external_body]
fn image_dimensions(c: &RasterCanvas) -> (d: (u32, u32))
    ensures
        d == canvas_dims(*c),
{
    c.image.dimensions()
}

/// Calls `ImageBuffer::get_pixel`, which returns the pixel at column `x`
/// and row `y`, and panics when either is outside the bounds.
#[verifier::external_body]
fn image_get(c: &RasterCanvas, x: u32, y: u32) -> (p: Rgba)
    requires
        x < canvas_dims(*c).0,
        y < canvas_dims(*c).1,
    ensures
        p == canvas_pixels(*c)[(x as int, y as int)],
{
    let px = c.image.get_pixel(x, y);
    Rgba { r: px.0[0], g: px.0[1], b: px.0[2], a: px.0[3] }
}

/// Calls `ImageBuffer::put_pixel`, which overwrites the pixel at column
/// `x` and row `y` and nothing else, and panics when either is outside the
/// bounds.
#[verifier::external_body]
fn image_put(c: &mut RasterCanvas, x: u32, y: u32, p: Rgba)
    requires
        x < canvas_dims(*old(c)).0,
        y < canvas_dims(*old(c)).1,
    ensures
        canvas_dims(*final(c)) == canvas_dims(*old(c)),
        canvas_pixels(*final(c)) == canvas_pixels(*old(c)).insert((x as int, y as int), p),
{
    c.image.put_pixel(x, y, image::Rgba([p.r, p.g, p.b, p.a]));
}

impl RasterCanvas {
    /// Whether the canvas is not empty and holds exactly the pixels
    /// within its bounds, as every canvas made by `new` does.
    pub open spec fn wf(&self) -> bool {
        self@.wf()
    }

    /// A canvas of the given size, every pixel opaque white.
    pub fn new(width: u32, height: u32) -> (c: RasterCanvas)
        requires
            width >= 1,
            height >= 1,
            4 * width * height <= isize::MAX,
        ensures
            c.wf(),
            c@.width == width,
            c@.height == height,
            forall|x: int, y: int|
                c@.contains(x, y) ==> #[trigger] c@.pixels[(x, y)] == Rgba::white(),
    {
        image_filled(width, height, Rgba::white())
    }

    /// The number of columns.
    pub fn width(&self) -> (w: u32)
        ensures
            w == self@.width,
    {
        image_dimensions(self).0
    }

    /// The number of rows.
    pub fn height(&self) -> (h: u32)
        ensures
            h == self@.height,
    {
        image_dimensions(self).1
    }

    /// Whether `(x, y)` names a pixel of the canvas.
    pub fn in_bounds(&self, x: i64, y: i64) -> (b: bool)
        ensures
            b == self@.contains(x as int, y as int),
    {
        let (w, h) = image_dimensions(self);
        0 <= x && x < w as i64 && 0 <= y && y < h as i64
    }

    /// Reads the pixel at `(x, y)`. A coordinate outside the bounds is
    /// moved to the nearest one inside.
    pub fn get_pixel(&self, x: i64, y: i64) -> (p: Rgba)
        requires
            self.wf(),
        ensures
            p == self@.clamped(x as int, y as int),
            self@.contains(x as int, y as int) ==> p == self@.pixels[(x as int, y as int)],
    {
        let (w, h) = image_dimensions(self);
        let cx: u32 = if x < 0 {
            0
        } else if x >= w as i64 {
            w - 1
        } else {
            x as u32
        };
        let cy: u32 = if y < 0 {
            0
        } else if y >= h as i64 {
            h - 1
        } else {
            y as u32
        };
        image_get(self, cx, cy)
    }

    /// Copies the pixels out, row after row from the top, each row from
    /// the left.
    pub fn to_vec(&self) -> (out: Vec<Rgba>)
        requires
            self.wf(),
        ensures
            out@ == self@.row_major(),
    {
        let (w, h) = image_dimensions(self);
        let mut out: Vec<Rgba> = Vec::new();
        let mut y: u32 = 0;
        while y < h
            invariant
                0 <= y <= h,
                (w, h) == canvas_dims(*self),
                w >= 1,
                out@.len() == y * w,
                forall|i: int|
                    0 <= i < out@.len() ==> #[trigger] out@[i] == self@.pixels[(
                        i % (w as int),
                        i / (w as int),
                    )],
            decreases h - y,
        {
            let mut x: u32 = 0;
            while x < w
                invariant
                    0 <= x <= w,
                    0 <= y < h,
                    (w, h) == canvas_dims(*self),
                    w >= 1,
                    out@.len() == y * w + x,
                    forall|i: int|
                        0 <= i < out@.len() ==> #[trigger] out@[i] == self@.pixels[(
                            i % (w as int),
                            i / (w as int),
                        )],
                decreases w - x,
            {
                proof {
                    vstd::arithmetic::div_mod::lemma_fundamental_div_mod_converse(
                        y * w + x,
                        w as int,
                        y as int,
                        x as int,
                    );
                    assert(y * w == w * y) by (nonlinear_arith);
                }
                out.push(image_get(self, x, y));
                x += 1;
            }
            assert((y + 1) * w == y * w + w) by (nonlinear_arith);
            y += 1;
        }
        proof {
            assert(y * w == self@.width * self@.height) by (nonlinear_arith)
                requires
                    y == self@.height,
                    w == self@.width,
            ;
            assert(out@ =~= self@.row_major());
        }
        out
    }

    /// Writes the pixel at `(x, y)`; does nothing outside the bounds.
    pub fn set_pixel(&mut self, x: i64, y: i64, p: Rgba)
        requires
            old(self).wf(),
        ensures
            final(self).wf(),
            final(self)@ == old(self)@.put(x as int, y as int, p),
    {
        if self.in_bounds(x, y) {
            image_put(self, x as u32, y as u32, p);
            proof {
                assert(final(self)@.pixels.dom() =~= old(self)@.pixels.dom());
            }
        }
    }

    /// Composites `src` over the pixel at `(x, y)`; does nothing outside
    /// the bounds. A fully transparent source leaves the canvas as it was,
    /// and a fully opaque one puts `src` in place of the pixel.
    pub fn blend_pixel(&mut self, x: i64, y: i64, src: Rgba)
        requires
            old(self).wf(),
        ensures
            final(self).wf(),
            final(self)@ == old(self)@.blend(x as int, y as int, src),
            src.a == 0 ==> final(self)@ == old(self)@,
            src.a == 255 ==> final(self)@ == old(self)@.put(x as int, y as int, src),
    {
        if self.in_bounds(x, y) {
            let dst = image_get(self, x as u32, y as u32);
            let out = dst.blend(src);
            image_put(self, x as u32, y as u32, out);
            proof {
                assert(final(self)@.pixels.dom() =~= old(self)@.pixels.dom());
                if src.a == 0 {
                    assert(final(self)@.pixels =~= old(self)@.pixels);
                }
            }
        }
    }
}

} // verus!
