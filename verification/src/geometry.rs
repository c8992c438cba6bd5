//! Screen space in fixed point, the canvas rectangle, and the mapping
//! between screen and bitmap coordinates.
//!
//! Lengths on screen, the scale factor and sub-pixel bitmap positions are
//! integers that count parts of `UNIT`: the value `UNIT` stands for one.

use vstd::prelude::*;
use crate::canvas::clamp;
use crate::line::{BitmapPoint, LINE_LIMIT};

verus! {

/// The number of parts that make one whole in fixed point.
pub const UNIT: i64 = 256;

/// Screen coordinates lie within this distance of zero.
pub const PLANE_LIMIT: i64 = 0x100_0000_0000;

/// The smallest scale factor, one.
pub const MIN_SCALE: i64 = 256;

/// The largest scale factor, one hundred.
pub const MAX_SCALE: i64 = 25600;

/// A position on screen, in fixed point.
#[derive(Clone, Copy, Debug, PartialEq, Eq, Structural)]
pub struct ScreenPoint {
    pub x: i64,
    pub y: i64,
}

impl ScreenPoint {
    /// Whether both coordinates lie within the plane.
    pub open spec fn in_plane(self) -> bool {
        -PLANE_LIMIT <= self.x <= PLANE_LIMIT && -PLANE_LIMIT <= self.y <= PLANE_LIMIT
    }

    /// Whether both coordinates lie within the plane.
    pub fn is_in_plane(&self) -> (b: bool)
        ensures
            b == self.in_plane(),
    {
        -PLANE_LIMIT <= self.x && self.x <= PLANE_LIMIT && -PLANE_LIMIT <= self.y && self.y
            <= PLANE_LIMIT
    }
}

/// Where the canvas is shown on screen: the position of its centre and its
/// size, in fixed point.
#[derive(Clone, Copy, Debug, PartialEq, Eq, Structural)]
pub struct CanvasRect {
    pub centre: ScreenPoint,
    pub width: i64,
    pub height: i64,
}

impl CanvasRect {
    /// Whether `p` lies in the rectangle, its edges included.
    pub open spec fn contains(self, p: ScreenPoint) -> bool {
        &&& -self.width <= 2 * (p.x - self.centre.x) <= self.width
        &&& -self.height <= 2 * (p.y - self.centre.y) <= self.height
    }

    /// The rectangle that a bitmap of `width` by `height` pixels covers at
    /// the given scale, centred on `centre`.
    pub open spec fn spec_placed(
        centre: ScreenPoint,
        width: u32,
        height: u32,
        scale: i64,
    ) -> CanvasRect {
        CanvasRect { centre, width: (width * scale) as i64, height: (height * scale) as i64 }
    }

    /// The rectangle that a bitmap of `width` by `height` pixels covers at
    /// the given scale, centred on `centre`.
    #[verifier::when_used_as_spec(spec_placed)]
    pub fn placed(centre: ScreenPoint, width: u32, height: u32, scale: i64) -> (r: CanvasRect)
        requires
            0 < scale <= MAX_SCALE,
        ensures
            r == CanvasRect::spec_placed(centre, width, height, scale),
            r.centre == centre,
            r.width == width * scale,
            r.height == height * scale,
    {
        assert(0 <= width * scale <= 0xffff_ffff * 25600) by (nonlinear_arith)
            requires
                0 <= width <= 0xffff_ffff,
                0 < scale <= 25600,
        ;
        assert(0 <= height * scale <= 0xffff_ffff * 25600) by (nonlinear_arith)
            requires
                0 <= height <= 0xffff_ffff,
                0 < scale <= 25600,
        ;
        CanvasRect { centre, width: width as i64 * scale, height: height as i64 * scale }
    }

    /// Whether `p` lies in the rectangle, its edges included.
    pub fn contains_point(&self, p: ScreenPoint) -> (b: bool)
        requires
            p.in_plane(),
            self.centre.in_plane(),
        ensures
            b == self.contains(p),
    {
        let dx: i64 = 2 * (p.x - self.centre.x);
        let dy: i64 = 2 * (p.y - self.centre.y);
        if self.width < 0 || self.height < 0 {
            false
        } else {
            dx <= self.width && dx >= -self.width && dy <= self.height && dy >= -self.height
        }
    }
}

/// The pointer's position relative to the centre of the rectangle.
pub open spec fn spec_translate_mouse_center(
    mouse: ScreenPoint,
    rect: CanvasRect,
) -> ScreenPoint {
    ScreenPoint { x: (mouse.x - rect.centre.x) as i64, y: (mouse.y - rect.centre.y) as i64 }
}

/// The pointer's position relative to the centre of the rectangle.
#[verifier::when_used_as_spec(spec_translate_mouse_center)]
pub fn translate_mouse_center(mouse: ScreenPoint, rect: CanvasRect) -> (v: ScreenPoint)
    requires
        mouse.in_plane(),
        rect.centre.in_plane(),
    ensures
        v == spec_translate_mouse_center(mouse, rect),
        v.x == mouse.x - rect.centre.x,
        v.y == mouse.y - rect.centre.y,
{
    ScreenPoint { x: mouse.x - rect.centre.x, y: mouse.y - rect.centre.y }
}

/// One pointer position in bitmap space: its exact place in fixed point,
/// and the pixel it falls on.
#[derive(Clone, Copy, Debug, PartialEq, Eq, Structural)]
pub struct Sample {
    pub exact_x: i64,
    pub exact_y: i64,
    pub cell: BitmapPoint,
}

/// The whole number nearest to the fixed-point value `e`, halves upward.
pub open spec fn round_unit(e: int) -> int {
    (e + UNIT / 2) / (UNIT as int)
}

/// The fixed-point bitmap column under the screen abscissa `x`: the
/// distance from the centre of the rectangle, divided by the scale, counted
/// from the left edge of the bitmap.
pub open spec fn exact_column(x: int, centre_x: int, scale: int, width: int) -> int {
    ((x - centre_x) * UNIT) / scale + width * (UNIT / 2)
}

/// The fixed-point bitmap row under the screen ordinate `y`. Rows are
/// counted from the top, against the direction of the screen's axis.
pub open spec fn exact_row(y: int, centre_y: int, scale: int, height: int) -> int {
    height * UNIT - (((y - centre_y) * UNIT) / scale + height * (UNIT / 2))
}

/// The sample that a screen point gives for a bitmap of `width` by `height`
/// pixels shown in `rect` at `scale`.
pub open spec fn spec_screen_to_bitmap(
    p: ScreenPoint,
    rect: CanvasRect,
    scale: i64,
    width: u32,
    height: u32,
) -> Sample {
    let ex = exact_column(p.x as int, rect.centre.x as int, scale as int, width as int);
    let ey = exact_row(p.y as int, rect.centre.y as int, scale as int, height as int);
    Sample {
        exact_x: ex as i64,
        exact_y: ey as i64,
        cell: BitmapPoint {
            x: clamp(round_unit(ex), width as int) as i32,
            y: clamp(round_unit(ey), height as int) as i32,
        },
    }
}

/// The screen point at which the pixel `cell` is shown.
pub open spec fn spec_bitmap_to_screen(
    cell: BitmapPoint,
    rect: CanvasRect,
    scale: i64,
    width: u32,
    height: u32,
) -> ScreenPoint {
    ScreenPoint {
        x: (rect.centre.x + ((2 * cell.x - width) * scale) / 2) as i64,
        y: (rect.centre.y + ((height - 2 * cell.y) * scale) / 2) as i64,
    }
}

/// The quotient `n / d` rounded toward minus infinity.
pub fn floor_div(n: i64, d: i64) -> (q: i64)
    requires
        d > 0,
    ensures
        q == n / d,
{
    if n >= 0 {
        n / d
    } else {
        let m: i64 = -(n + 1);
        let k: i64 = m / d;
        proof {
            vstd::arithmetic::div_mod::lemma_fundamental_div_mod(m as int, d as int);
            vstd::arithmetic::div_mod::lemma_mod_bound(m as int, d as int);
            let r = (m as int) % (d as int);
            assert(n as int == (d as int) * (-(k as int) - 1) + (d - 1 - r)) by (nonlinear_arith)
                requires
                    m as int == (d as int) * (k as int) + r,
                    m == -n - 1,
            ;
            vstd::arithmetic::div_mod::lemma_fundamental_div_mod_converse(
                n as int,
                d as int,
                -(k as int) - 1,
                d - 1 - r,
            );
            vstd::arithmetic::div_mod::lemma_div_pos_is_pos(m as int, d as int);
            vstd::arithmetic::div_mod::lemma_div_is_ordered_by_denominator(m as int, 1, d as int);
            vstd::arithmetic::div_mod::lemma_div_basics(m as int);
        }
        -k - 1
    }
}

/// Bounds on the quotient of a bounded value by a positive divisor.
pub proof fn lemma_quotient_bounds(n: int, d: int, bound: int)
    requires
        d > 0,
        bound >= 0,
        -bound <= n <= bound,
    ensures
        -bound <= n / d <= bound,
{
    vstd::arithmetic::div_mod::lemma_fundamental_div_mod(n, d);
    vstd::arithmetic::div_mod::lemma_mod_bound(n, d);
    let q = n / d;
    let r = n % d;
    assert(-bound <= q <= bound) by (nonlinear_arith)
        requires
            n == d * q + r,
            0 <= r < d,
            -bound <= n <= bound,
            bound >= 0,
            d > 0,
    ;
}

/// Along the horizontal axis, a distance `t` from the centre that lies on
/// the canvas comes back from the bitmap within one pixel.
proof fn lemma_column_round_trip(t: int, s: int, w: int)
    requires
        MIN_SCALE <= s,
        w >= 1,
        -(w * s) <= 2 * t <= w * s,
    ensures
        ({
            let b = clamp(round_unit(exact_column(t, 0, s, w)), w);
            let r = ((2 * b - w) * s) / 2;
            -s <= r - t <= s
        }),
{
    let a = (t * UNIT) / s;
    let ex = exact_column(t, 0, s, w);
    let big = round_unit(ex);
    let b = clamp(big, w);
    let m = (2 * b - w) * s;
    let r = m / 2;
    vstd::arithmetic::div_mod::lemma_fundamental_div_mod(t * UNIT, s);
    vstd::arithmetic::div_mod::lemma_mod_bound(t * UNIT, s);
    vstd::arithmetic::div_mod::lemma_fundamental_div_mod(ex + UNIT / 2, UNIT as int);
    vstd::arithmetic::div_mod::lemma_mod_bound(ex + UNIT / 2, UNIT as int);
    vstd::arithmetic::div_mod::lemma_fundamental_div_mod(m, 2);
    vstd::arithmetic::div_mod::lemma_mod_bound(m, 2);
    let m1 = (t * UNIT) % s;
    let m2 = (ex + UNIT / 2) % (UNIT as int);
    assert(a == 256 * big - 128 * w - 128 + m2);
    assert(m == 2 * (b * s) - w * s) by (nonlinear_arith)
        requires
            m == (2 * b - w) * s,
    ;
    if big < 0 {
        assert(s * a + 128 * (w * s) + 129 * s <= 0) by (nonlinear_arith)
            requires
                a + 128 * w + 129 <= 0,
                s > 0,
        ;
        assert(false);
    } else if big >= w {
        assert(s * a >= 128 * (w * s) - 128 * s) by (nonlinear_arith)
            requires
                a >= 128 * w - 128,
                s > 0,
        ;
        assert(b * s == w * s - s) by (nonlinear_arith)
            requires
                b == w - 1,
        ;
    } else {
        assert(s * a == 256 * (b * s) - 128 * (w * s) - 128 * s + m2 * s) by (nonlinear_arith)
            requires
                a == 256 * b - 128 * w - 128 + m2,
        ;
        assert(0 <= m2 * s <= 255 * s) by (nonlinear_arith)
            requires
                0 <= m2 <= 255,
                s > 0,
        ;
    }
}

/// Along the vertical axis, a distance `u` from the centre that lies on
/// the canvas comes back from the bitmap within one pixel.
proof fn lemma_row_round_trip(u: int, s: int, h: int)
    requires
        MIN_SCALE <= s,
        h >= 1,
        -(h * s) <= 2 * u <= h * s,
    ensures
        ({
            let b = clamp(round_unit(exact_row(u, 0, s, h)), h);
            let r = ((h - 2 * b) * s) / 2;
            -s <= r - u <= s
        }),
{
    let a = (u * UNIT) / s;
    let ey = exact_row(u, 0, s, h);
    let big = round_unit(ey);
    let b = clamp(big, h);
    let m = (h - 2 * b) * s;
    let r = m / 2;
    vstd::arithmetic::div_mod::lemma_fundamental_div_mod(u * UNIT, s);
    vstd::arithmetic::div_mod::lemma_mod_bound(u * UNIT, s);
    vstd::arithmetic::div_mod::lemma_fundamental_div_mod(ey + UNIT / 2, UNIT as int);
    vstd::arithmetic::div_mod::lemma_mod_bound(ey + UNIT / 2, UNIT as int);
    vstd::arithmetic::div_mod::lemma_fundamental_div_mod(m, 2);
    vstd::arithmetic::div_mod::lemma_mod_bound(m, 2);
    let m2 = (ey + UNIT / 2) % (UNIT as int);
    assert(a == 128 * h + 128 - 256 * big - m2);
    assert(m == h * s - 2 * (b * s)) by (nonlinear_arith)
        requires
            m == (h - 2 * b) * s,
    ;
    if big < 0 {
        assert(s * a >= 128 * (h * s) + 129 * s) by (nonlinear_arith)
            requires
                a >= 128 * h + 129,
                s > 0,
        ;
        assert(false);
    } else if big >= h {
        assert(s * a <= 128 * s - 128 * (h * s)) by (nonlinear_arith)
            requires
                a <= 128 - 128 * h,
                s > 0,
        ;
        assert(b * s == h * s - s) by (nonlinear_arith)
            requires
                b == h - 1,
        ;
    } else {
        assert(s * a == 128 * (h * s) + 128 * s - 256 * (b * s) - m2 * s) by (nonlinear_arith)
            requires
                a == 128 * h + 128 - 256 * b - m2,
        ;
        assert(0 <= m2 * s <= 255 * s) by (nonlinear_arith)
            requires
                0 <= m2 <= 255,
                s > 0,
        ;
    }
}

/// A point on the canvas, taken to bitmap space and back, returns to
/// within one bitmap pixel of itself: at most `scale` apart along each
/// axis, for every scale from one to one hundred.
pub proof fn lemma_round_trip(
    p: ScreenPoint,
    rect: CanvasRect,
    scale: i64,
    width: u32,
    height: u32,
)
    requires
        p.in_plane(),
        rect.centre.in_plane(),
        MIN_SCALE <= scale <= MAX_SCALE,
        1 <= width <= LINE_LIMIT,
        1 <= height <= LINE_LIMIT,
        rect.width == width * scale,
        rect.height == height * scale,
        rect.contains(p),
    ensures
        ({
            let cell = spec_screen_to_bitmap(p, rect, scale, width, height).cell;
            let q = spec_bitmap_to_screen(cell, rect, scale, width, height);
            &&& -scale <= q.x - p.x <= scale
            &&& -scale <= q.y - p.y <= scale
        }),
{
    let t = p.x - rect.centre.x;
    let u = p.y - rect.centre.y;
    lemma_column_round_trip(t, scale as int, width as int);
    lemma_row_round_trip(u, scale as int, height as int);
    assert(exact_column(p.x as int, rect.centre.x as int, scale as int, width as int)
        == exact_column(t, 0, scale as int, width as int));
    assert(exact_row(p.y as int, rect.centre.y as int, scale as int, height as int) == exact_row(
        u,
        0,
        scale as int,
        height as int,
    ));
}

/// Maps a screen point to bitmap space: the exact sub-pixel position, and
/// the pixel nearest to it within the bitmap.
pub fn screen_to_bitmap(
    p: ScreenPoint,
    rect: &CanvasRect,
    scale: i64,
    width: u32,
    height: u32,
) -> (s: Sample)
    requires
        p.in_plane(),
        rect.centre.in_plane(),
        0 < scale <= MAX_SCALE,
        1 <= width <= LINE_LIMIT,
        1 <= height <= LINE_LIMIT,
    ensures
        s == spec_screen_to_bitmap(p, *rect, scale, width, height),
        0 <= s.cell.x < width,
        0 <= s.cell.y < height,
        s.exact_x == exact_column(p.x as int, rect.centre.x as int, scale as int, width as int),
        s.exact_y == exact_row(p.y as int, rect.centre.y as int, scale as int, height as int),
{
    let tx: i64 = (p.x - rect.centre.x) * UNIT;
    let ty: i64 = (p.y - rect.centre.y) * UNIT;
    proof {
        lemma_quotient_bounds(tx as int, scale as int, 2 * PLANE_LIMIT * UNIT);
        lemma_quotient_bounds(ty as int, scale as int, 2 * PLANE_LIMIT * UNIT);
    }
    let ex: i64 = floor_div(tx, scale) + width as i64 * (UNIT / 2);
    let ey: i64 = height as i64 * UNIT - (floor_div(ty, scale) + height as i64 * (UNIT / 2));
    let rx: i64 = floor_div(ex + UNIT / 2, UNIT);
    let ry: i64 = floor_div(ey + UNIT / 2, UNIT);
    let cx: i32 = if rx < 0 {
        0
    } else if rx >= width as i64 {
        (width - 1) as i32
    } else {
        rx as i32
    };
    let cy: i32 = if ry < 0 {
        0
    } else if ry >= height as i64 {
        (height - 1) as i32
    } else {
        ry as i32
    };
    Sample { exact_x: ex, exact_y: ey, cell: BitmapPoint { x: cx, y: cy } }
}

/// Maps a pixel back to the screen point at which it is shown.
pub fn bitmap_to_screen(
    cell: BitmapPoint,
    rect: &CanvasRect,
    scale: i64,
    width: u32,
    height: u32,
) -> (p: ScreenPoint)
    requires
        rect.centre.in_plane(),
        0 < scale <= MAX_SCALE,
        1 <= width <= LINE_LIMIT,
        1 <= height <= LINE_LIMIT,
        -LINE_LIMIT <= cell.x <= LINE_LIMIT,
        -LINE_LIMIT <= cell.y <= LINE_LIMIT,
    ensures
        p == spec_bitmap_to_screen(cell, *rect, scale, width, height),
        p.x == rect.centre.x + ((2 * cell.x - width) * scale) / 2,
        p.y == rect.centre.y + ((height - 2 * cell.y) * scale) / 2,
{
    let ax: i64 = 2 * cell.x as i64 - width as i64;
    let ay: i64 = height as i64 - 2 * cell.y as i64;
    assert(-0x6000_0000 * 25600 <= ax * scale <= 0x6000_0000 * 25600) by (nonlinear_arith)
        requires
            -0x6000_0000 <= ax <= 0x6000_0000,
            0 < scale <= 25600,
    ;
    assert(-0x6000_0000 * 25600 <= ay * scale <= 0x6000_0000 * 25600) by (nonlinear_arith)
        requires
            -0x6000_0000 <= ay <= 0x6000_0000,
            0 < scale <= 25600,
    ;
    proof {
        lemma_quotient_bounds((ax * scale) as int, 2, 0x6000_0000int * 25600);
        lemma_quotient_bounds((ay * scale) as int, 2, 0x6000_0000int * 25600);
    }
    ScreenPoint {
        x: rect.centre.x + floor_div(ax * scale, 2),
        y: rect.centre.y + floor_div(ay * scale, 2),
    }
}

} // verus!
