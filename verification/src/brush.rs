//! The soft circular brush: its opacity at a distance, and the stamping of
//! a line segment onto the canvas.

use vstd::prelude::*;
use crate::canvas::{CanvasView, RasterCanvas};
use crate::color::Rgba;
use crate::geometry::{Sample, UNIT};
use crate::line::{in_line_range, line_cells, line_walk, BitmapPoint};

verus! {

/// The opacity of a brush of diameter `d` at a point whose squared distance
/// from the centre is `dist_sq`, both in the same unit: 255 at the centre,
/// falling off with the square of the distance to 0 where twice the
/// squared distance reaches the squared diameter, fractions dropped.
pub open spec fn opacity_at(dist_sq: nat, d: nat) -> nat {
    if 2 * dist_sq >= d * d {
        0
    } else {
        ((255 * (d * d - 2 * dist_sq)) / (d * d) as int) as nat
    }
}

/// The radius of a brush of fixed-point diameter `d`, in whole pixels: half
/// the diameter, rounded to the nearest whole, halves upward.
pub open spec fn radius_of(d: u32) -> int {
    (d + UNIT) / (2 * UNIT)
}

/// The squared distance, in fixed point, between the pixel `(px, py)` and
/// the exact position `(ex, ey)`.
pub open spec fn dist_sq(px: int, py: int, ex: int, ey: int) -> nat {
    ((px * UNIT - ex) * (px * UNIT - ex) + (py * UNIT - ey) * (py * UNIT - ey)) as nat
}

/// The opacity is 255 at the centre, 0 from the distance at which twice
/// its square equals the squared diameter, never above 255, and never
/// grows with the distance.
pub proof fn lemma_opacity_falloff(near: nat, far: nat, d: nat)
    requires
        d >= 1,
        near <= far,
    ensures
        opacity_at(0, d) == 255,
        2 * far >= d * d ==> opacity_at(far, d) == 0,
        opacity_at(far, d) <= opacity_at(near, d) <= 255,
{
    let dd = (d * d) as int;
    assert(dd >= 1) by (nonlinear_arith)
        requires
            dd == d * d,
            d >= 1,
    ;
    vstd::arithmetic::div_mod::lemma_div_multiples_vanish(255, dd);
    assert(255 * dd == dd * 255);
    if 2 * near < dd {
        vstd::arithmetic::div_mod::lemma_div_is_ordered(255 * (dd - 2 * near), 255 * dd, dd);
        vstd::arithmetic::div_mod::lemma_div_pos_is_pos(255 * (dd - 2 * near), dd);
        if 2 * far < dd {
            vstd::arithmetic::div_mod::lemma_div_is_ordered(
                255 * (dd - 2 * far),
                255 * (dd - 2 * near),
                dd,
            );
            vstd::arithmetic::div_mod::lemma_div_pos_is_pos(255 * (dd - 2 * far), dd);
        }
    }
}

/// The radius of the brush in whole pixels.
pub fn brush_radius(d: u32) -> (r: i64)
    ensures
        r == radius_of(d),
        0 <= r <= 0x80_0000,
{
    (d as i64 + UNIT) / (2 * UNIT)
}

/// The opacity of a brush of diameter `d` at squared distance `dist_sq`.
pub fn opacity(dist_sq: u128, d: u32) -> (o: u8)
    requires
        d >= 1,
    ensures
        o == opacity_at(dist_sq as nat, d as nat),
        dist_sq == 0 ==> o == 255,
        2 * dist_sq >= d * d ==> o == 0,
{
    proof {
        lemma_opacity_falloff(0, dist_sq as nat, d as nat);
        assert(1 <= d * d <= 0xffff_ffff * 0xffff_ffff) by (nonlinear_arith)
            requires
                1 <= d <= 0xffff_ffff,
        ;
    }
    let dd: u128 = d as u128 * d as u128;
    if dist_sq >= dd {
        0
    } else {
        let twice: u128 = 2 * dist_sq;
        if twice >= dd {
            0
        } else {
            let o: u128 = (255 * (dd - twice)) / dd;
            o as u8
        }
    }
}

/// The opacity that a brush of diameter `d`, centred on the exact position
/// `(ex, ey)`, has at the pixel `(px, py)`.
pub fn opacity_for(px: i64, py: i64, ex: i64, ey: i64, d: u32) -> (o: u8)
    requires
        d >= 1,
    ensures
        o == opacity_at(dist_sq(px as int, py as int, ex as int, ey as int), d as nat),
{
    let unit: i128 = UNIT as i128;
    let dx: i128 = px as i128 * unit - ex as i128;
    let dy: i128 = py as i128 * unit - ey as i128;
    let ax: u128 = if dx < 0 {
        (-dx) as u128
    } else {
        dx as u128
    };
    let ay: u128 = if dy < 0 {
        (-dy) as u128
    } else {
        dy as u128
    };
    proof {
        assert(dx * dx == ax * ax) by (nonlinear_arith)
            requires
                ax == dx || ax == -dx,
        ;
        assert(dy * dy == ay * ay) by (nonlinear_arith)
            requires
                ay == dy || ay == -dy,
        ;
        assert(ax * ax >= 0 && ay * ay >= 0) by (nonlinear_arith);
    }
    if ax >= d as u128 || ay >= d as u128 {
        proof {
            assert(ax * ax + ay * ay >= d * d) by (nonlinear_arith)
                requires
                    ax >= d || ay >= d,
                    ax >= 0,
                    ay >= 0,
                    d >= 0,
            ;
        }
        0
    } else {
        proof {
            assert(ax * ax <= 0xffff_ffff * 0xffff_ffff && ay * ay <= 0xffff_ffff * 0xffff_ffff)
                by (nonlinear_arith)
                requires
                    0 <= ax <= 0xffff_ffff,
                    0 <= ay <= 0xffff_ffff,
            ;
        }
        opacity(ax * ax + ay * ay, d)
    }
}

/// The canvas after one dab of the brush on the pixel `(px, py)`: black is
/// composited over it at the opacity the brush has there.
pub open spec fn dab(v: CanvasView, px: int, py: int, ex: int, ey: int, d: nat) -> CanvasView {
    v.blend(px, py, Rgba::black(opacity_at(dist_sq(px, py, ex, ey), d) as u8))
}

/// The canvas after dabs on the first `n` pixels of column `px`, downward
/// from row `top`.
pub open spec fn dab_column(v: CanvasView, px: int, top: int, n: nat, ex: int, ey: int, d: nat) -> CanvasView
    decreases n,
{
    if n == 0 {
        v
    } else {
        dab(dab_column(v, px, top, (n - 1) as nat, ex, ey, d), px, top + n - 1, ex, ey, d)
    }
}

/// The canvas after dabs on the first `cols` columns of the square of
/// `2 * half` by `2 * half` pixels whose pixel `(half, half)` is `(cx, cy)`,
/// column after column from the left, each from the top.
pub open spec fn dab_square(
    v: CanvasView,
    cx: int,
    cy: int,
    half: int,
    cols: nat,
    ex: int,
    ey: int,
    d: nat,
) -> CanvasView
    decreases cols,
{
    if cols == 0 {
        v
    } else {
        dab_column(
            dab_square(v, cx, cy, half, (cols - 1) as nat, ex, ey, d),
            cx - half + cols - 1,
            cy - half,
            (2 * half) as nat,
            ex,
            ey,
            d,
        )
    }
}

/// The canvas after a full square of dabs around each of the first `k`
/// cells, in their order.
pub open spec fn dab_cells(
    v: CanvasView,
    cells: Seq<BitmapPoint>,
    k: nat,
    half: int,
    ex: int,
    ey: int,
    d: nat,
) -> CanvasView
    decreases k,
{
    if k == 0 {
        v
    } else {
        dab_square(
            dab_cells(v, cells, (k - 1) as nat, half, ex, ey, d),
            cells[k - 1].x as int,
            cells[k - 1].y as int,
            half,
            (2 * half) as nat,
            ex,
            ey,
            d,
        )
    }
}

/// The canvas after the segment from `from` to the sample `to` was painted
/// with a brush of diameter `d`: around every cell of the discrete line
/// between the two pixels, a square of twice the brush's radius to each
/// side receives a dab, its opacity measured from the exact position of
/// the sample.
pub open spec fn stamped(v: CanvasView, from: BitmapPoint, to: Sample, d: u32) -> CanvasView {
    let cells = line_cells(from, to.cell);
    dab_cells(
        v,
        cells,
        cells.len(),
        2 * radius_of(d),
        to.exact_x as int,
        to.exact_y as int,
        d as nat,
    )
}

/// What holds of a canvas and survives every dab holds after the dabs of
/// a column.
proof fn lemma_column_keeps(
    inv: spec_fn(CanvasView) -> bool,
    v: CanvasView,
    px: int,
    top: int,
    n: nat,
    ex: int,
    ey: int,
    d: nat,
)
    requires
        inv(v),
        forall|w: CanvasView, qx: int, qy: int| inv(w) ==> inv(#[trigger] dab(w, qx, qy, ex, ey, d)),
    ensures
        inv(dab_column(v, px, top, n, ex, ey, d)),
    decreases n,
{
    if n > 0 {
        lemma_column_keeps(inv, v, px, top, (n - 1) as nat, ex, ey, d);
    }
}

/// What holds of a canvas and survives every dab holds after the dabs of
/// a square.
proof fn lemma_square_keeps(
    inv: spec_fn(CanvasView) -> bool,
    v: CanvasView,
    cx: int,
    cy: int,
    half: int,
    cols: nat,
    ex: int,
    ey: int,
    d: nat,
)
    requires
        inv(v),
        forall|w: CanvasView, qx: int, qy: int| inv(w) ==> inv(#[trigger] dab(w, qx, qy, ex, ey, d)),
    ensures
        inv(dab_square(v, cx, cy, half, cols, ex, ey, d)),
    decreases cols,
{
    if cols > 0 {
        lemma_square_keeps(inv, v, cx, cy, half, (cols - 1) as nat, ex, ey, d);
        lemma_column_keeps(
            inv,
            dab_square(v, cx, cy, half, (cols - 1) as nat, ex, ey, d),
            cx - half + cols - 1,
            cy - half,
            (2 * half) as nat,
            ex,
            ey,
            d,
        );
    }
}

/// What holds of a canvas and survives every dab holds after the dabs
/// around a run of cells.
proof fn lemma_cells_keep(
    inv: spec_fn(CanvasView) -> bool,
    v: CanvasView,
    cells: Seq<BitmapPoint>,
    k: nat,
    half: int,
    ex: int,
    ey: int,
    d: nat,
)
    requires
        inv(v),
        forall|w: CanvasView, qx: int, qy: int| inv(w) ==> inv(#[trigger] dab(w, qx, qy, ex, ey, d)),
    ensures
        inv(dab_cells(v, cells, k, half, ex, ey, d)),
    decreases k,
{
    if k > 0 {
        lemma_cells_keep(inv, v, cells, (k - 1) as nat, half, ex, ey, d);
        lemma_square_keeps(
            inv,
            dab_cells(v, cells, (k - 1) as nat, half, ex, ey, d),
            cells[k - 1].x as int,
            cells[k - 1].y as int,
            half,
            (2 * half) as nat,
            ex,
            ey,
            d,
        );
    }
}

/// Painting a segment keeps the size of the canvas.
pub proof fn lemma_stamp_keeps_size(v: CanvasView, from: BitmapPoint, to: Sample, d: u32)
    ensures
        stamped(v, from, to, d).width == v.width,
        stamped(v, from, to, d).height == v.height,
{
    let inv = |w: CanvasView| w.width == v.width && w.height == v.height;
    let cells = line_cells(from, to.cell);
    lemma_cells_keep(
        inv,
        v,
        cells,
        cells.len(),
        2 * radius_of(d),
        to.exact_x as int,
        to.exact_y as int,
        d as nat,
    );
}

/// The brush reaches no further than its diameter over the square root of
/// two: a pixel at which twice the squared distance from the sample is at
/// least the squared diameter is left as it was.
pub proof fn lemma_stamp_leaves_distant_pixels(
    v: CanvasView,
    from: BitmapPoint,
    to: Sample,
    d: u32,
    x: int,
    y: int,
)
    requires
        2 * dist_sq(x, y, to.exact_x as int, to.exact_y as int) >= d * d,
    ensures
        stamped(v, from, to, d).pixel(x, y) == v.pixel(x, y),
{
    let inv = |w: CanvasView| w.pixel(x, y) == v.pixel(x, y);
    let (ex, ey) = (to.exact_x as int, to.exact_y as int);
    assert forall|w: CanvasView, qx: int, qy: int| inv(w) implies inv(
        #[trigger] dab(w, qx, qy, ex, ey, d as nat),
    ) by {
        lemma_dab_leaves_distant_pixel(w, qx, qy, ex, ey, d as nat, x, y);
    }
    let cells = line_cells(from, to.cell);
    lemma_cells_keep(inv, v, cells, cells.len(), 2 * radius_of(d), ex, ey, d as nat);
}

/// One dab leaves a pixel out of the brush's reach as it was.
proof fn lemma_dab_leaves_distant_pixel(
    w: CanvasView,
    qx: int,
    qy: int,
    ex: int,
    ey: int,
    d: nat,
    x: int,
    y: int,
)
    requires
        2 * dist_sq(x, y, ex, ey) >= d * d,
    ensures
        dab(w, qx, qy, ex, ey, d).pixel(x, y) == w.pixel(x, y),
{
    if qx == x && qy == y {
        assert(opacity_at(dist_sq(x, y, ex, ey), d) == 0);
    }
}

/// One dab keeps the size of the canvas, and keeps black a pixel on which
/// the sample lies exactly.
proof fn lemma_dab_keeps_black(
    w: CanvasView,
    qx: int,
    qy: int,
    ex: int,
    ey: int,
    d: nat,
    cx: int,
    cy: int,
)
    requires
        d >= 1,
        dist_sq(cx, cy, ex, ey) == 0,
    ensures
        dab(w, qx, qy, ex, ey, d).width == w.width,
        dab(w, qx, qy, ex, ey, d).height == w.height,
        w.pixel(cx, cy) == Rgba::black(255) ==> dab(w, qx, qy, ex, ey, d).pixel(cx, cy)
            == Rgba::black(255),
        w.contains(cx, cy) ==> dab(w, cx, cy, ex, ey, d).pixel(cx, cy) == Rgba::black(255),
{
    lemma_opacity_falloff(0, 0, d);
}

/// A sample that lies exactly on its pixel leaves that pixel black: the
/// brush is opaque at its centre.
pub proof fn lemma_stamp_blackens_the_sample(v: CanvasView, from: BitmapPoint, to: Sample, d: u32)
    requires
        d >= UNIT,
        v.contains(to.cell.x as int, to.cell.y as int),
        to.exact_x == to.cell.x * UNIT,
        to.exact_y == to.cell.y * UNIT,
        in_line_range(from),
        in_line_range(to.cell),
    ensures
        stamped(v, from, to, d).pixel(to.cell.x as int, to.cell.y as int) == Rgba::black(255),
{
    let (cx, cy) = (to.cell.x as int, to.cell.y as int);
    let (ex, ey) = (to.exact_x as int, to.exact_y as int);
    let dn = d as nat;
    let half = 2 * radius_of(d);
    let sized = |w: CanvasView| w.width == v.width && w.height == v.height;
    let black = |w: CanvasView|
        w.width == v.width && w.height == v.height && w.pixel(cx, cy) == Rgba::black(255);
    assert(dist_sq(cx, cy, ex, ey) == 0);
    assert(half >= 2) by {
        vstd::arithmetic::div_mod::lemma_div_is_ordered(512, d + UNIT, 512);
    }
    assert forall|w: CanvasView, qx: int, qy: int| black(w) implies black(
        #[trigger] dab(w, qx, qy, ex, ey, dn),
    ) by {
        lemma_dab_keeps_black(w, qx, qy, ex, ey, dn, cx, cy);
    }
    assert forall|w: CanvasView, qx: int, qy: int| sized(w) implies sized(
        #[trigger] dab(w, qx, qy, ex, ey, dn),
    ) by {
        lemma_dab_keeps_black(w, qx, qy, ex, ey, dn, cx, cy);
    }
    let cells = line_cells(from, to.cell);
    let n = cells.len();
    crate::line::lemma_line_cells_connected(from, to.cell);
    assert(cells[n - 1] == to.cell);
    // Before the square of the last cell, the canvas has its size.
    let before = dab_cells(v, cells, (n - 1) as nat, half, ex, ey, dn);
    lemma_cells_keep(sized, v, cells, (n - 1) as nat, half, ex, ey, dn);
    lemma_last_square_blackens(black, sized, before, v, cx, cy, half, ex, ey, dn);
}

/// The square of dabs around a pixel on which the sample lies exactly
/// leaves that pixel black.
proof fn lemma_last_square_blackens(
    black: spec_fn(CanvasView) -> bool,
    sized: spec_fn(CanvasView) -> bool,
    before: CanvasView,
    v: CanvasView,
    cx: int,
    cy: int,
    half: int,
    ex: int,
    ey: int,
    d: nat,
)
    requires
        d >= 1,
        half >= 1,
        dist_sq(cx, cy, ex, ey) == 0,
        v.contains(cx, cy),
        sized(before),
        forall|w: CanvasView| #[trigger] sized(w) <==> w.width == v.width && w.height == v.height,
        forall|w: CanvasView| #[trigger]
            black(w) <==> w.width == v.width && w.height == v.height && w.pixel(cx, cy)
                == Rgba::black(255),
        forall|w: CanvasView, qx: int, qy: int|
            black(w) ==> black(#[trigger] dab(w, qx, qy, ex, ey, d)),
        forall|w: CanvasView, qx: int, qy: int|
            sized(w) ==> sized(#[trigger] dab(w, qx, qy, ex, ey, d)),
    ensures
        black(dab_square(before, cx, cy, half, (2 * half) as nat, ex, ey, d)),
{
    // The columns left of the pixel keep the size.
    let left = dab_square(before, cx, cy, half, half as nat, ex, ey, d);
    lemma_square_keeps(sized, before, cx, cy, half, half as nat, ex, ey, d);
    // In the pixel's column, the rows above it keep the size, and the dab
    // on the pixel blackens it.
    let above = dab_column(left, cx, cy - half, half as nat, ex, ey, d);
    lemma_column_keeps(sized, left, cx, cy - half, half as nat, ex, ey, d);
    lemma_dab_keeps_black(above, cx, cy, ex, ey, d, cx, cy);
    assert(dab(above, cx, cy, ex, ey, d) == dab_column(
        left,
        cx,
        cy - half,
        (half + 1) as nat,
        ex,
        ey,
        d,
    ));
    lemma_rest_of_column(black, left, cx, cy - half, (half + 1) as nat, (2 * half) as nat, ex, ey, d);
    assert(dab_column(left, cx, cy - half, (2 * half) as nat, ex, ey, d) == dab_square(
        before,
        cx,
        cy,
        half,
        (half + 1) as nat,
        ex,
        ey,
        d,
    ));
    lemma_rest_of_square(black, before, cx, cy, half, (half + 1) as nat, (2 * half) as nat, ex, ey, d);
}

/// What holds after the first `m` dabs of a column and survives every dab
/// holds after the first `n`, for `n` from `m` on.
proof fn lemma_rest_of_column(
    inv: spec_fn(CanvasView) -> bool,
    v: CanvasView,
    px: int,
    top: int,
    m: nat,
    n: nat,
    ex: int,
    ey: int,
    d: nat,
)
    requires
        m <= n,
        inv(dab_column(v, px, top, m, ex, ey, d)),
        forall|w: CanvasView, qx: int, qy: int| inv(w) ==> inv(#[trigger] dab(w, qx, qy, ex, ey, d)),
    ensures
        inv(dab_column(v, px, top, n, ex, ey, d)),
    decreases n,
{
    if n > m {
        lemma_rest_of_column(inv, v, px, top, m, (n - 1) as nat, ex, ey, d);
    }
}

/// What holds after the first `m` columns of a square and survives every
/// dab holds after the first `n`, for `n` from `m` on.
proof fn lemma_rest_of_square(
    inv: spec_fn(CanvasView) -> bool,
    v: CanvasView,
    cx: int,
    cy: int,
    half: int,
    m: nat,
    n: nat,
    ex: int,
    ey: int,
    d: nat,
)
    requires
        m <= n,
        inv(dab_square(v, cx, cy, half, m, ex, ey, d)),
        forall|w: CanvasView, qx: int, qy: int| inv(w) ==> inv(#[trigger] dab(w, qx, qy, ex, ey, d)),
    ensures
        inv(dab_square(v, cx, cy, half, n, ex, ey, d)),
    decreases n,
{
    if n > m {
        lemma_rest_of_square(inv, v, cx, cy, half, m, (n - 1) as nat, ex, ey, d);
        lemma_column_keeps(
            inv,
            dab_square(v, cx, cy, half, (n - 1) as nat, ex, ey, d),
            cx - half + n - 1,
            cy - half,
            (2 * half) as nat,
            ex,
            ey,
            d,
        );
    }
}

/// Paints the segment from `from` to the sample `to` with a brush of
/// diameter `d`. Pixels outside the canvas are passed over.
pub fn stamp_segment(canvas: &mut RasterCanvas, from: BitmapPoint, to: &Sample, d: u32)
    requires
        old(canvas).wf(),
        in_line_range(from),
        in_line_range(to.cell),
        d >= UNIT,
    ensures
        final(canvas).wf(),
        final(canvas)@ == stamped(old(canvas)@, from, *to, d),
        final(canvas)@.width == old(canvas)@.width,
        final(canvas)@.height == old(canvas)@.height,
{
    let cells = line_walk(from, to.cell);
    let half: i64 = 2 * brush_radius(d);
    let ex = to.exact_x;
    let ey = to.exact_y;
    let ghost start = canvas@;
    let mut k: usize = 0;
    while k < cells.len()
        invariant
            0 <= k <= cells.len(),
            cells@ == line_cells(from, to.cell),
            in_line_range(from),
            in_line_range(to.cell),
            half == 2 * radius_of(d),
            0 <= half <= 0x100_0000,
            d >= UNIT,
            canvas.wf(),
            canvas@.width == start.width,
            canvas@.height == start.height,
            canvas@ == dab_cells(start, cells@, k as nat, half as int, ex as int, ey as int, d as nat),
        decreases cells.len() - k,
    {
        let c = cells[k];
        proof {
            crate::line::lemma_line_point_between(
                from.x as int,
                from.y as int,
                to.cell.x as int,
                to.cell.y as int,
                k as int,
            );
        }
        let ghost before = canvas@;
        let mut i: i64 = -half;
        while i < half
            invariant
                -half <= i <= half,
                0 <= half <= 0x100_0000,
                in_line_range(c),
                d >= UNIT,
                canvas.wf(),
                canvas@.width == start.width,
                canvas@.height == start.height,
                canvas@ == dab_square(
                    before,
                    c.x as int,
                    c.y as int,
                    half as int,
                    (i + half) as nat,
                    ex as int,
                    ey as int,
                    d as nat,
                ),
            decreases half - i,
        {
            let ghost column_start = canvas@;
            let px: i64 = c.x as i64 + i;
            let mut j: i64 = -half;
            while j < half
                invariant
                    -half <= j <= half,
                    0 <= half <= 0x100_0000,
                    in_line_range(c),
                    px == c.x + i,
                    -half <= i < half,
                    d >= UNIT,
                    canvas.wf(),
                    canvas@.width == start.width,
                    canvas@.height == start.height,
                    canvas@ == dab_column(
                        column_start,
                        px as int,
                        c.y - half,
                        (j + half) as nat,
                        ex as int,
                        ey as int,
                        d as nat,
                    ),
                decreases half - j,
            {
                let py: i64 = c.y as i64 + j;
                let o = opacity_for(px, py, ex, ey, d);
                canvas.blend_pixel(px, py, Rgba::black(o));
                j += 1;
            }
            i += 1;
        }
        k += 1;
    }
}

} // verus!
