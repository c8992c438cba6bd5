//! The discrete line between two bitmap points.

use vstd::prelude::*;

verus! {

/// A pixel position in bitmap space: column `x`, row `y`.
#[derive(Clone, Copy, Debug, PartialEq, Eq, Structural)]
pub struct BitmapPoint {
    pub x: i32,
    pub y: i32,
}

/// Coordinates of a line's end points lie within this distance of zero, so
/// that every difference the walk forms fits in an `i32`.
pub const LINE_LIMIT: i32 = 0x2000_0000;

/// The distance of `v` from zero.
pub open spec fn abs(v: int) -> int {
    if v < 0 {
        -v
    } else {
        v
    }
}

/// The sign of `v`: -1, 0 or 1.
pub open spec fn signum(v: int) -> int {
    if v < 0 {
        -1
    } else if v > 0 {
        1
    } else {
        0
    }
}

/// Number of steps of the line: the larger of the two coordinate distances.
pub open spec fn line_steps(x0: int, y0: int, x1: int, y1: int) -> int {
    if abs(x1 - x0) >= abs(y1 - y0) {
        abs(x1 - x0)
    } else {
        abs(y1 - y0)
    }
}

/// The coordinate `k` cells away from `from` in the direction of `to`.
pub open spec fn toward(from: int, to: int, k: int) -> int {
    if to >= from {
        from + k
    } else {
        from - k
    }
}

/// The cell reached after `i` steps from `(x0, y0)` toward `(x1, y1)`: each
/// coordinate has covered the fraction `i / n` of its distance, rounded
/// toward the start.
pub open spec fn line_point(x0: int, y0: int, x1: int, y1: int, i: int) -> (int, int) {
    let n = line_steps(x0, y0, x1, y1);
    if n == 0 {
        (x0, y0)
    } else {
        (
            toward(x0, x1, (i * abs(x1 - x0)) / n),
            toward(y0, y1, (i * abs(y1 - y0)) / n),
        )
    }
}

/// Whether both coordinates lie within `LINE_LIMIT` of zero.
pub open spec fn in_line_range(p: BitmapPoint) -> bool {
    -LINE_LIMIT <= p.x <= LINE_LIMIT && -LINE_LIMIT <= p.y <= LINE_LIMIT
}

/// The cells of the discrete line from `start` to `end`, both included, in the
/// order in which they are walked.
pub open spec fn line_cells(start: BitmapPoint, end: BitmapPoint) -> Seq<BitmapPoint> {
    Seq::new(
        (line_steps(start.x as int, start.y as int, end.x as int, end.y as int) + 1) as nat,
        |i: int|
            {
                let c = line_point(start.x as int, start.y as int, end.x as int, end.y as int, i);
                BitmapPoint { x: c.0 as i32, y: c.1 as i32 }
            },
    )
}

/// Collects the iterator `line_drawing::Bresenham::new(start, end)`.
///
/// The crate turns the end points into the octant in which `x` grows from
/// the start to the end at least as fast as `y`, and then yields one cell
/// for each `x` from the start's to the end's, both included. It raises `y`
/// by one before a step whenever its error term, which starts at `dy - dx`
/// and gains `dy` with each step, is not negative, and then takes `dx` off
/// it. The term so stays from `dy - dx` up to, but below, `dy`, which keeps
/// `y` at the floor of `i * dy / dx` after `i` steps. Turned back from the
/// octant, the cell after `i` steps is `line_point(.., i)`, and there are
/// `line_steps(..) + 1` cells.
///
/// The crate computes in `i32`; the bound on the end points keeps its
/// differences, its negations and its error term within that type.
#[verifier::external_body]
fn bresenham(start: BitmapPoint, end: BitmapPoint) -> (cells: Vec<BitmapPoint>)
    requires
        in_line_range(start),
        in_line_range(end),
    ensures
        cells@.len() == line_steps(start.x as int, start.y as int, end.x as int, end.y as int) + 1,
        forall|i: int|
            0 <= i < cells@.len() ==> (#[trigger] cells@[i].x as int, cells@[i].y as int)
                == line_point(start.x as int, start.y as int, end.x as int, end.y as int, i),
{
    line_drawing::Bresenham::new((start.x, start.y), (end.x, end.y))
        .map(|c| BitmapPoint { x: c.0, y: c.1 })
        .collect()
}

/// The share `(i * a) / n` of a distance `a` after `i` of `n` steps.
proof fn lemma_share(i: int, a: int, n: int)
    requires
        0 <= a <= n,
        0 < n,
        0 <= i <= n,
    ensures
        0 <= (i * a) / n <= a,
        (0 * a) / n == 0,
        (n * a) / n == a,
        a == n ==> (i * a) / n == i,
        a == 0 ==> (i * a) / n == 0,
        i < n ==> 0 <= ((i + 1) * a) / n - (i * a) / n <= 1,
{
    let q = (i * a) / n;
    assert(0 <= i * a <= n * a) by (nonlinear_arith)
        requires
            0 <= a,
            0 <= i <= n,
    ;
    vstd::arithmetic::div_mod::lemma_fundamental_div_mod(i * a, n);
    vstd::arithmetic::div_mod::lemma_mod_bound(i * a, n);
    assert(0 <= q <= a) by (nonlinear_arith)
        requires
            0 <= i * a <= n * a,
            i * a == n * q + (i * a) % n,
            0 <= (i * a) % n < n,
            0 < n,
    ;
    assert(0 * a == 0);
    vstd::arithmetic::div_mod::lemma_div_multiples_vanish(a, n);
    assert(n * a == a * n) by (nonlinear_arith);
    if a == n {
        vstd::arithmetic::div_mod::lemma_div_multiples_vanish(i, n);
        assert(i * a == n * i) by (nonlinear_arith)
            requires
                a == n,
        ;
    }
    if a == 0 {
        assert(i * a == 0) by (nonlinear_arith)
            requires
                a == 0,
        ;
    }
    if i < n {
        let q1 = ((i + 1) * a) / n;
        assert((i + 1) * a == i * a + a) by (nonlinear_arith);
        vstd::arithmetic::div_mod::lemma_fundamental_div_mod((i + 1) * a, n);
        vstd::arithmetic::div_mod::lemma_mod_bound((i + 1) * a, n);
        assert(0 <= q1 - q <= 1) by (nonlinear_arith)
            requires
                i * a == n * q + (i * a) % n,
                (i + 1) * a == n * q1 + ((i + 1) * a) % n,
                (i + 1) * a == i * a + a,
                0 <= (i * a) % n < n,
                0 <= ((i + 1) * a) % n < n,
                0 <= a <= n,
                0 < n,
        ;
    }
}

/// Every cell of the line lies between the end points, coordinate by
/// coordinate.
pub proof fn lemma_line_point_between(x0: int, y0: int, x1: int, y1: int, i: int)
    requires
        0 <= i <= line_steps(x0, y0, x1, y1),
    ensures
        ({
            let c = line_point(x0, y0, x1, y1, i);
            &&& (x0 <= c.0 <= x1 || x1 <= c.0 <= x0)
            &&& (y0 <= c.1 <= y1 || y1 <= c.1 <= y0)
        }),
{
    let n = line_steps(x0, y0, x1, y1);
    if n > 0 {
        lemma_share(i, abs(x1 - x0), n);
        lemma_share(i, abs(y1 - y0), n);
    }
}

/// The walk starts at the first point and ends at the second.
pub proof fn lemma_line_end_points(x0: int, y0: int, x1: int, y1: int)
    ensures
        line_point(x0, y0, x1, y1, 0) == (x0, y0),
        line_point(x0, y0, x1, y1, line_steps(x0, y0, x1, y1)) == (x1, y1),
{
    let n = line_steps(x0, y0, x1, y1);
    if n > 0 {
        lemma_share(0, abs(x1 - x0), n);
        lemma_share(0, abs(y1 - y0), n);
        lemma_share(n, abs(x1 - x0), n);
        lemma_share(n, abs(y1 - y0), n);
    }
}

/// The line has no gaps: each step moves to one of the eight neighbours of
/// the cell before it, never away from the end point, and never stays.
pub proof fn lemma_line_connected(x0: int, y0: int, x1: int, y1: int, i: int)
    requires
        0 <= i < line_steps(x0, y0, x1, y1),
    ensures
        ({
            let a = line_point(x0, y0, x1, y1, i);
            let b = line_point(x0, y0, x1, y1, i + 1);
            &&& (b.0 - a.0 == 0 || b.0 - a.0 == signum(x1 - x0))
            &&& (b.1 - a.1 == 0 || b.1 - a.1 == signum(y1 - y0))
            &&& abs(b.0 - a.0) <= 1
            &&& abs(b.1 - a.1) <= 1
            &&& a != b
        }),
{
    let n = line_steps(x0, y0, x1, y1);
    lemma_share(i, abs(x1 - x0), n);
    lemma_share(i, abs(y1 - y0), n);
    lemma_share(i + 1, abs(x1 - x0), n);
    lemma_share(i + 1, abs(y1 - y0), n);
}

/// Whether the segment is a single cell, horizontal, vertical or an exact
/// diagonal.
pub open spec fn is_straight(x0: int, y0: int, x1: int, y1: int) -> bool {
    x0 == x1 || y0 == y1 || abs(x1 - x0) == abs(y1 - y0)
}

/// On a horizontal, vertical or exactly diagonal segment, the walk from the
/// second point to the first visits the cells of the walk from the first to
/// the second, in the opposite order.
pub proof fn lemma_line_reversed(x0: int, y0: int, x1: int, y1: int, i: int)
    requires
        is_straight(x0, y0, x1, y1),
        0 <= i <= line_steps(x0, y0, x1, y1),
    ensures
        line_steps(x1, y1, x0, y0) == line_steps(x0, y0, x1, y1),
        line_point(x1, y1, x0, y0, i) == line_point(
            x0,
            y0,
            x1,
            y1,
            line_steps(x0, y0, x1, y1) - i,
        ),
{
    let n = line_steps(x0, y0, x1, y1);
    if n > 0 {
        lemma_share(i, abs(x1 - x0), n);
        lemma_share(i, abs(y1 - y0), n);
        lemma_share(n - i, abs(x1 - x0), n);
        lemma_share(n - i, abs(y1 - y0), n);
        assert(abs(x0 - x1) == abs(x1 - x0));
        assert(abs(y0 - y1) == abs(y1 - y0));
    }
}

/// The walk leaves no cell of the line out and has no gaps: it starts on
/// the first point, ends on the second, and each of its cells is one of the
/// eight neighbours of the cell before it.
pub proof fn lemma_line_cells_connected(start: BitmapPoint, end: BitmapPoint)
    requires
        in_line_range(start),
        in_line_range(end),
    ensures
        line_cells(start, end).len() >= 1,
        line_cells(start, end).first() == start,
        line_cells(start, end).last() == end,
        forall|i: int|
            0 <= i < line_cells(start, end).len() - 1 ==> {
                let a = #[trigger] line_cells(start, end)[i];
                let b = line_cells(start, end)[i + 1];
                &&& abs(b.x - a.x) <= 1
                &&& abs(b.y - a.y) <= 1
                &&& a != b
            },
{
    let (x0, y0, x1, y1) = (start.x as int, start.y as int, end.x as int, end.y as int);
    let n = line_steps(x0, y0, x1, y1);
    lemma_line_end_points(x0, y0, x1, y1);
    assert forall|i: int| 0 <= i < line_cells(start, end).len() - 1 implies {
        let a = #[trigger] line_cells(start, end)[i];
        let b = line_cells(start, end)[i + 1];
        &&& abs(b.x - a.x) <= 1
        &&& abs(b.y - a.y) <= 1
        &&& a != b
    } by {
        lemma_line_connected(x0, y0, x1, y1, i);
        lemma_line_point_between(x0, y0, x1, y1, i);
        lemma_line_point_between(x0, y0, x1, y1, i + 1);
    }
}

/// On a horizontal, vertical or exactly diagonal segment, swapping the end
/// points reverses the walk, so both walks visit the same set of cells.
pub proof fn lemma_line_cells_symmetric(start: BitmapPoint, end: BitmapPoint)
    requires
        in_line_range(start),
        in_line_range(end),
        is_straight(start.x as int, start.y as int, end.x as int, end.y as int),
    ensures
        line_cells(end, start) == line_cells(start, end).reverse(),
        line_cells(end, start).to_set() == line_cells(start, end).to_set(),
{
    let (x0, y0, x1, y1) = (start.x as int, start.y as int, end.x as int, end.y as int);
    let n = line_steps(x0, y0, x1, y1);
    let forth = line_cells(start, end);
    let back = line_cells(end, start);
    lemma_line_reversed(x0, y0, x1, y1, 0);
    assert forall|i: int| 0 <= i < back.len() implies back[i] == forth.reverse()[i] by {
        lemma_line_reversed(x0, y0, x1, y1, i);
    }
    assert(back =~= forth.reverse());
    assert forall|c: BitmapPoint| back.to_set().contains(c) <==> forth.to_set().contains(c) by {
        if back.contains(c) {
            let i = choose|i: int| 0 <= i < back.len() && back[i] == c;
            assert(forth[n - i] == c);
        }
        if forth.contains(c) {
            let i = choose|i: int| 0 <= i < forth.len() && forth[i] == c;
            assert(back[n - i] == c);
        }
    }
    assert(back.to_set() =~= forth.to_set());
}

/// Walks the discrete line from `start` to `end`.
pub fn line_walk(start: BitmapPoint, end: BitmapPoint) -> (cells: Vec<BitmapPoint>)
    requires
        in_line_range(start),
        in_line_range(end),
    ensures
        cells@ == line_cells(start, end),
        cells@.len() >= 1,
        cells@[0] == start,
        cells@[cells@.len() - 1] == end,
{
    let cells = bresenham(start, end);
    proof {
        let (x0, y0, x1, y1) = (start.x as int, start.y as int, end.x as int, end.y as int);
        lemma_line_end_points(x0, y0, x1, y1);
        assert forall|i: int| 0 <= i < cells@.len() implies cells@[i] == line_cells(start, end)[i] by {
            lemma_line_point_between(x0, y0, x1, y1, i);
            assert((cells@[i].x as int, cells@[i].y as int) == line_point(x0, y0, x1, y1, i));
        }
        assert(cells@ =~= line_cells(start, end));
        assert((cells@[0].x as int, cells@[0].y as int) == (x0, y0));
        let last = cells@.len() - 1;
        assert((cells@[last].x as int, cells@[last].y as int) == (x1, y1));
    }
    cells
}

} // verus!
