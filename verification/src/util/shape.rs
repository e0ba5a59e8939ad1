//! Rasterisation of shapes on a character grid: circles (midpoint
//! algorithm) and lines (Bresenham), with the helpers that choose where a
//! line drawn with `| - \ /` characters starts.
use vstd::prelude::*;

verus! {

/// The value that `v as i16` gives for a `u16`: two's-complement
/// reinterpretation.
pub open spec fn u16_as_i16(v: u16) -> int {
    if v < 0x8000 {
        v as int
    } else {
        v as int - 0x1_0000
    }
}

fn to_i16(v: u16) -> (r: i16)
    ensures
        r == u16_as_i16(v),
{
    if v < 0x8000 {
        v as i16
    } else {
        (v as i32 - 0x1_0000) as i16
    }
}

/// The eight points that are symmetric to `(x, y)` around the centre
/// `(cx, cy)`, in the order in which `circle` lists them.
pub open spec fn octant_points(cx: int, cy: int, x: int, y: int) -> Seq<(i16, i16)> {
    seq![
        ((cx + x) as i16, (cy + y) as i16),
        ((cx - x) as i16, (cy + y) as i16),
        ((cx + x) as i16, (cy - y) as i16),
        ((cx - x) as i16, (cy - y) as i16),
        ((cx + y) as i16, (cy + x) as i16),
        ((cx - y) as i16, (cy + x) as i16),
        ((cx + y) as i16, (cy - x) as i16),
        ((cx - y) as i16, (cy - x) as i16),
    ]
}

/// The points that the midpoint circle algorithm lists from the state
/// `(x, y, d)` on: while `x <= y`, the eight symmetric points of `(x, y)`;
/// then `x` grows by one and, when the decision value `d` is positive, `y`
/// shrinks by one.
pub open spec fn circle_from(cx: int, cy: int, x: int, y: int, d: int) -> Seq<(i16, i16)>
    decreases y - x + 2,
{
    if x > y {
        Seq::empty()
    } else {
        let nx = x + 1;
        let (ny, nd) = if d > 0 {
            (y - 1, d + 4 * (nx - (y - 1)) + 10)
        } else {
            (y, d + 4 * nx + 6)
        };
        octant_points(cx, cy, x, y) + circle_from(cx, cy, nx, ny, nd)
    }
}

/// The points of the circle of radius `r` around `(cx, cy)`.
pub open spec fn circle_points(cx: int, cy: int, r: int) -> Seq<(i16, i16)> {
    circle_from(cx, cy, 0, r, 3 - 2 * r)
}

/// The inputs on which `circle` computes without overflow: the radius keeps
/// the decision value within `i16` (or, read as `i16`, is negative, when no
/// point is listed), and the centre, read as `i16`, stays within `i16` when
/// moved by the radius.
pub open spec fn circle_in_range(x0: u16, y0: u16, radius: u16) -> bool {
    &&& (radius <= 8284 || radius >= 0xC002)
    &&& radius <= 8284 ==> {
        &&& -0x8000 <= u16_as_i16(x0) - radius && u16_as_i16(x0) + radius <= 0x7FFF
        &&& -0x8000 <= u16_as_i16(y0) - radius && u16_as_i16(y0) + radius <= 0x7FFF
    }
}

/// Every point listed from a state with `0 <= x` and `y <= r` lies within
/// `r` of the centre on both axes, and the points come in groups of eight.
pub proof fn lemma_circle_from_bounded(cx: int, cy: int, x: int, y: int, d: int, r: int)
    requires
        0 <= x,
        y <= r,
        -0x8000 <= cx - r,
        cx + r <= 0x7FFF,
        -0x8000 <= cy - r,
        cy + r <= 0x7FFF,
    ensures
        circle_from(cx, cy, x, y, d).len() % 8 == 0,
        forall|i: int|
            0 <= i < circle_from(cx, cy, x, y, d).len() ==> {
                let p = #[trigger] circle_from(cx, cy, x, y, d)[i];
                &&& cx - r <= p.0 <= cx + r
                &&& cy - r <= p.1 <= cy + r
            },
    decreases y - x + 2,
{
    if x <= y {
        let nx = x + 1;
        let (ny, nd) = if d > 0 {
            (y - 1, d + 4 * (nx - (y - 1)) + 10)
        } else {
            (y, d + 4 * nx + 6)
        };
        lemma_circle_from_bounded(cx, cy, nx, ny, nd, r);
        let head = octant_points(cx, cy, x, y);
        let tail = circle_from(cx, cy, nx, ny, nd);
        assert(circle_from(cx, cy, x, y, d) == head + tail);
        assert forall|i: int| 0 <= i < (head + tail).len() implies {
            let p = #[trigger] (head + tail)[i];
            &&& cx - r <= p.0 <= cx + r
            &&& cy - r <= p.1 <= cy + r
        } by {
            if i >= 8 {
                assert((head + tail)[i] == tail[i - 8]);
            }
        }
    }
}

/// How far the offset `(x, y)` is from the circle of radius `r`: the
/// difference of the squared distance and the squared radius.
pub open spec fn circle_error(x: int, y: int, r: int) -> int {
    x * x + y * y - r * r
}

/// The decision value of the midpoint walk at the offset `(x, y)`.
spec fn circle_decision(x: int, y: int, r: int) -> int {
    2 * (x + 1) * (x + 1) + y * y + (y - 1) * (y - 1) - 2 * r * r + 4 * x + 4 * (r - y)
}

/// One step of the walk keeps the decision value in step with the offset,
/// and keeps every listed offset within `3r` of the circle.
proof fn lemma_circle_step(x: int, y: int, d: int, r: int)
    requires
        0 <= x <= y <= r,
        d == circle_decision(x, y, r),
        -3 * r <= circle_error(x, y, r) <= 3 * r,
    ensures
        d > 0 ==> d + 4 * ((x + 1) - (y - 1)) + 10 == circle_decision(x + 1, y - 1, r),
        d > 0 && x + 1 <= y - 1 ==> -3 * r <= circle_error(x + 1, y - 1, r) <= 3 * r,
        d <= 0 ==> d + 4 * (x + 1) + 6 == circle_decision(x + 1, y, r),
        d <= 0 && x + 1 <= y ==> -3 * r <= circle_error(x + 1, y, r) <= 3 * r,
{
    let e = circle_error(x, y, r);
    assert(d == 2 * circle_error(x + 1, y, r) - 2 * y + 1 + 4 * x + 4 * (r - y)) by (nonlinear_arith)
        requires
            d == circle_decision(x, y, r),
    ;
    assert(circle_error(x + 1, y, r) == e + 2 * x + 1) by (nonlinear_arith)
        requires
            e == circle_error(x, y, r),
    ;
    assert(circle_error(x + 1, y - 1, r) == e + 2 * x + 1 - 2 * y + 1) by (nonlinear_arith)
        requires
            e == circle_error(x, y, r),
    ;
    assert(circle_decision(x + 1, y - 1, r) == d + 4 * ((x + 1) - (y - 1)) + 10) by (nonlinear_arith)
        requires
            d == circle_decision(x, y, r),
    ;
    assert(circle_decision(x + 1, y, r) == d + 4 * (x + 1) + 6) by (nonlinear_arith)
        requires
            d == circle_decision(x, y, r),
    ;
}

/// Every point listed from a state whose decision value is in step with
/// its offset lies within `3r` of the circle of radius `r`.
proof fn lemma_circle_from_near(cx: int, cy: int, x: int, y: int, d: int, r: int)
    requires
        0 <= x,
        y <= r,
        d == circle_decision(x, y, r),
        x <= y ==> -3 * r <= circle_error(x, y, r) <= 3 * r,
        -0x8000 <= cx - r,
        cx + r <= 0x7FFF,
        -0x8000 <= cy - r,
        cy + r <= 0x7FFF,
    ensures
        forall|i: int|
            0 <= i < circle_from(cx, cy, x, y, d).len() ==> {
                let p = #[trigger] circle_from(cx, cy, x, y, d)[i];
                -3 * r <= circle_error(p.0 - cx, p.1 - cy, r) <= 3 * r
            },
    decreases y - x + 2,
{
    if x <= y {
        let nx = x + 1;
        let (ny, nd) = if d > 0 {
            (y - 1, d + 4 * (nx - (y - 1)) + 10)
        } else {
            (y, d + 4 * nx + 6)
        };
        lemma_circle_step(x, y, d, r);
        lemma_circle_from_near(cx, cy, nx, ny, nd, r);
        let head = octant_points(cx, cy, x, y);
        let tail = circle_from(cx, cy, nx, ny, nd);
        assert(circle_from(cx, cy, x, y, d) == head + tail);
        assert(circle_error(x, y, r) == circle_error(-x, y, r) && circle_error(x, y, r)
            == circle_error(x, -y, r) && circle_error(x, y, r) == circle_error(-x, -y, r)
            && circle_error(x, y, r) == circle_error(y, x, r) && circle_error(x, y, r)
            == circle_error(-y, x, r) && circle_error(x, y, r) == circle_error(y, -x, r)
            && circle_error(x, y, r) == circle_error(-y, -x, r)) by (nonlinear_arith);
        assert forall|i: int| 0 <= i < (head + tail).len() implies {
            let p = #[trigger] (head + tail)[i];
            -3 * r <= circle_error(p.0 - cx, p.1 - cy, r) <= 3 * r
        } by {
            if i >= 8 {
                assert((head + tail)[i] == tail[i - 8]);
            }
        }
    }
}

/// Every point of the circle of radius `r >= 0` around `(cx, cy)` lies on
/// that circle up to rounding: its squared distance from the centre differs
/// from `r * r` by at most `3r`.
pub proof fn law_circle_points_near_radius(cx: int, cy: int, r: int)
    requires
        0 <= r,
        -0x8000 <= cx - r,
        cx + r <= 0x7FFF,
        -0x8000 <= cy - r,
        cy + r <= 0x7FFF,
    ensures
        forall|i: int|
            0 <= i < circle_points(cx, cy, r).len() ==> {
                let p = #[trigger] circle_points(cx, cy, r)[i];
                -3 * r <= (p.0 - cx) * (p.0 - cx) + (p.1 - cy) * (p.1 - cy) - r * r <= 3 * r
            },
{
    assert(circle_decision(0, r, r) == 3 - 2 * r) by (nonlinear_arith);
    assert(circle_error(0, r, r) == 0) by (nonlinear_arith);
    lemma_circle_from_near(cx, cy, 0, r, 3 - 2 * r, r);
}

/// Lists the points of a circle of radius `radius` around `(x0, y0)` with the
/// midpoint algorithm, eight symmetric points at a time. The centre is read
/// as `i16`.
pub fn circle(x0: u16, y0: u16, radius: u16) -> (points: Vec<(i16, i16)>)
    requires
        circle_in_range(x0, y0, radius),
    ensures
        radius <= 8284 ==> points@ == circle_points(u16_as_i16(x0), u16_as_i16(y0), radius as int),
        radius > 8284 ==> points@.len() == 0,
        points@.len() % 8 == 0,
        radius <= 8284 ==> forall|i: int|
            0 <= i < points@.len() ==> {
                let p = #[trigger] points@[i];
                &&& u16_as_i16(x0) - radius <= p.0 <= u16_as_i16(x0) + radius
                &&& u16_as_i16(y0) - radius <= p.1 <= u16_as_i16(y0) + radius
                &&& -3 * radius <= (p.0 - u16_as_i16(x0)) * (p.0 - u16_as_i16(x0)) + (p.1
                    - u16_as_i16(y0)) * (p.1 - u16_as_i16(y0)) - radius * radius <= 3 * radius
            },
{
    let mut points: Vec<(i16, i16)> = Vec::new();
    if radius > 8284 {
        // Read as `i16` the radius is negative: no point satisfies `x <= y`.
        return points;
    }
    let cx = to_i16(x0);
    let cy = to_i16(y0);
    let ghost r = radius as int;
    proof {
        lemma_circle_from_bounded(cx as int, cy as int, 0, r, 3 - 2 * r, r);
        law_circle_points_near_radius(cx as int, cy as int, r);
    }
    let mut x: i16 = 0;
    let mut y: i16 = radius as i16;
    // The decision value is kept in an `i32`: wherever the `i16` computation
    // does not overflow the two agree, and the wider type bounds easily.
    let mut d: i32 = 3 - 2 * radius as i32;
    let ghost mut xx: int = 0;
    while x <= y
        invariant
            0 <= x,
            y <= r,
            r <= 8284,
            xx == x * x,
            x <= y + 2,
            -0x8000 <= cx - r,
            cx + r <= 0x7FFF,
            -0x8000 <= cy - r,
            cy + r <= 0x7FFF,
            3 - 4 * y <= d <= 3 + 2 * xx + 16 * x,
            points@ + circle_from(cx as int, cy as int, x as int, y as int, d as int)
                == circle_points(cx as int, cy as int, r),
        decreases y - x + 2,
    {
        let ghost prev = points@;
        points.push((cx + x, cy + y));
        points.push((cx - x, cy + y));
        points.push((cx + x, cy - y));
        points.push((cx - x, cy - y));
        points.push((cx + y, cy + x));
        points.push((cx - y, cy + x));
        points.push((cx + y, cy - x));
        points.push((cx - y, cy - x));
        assert(points@ == prev + octant_points(cx as int, cy as int, x as int, y as int));
        proof {
            assert(xx <= 8284 * 8284) by (nonlinear_arith)
                requires
                    xx == x * x,
                    0 <= x <= 8284,
            ;
        }
        x += 1;
        proof {
            xx = xx + 2 * (x - 1) + 1;
            assert(xx == x * x) by (nonlinear_arith)
                requires
                    xx == (x - 1) * (x - 1) + 2 * (x - 1) + 1,
            ;
        }
        if d > 0 {
            y -= 1;
            d = d + 4 * (x as i32 - y as i32) + 10;
        } else {
            d = d + 4 * x as i32 + 6;
        }
    }
    points
}

/// Absolute value.
pub open spec fn iabs(v: int) -> int {
    if v < 0 {
        -v
    } else {
        v
    }
}

/// The larger of two integers.
pub open spec fn imax(a: int, b: int) -> int {
    if a > b {
        a
    } else {
        b
    }
}

/// Half of the longer extent, negated when the line is not longer in `x`
/// than in `y` (division truncates toward zero, as in Rust): the initial
/// error term of the Bresenham walks below.
pub open spec fn bresenham_err0(dx: int, dy: int) -> int {
    if dx > dy {
        dx / 2
    } else {
        -(dy / 2)
    }
}

/// One step of Bresenham's walk from `(x0, y0)` *away* from `(x1, y1)`: the
/// point that precedes `(x0, y0)` on a line drawn towards `(x1, y1)`.
pub open spec fn reverse_next_point(x0: int, y0: int, x1: int, y1: int) -> (int, int) {
    let dx = iabs(x1 - x0);
    let dy = iabs(y1 - y0);
    let sx: int = if x0 < x1 { -1 } else { 1 };
    let sy: int = if y0 < y1 { -1 } else { 1 };
    let err = bresenham_err0(dx, dy);
    (if err > -dx { x0 + sx } else { x0 }, if err < dy { y0 + sy } else { y0 })
}

/// The inputs on which `reverse_bresenham_next_point` computes in `i16`
/// without overflow.
pub open spec fn reverse_next_in_range(x0: int, y0: int, x1: int, y1: int) -> bool {
    &&& -0x7FFF <= x1 - x0 <= 0x7FFF
    &&& -0x7FFF <= y1 - y0 <= 0x7FFF
    &&& -0x8000 <= reverse_next_point(x0, y0, x1, y1).0 <= 0x7FFF
    &&& -0x8000 <= reverse_next_point(x0, y0, x1, y1).1 <= 0x7FFF
}

fn abs_i16(v: i16) -> (r: i16)
    requires
        v > i16::MIN,
    ensures
        r == iabs(v as int),
{
    if v < 0 {
        -v
    } else {
        v
    }
}

fn reverse_bresenham_next_point(x0: i16, y0: i16, x1: i16, y1: i16) -> (r: (i16, i16))
    requires
        reverse_next_in_range(x0 as int, y0 as int, x1 as int, y1 as int),
    ensures
        (r.0 as int, r.1 as int) == reverse_next_point(x0 as int, y0 as int, x1 as int, y1 as int),
{
    let dx = abs_i16(x1 - x0);
    let dy = abs_i16(y1 - y0);
    let sx = if x0 < x1 {
        -1i16
    } else {
        1i16
    };
    let sy = if y0 < y1 {
        -1i16
    } else {
        1i16
    };
    let err = if dx > dy {
        dx / 2
    } else {
        -(dy / 2)
    };
    let mut x = x0;
    let mut y = y0;
    if err > -dx {
        x += sx;
    }
    if err < dy {
        y += sy;
    }
    (x, y)
}

/// Whether the direction `(dx, dy)` (with `y` growing downwards on screen)
/// lies strictly inside one of the angle ranges `(0, π/2)`, `(3π/4, π)` or
/// `(3π/2, 7π/4)`, measured counter-clockwise from the positive `x` axis in
/// `[0, 2π)`. For these directions a line drawn with `| - \ /` characters
/// reads better when drawn from its other end.
pub open spec fn line_reversed(dx: int, dy: int) -> bool {
    ||| (dx > 0 && dy > 0)
    ||| (dx < 0 && dy > 0 && dy < -dx)
    ||| (dx > 0 && dy < 0 && -dy > dx)
}

/// The endpoints that `prepare_line` starts from, read as `i16`: swapped
/// when the direction is one of `line_reversed`.
pub open spec fn line_ends(px0: u16, py0: u16, px1: u16, py1: u16) -> (int, int, int, int) {
    if line_reversed(px1 - px0, py1 - py0) {
        (u16_as_i16(px1), u16_as_i16(py1), u16_as_i16(px0), u16_as_i16(py0))
    } else {
        (u16_as_i16(px0), u16_as_i16(py0), u16_as_i16(px1), u16_as_i16(py1))
    }
}

/// What `prepare_line` returns: the chosen start point moved one Bresenham
/// step back, and the chosen end point.
pub open spec fn prepared_line(px0: u16, py0: u16, px1: u16, py1: u16) -> (int, int, int, int) {
    let e = line_ends(px0, py0, px1, py1);
    let np = reverse_next_point(e.0, e.1, e.2, e.3);
    (np.0, np.1, e.2, e.3)
}

/// Prepares a line from `(px0, py0)` to `(px1, py1)` for drawing with
/// `| - \ /` characters: orders the endpoints by the direction of the line
/// and moves the start one step back along it, so that the first character
/// drawn lies on the line itself. Coordinates are read as `i16`.
pub fn prepare_line(px0: u16, py0: u16, px1: u16, py1: u16) -> (r: (i16, i16, i16, i16))
    requires
        ({
            let e = line_ends(px0, py0, px1, py1);
            reverse_next_in_range(e.0, e.1, e.2, e.3)
        }),
    ensures
        (r.0 as int, r.1 as int, r.2 as int, r.3 as int) == prepared_line(px0, py0, px1, py1),
{
    let fdy = py1 as i32 - py0 as i32;
    let fdx = px1 as i32 - px0 as i32;
    let reversed = (fdx > 0 && fdy > 0) || (fdx < 0 && fdy > 0 && fdy < -fdx) || (fdx > 0 && fdy
        < 0 && -fdy > fdx);
    let (x0, y0, x1, y1) = if reversed {
        (to_i16(px1), to_i16(py1), to_i16(px0), to_i16(py0))
    } else {
        (to_i16(px0), to_i16(py0), to_i16(px1), to_i16(py1))
    };
    let np = reverse_bresenham_next_point(x0, y0, x1, y1);
    (np.0, np.1, x1, y1)
}

/// The cross product of `(ax, ay)` and `(bx, by)`: positive when `b` lies
/// counter-clockwise of `a`, less than half a turn away.
pub open spec fn cross(ax: int, ay: int, bx: int, by: int) -> int {
    ax * by - ay * bx
}

/// Whether the direction `(vx, vy)` lies strictly inside the sector that
/// turns counter-clockwise from the ray `(ax, ay)` to the ray `(bx, by)`
/// (a sector of less than half a turn).
pub open spec fn strictly_between(ax: int, ay: int, bx: int, by: int, vx: int, vy: int) -> bool {
    cross(ax, ay, vx, vy) > 0 && cross(vx, vy, bx, by) > 0
}

/// `prepare_line` draws from the second end exactly when the direction
/// from the first end to the second, as an angle in `[0, 2π)` from the
/// positive `x` axis, lies strictly inside `(0, π/2)`, `(3π/4, π)` or
/// `(3π/2, 7π/4)`: the rays `(1, 0)`, `(0, 1)`, `(-1, 1)`, `(-1, 0)`,
/// `(0, -1)` and `(1, -1)` bound these sectors. Then the line ends at the
/// first end; otherwise it ends at the second end. Either way it starts one
/// step beyond its other end: adjacent to it, on the side away from the end.
pub proof fn law_prepare_line_direction(px0: u16, py0: u16, px1: u16, py1: u16)
    ensures
        ({
            let r = prepared_line(px0, py0, px1, py1);
            let (dx, dy) = (px1 - px0, py1 - py0);
            let swapped = strictly_between(1, 0, 0, 1, dx, dy) || strictly_between(
                -1,
                1,
                -1,
                0,
                dx,
                dy,
            ) || strictly_between(0, -1, 1, -1, dx, dy);
            let (sx, sy) = if swapped {
                (u16_as_i16(px1), u16_as_i16(py1))
            } else {
                (u16_as_i16(px0), u16_as_i16(py0))
            };
            &&& swapped ==> (r.2, r.3) == (u16_as_i16(px0), u16_as_i16(py0))
            &&& !swapped ==> (r.2, r.3) == (u16_as_i16(px1), u16_as_i16(py1))
            &&& iabs(r.0 - sx) <= 1 && iabs(r.1 - sy) <= 1
            &&& (r.2 - sx) * (r.0 - sx) <= 0 && (r.3 - sy) * (r.1 - sy) <= 0
        }),
{
    let dx = px1 - px0;
    let dy = py1 - py0;
    assert(cross(1, 0, dx, dy) == dy);
    assert(cross(dx, dy, 0, 1) == dx);
    assert(cross(-1, 1, dx, dy) == -dy - dx);
    assert(cross(dx, dy, -1, 0) == dy);
    assert(cross(0, -1, dx, dy) == dx);
    assert(cross(dx, dy, 1, -1) == -dx - dy);
    let e = line_ends(px0, py0, px1, py1);
    let r = prepared_line(px0, py0, px1, py1);
    assert((e.2 - e.0) * (r.0 - e.0) <= 0) by (nonlinear_arith)
        requires
            r.0 == e.0 || (e.0 < e.2 && r.0 == e.0 - 1) || (e.0 >= e.2 && r.0 == e.0 + 1),
    ;
    assert((e.3 - e.1) * (r.1 - e.1) <= 0) by (nonlinear_arith)
        requires
            r.1 == e.1 || (e.1 < e.3 && r.1 == e.1 - 1) || (e.1 >= e.3 && r.1 == e.1 + 1),
    ;
}

/// The character that draws one point of a line: the first point, a step
/// in `x` only, a step in `y` only, a diagonal step, or the last point.
#[derive(Clone, Copy, Debug, PartialEq, Eq, Structural)]
pub enum LineSym {
    START,
    END,
    VLINE,
    HLINE,
    SLASH,
    BACKSLASH,
}

/// The symbol for a point reached by a step: `flag` is 1 for a step in `x`
/// only, 2 for a step in `y` only, 3 for a diagonal step and 0 for the first
/// point; a diagonal is `SLASH` when both coordinates move the same way.
pub open spec fn line_sym(flag: int, sx: int, sy: int) -> LineSym {
    if flag == 0 {
        LineSym::START
    } else if flag == 1 {
        LineSym::VLINE
    } else if flag == 2 {
        LineSym::HLINE
    } else if flag == 3 {
        if (sx < 0 && sy < 0) || (sx > 0 && sy > 0) {
            LineSym::SLASH
        } else {
            LineSym::BACKSLASH
        }
    } else {
        LineSym::END
    }
}

/// The fixed data of a line walk: its end, its extents and its directions.
pub struct LineWalk {
    pub x1: int,
    pub y1: int,
    pub dx: int,
    pub dy: int,
    pub sx: int,
    pub sy: int,
}

/// The moving data of a line walk: the current point, the error term and
/// the kind of the last step.
pub struct LineState {
    pub x: int,
    pub y: int,
    pub err: int,
    pub flag: int,
}

/// The walk of the line from `(x0, y0)` to `(x1, y1)`.
pub open spec fn line_walk(x0: int, y0: int, x1: int, y1: int) -> LineWalk {
    LineWalk {
        x1,
        y1,
        dx: iabs(x1 - x0),
        dy: iabs(y1 - y0),
        sx: if x0 < x1 { 1 } else { -1 },
        sy: if y0 < y1 { 1 } else { -1 },
    }
}

/// One Bresenham step: move in `x` when the error term exceeds `-dx`, in `y`
/// when it is below `dy` (both tested on the error term before the step).
pub open spec fn line_step(w: LineWalk, st: LineState) -> LineState {
    let e2 = st.err;
    let (x, err1, f1) = if e2 > -w.dx {
        (st.x + w.sx, e2 - w.dy, 1int)
    } else {
        (st.x, e2, 0int)
    };
    let (y, err2, f2) = if e2 < w.dy {
        (st.y + w.sy, err1 + w.dx, f1 + 2)
    } else {
        (st.y, err1, f1)
    };
    LineState { x, y, err: err2, flag: f2 }
}

/// The state after `k` steps from the start `(x0, y0)`.
pub open spec fn line_state(x0: int, y0: int, w: LineWalk, k: nat) -> LineState
    decreases k,
{
    if k == 0 {
        LineState { x: x0, y: y0, err: bresenham_err0(w.dx, w.dy), flag: 0 }
    } else {
        line_step(w, line_state(x0, y0, w, (k - 1) as nat))
    }
}

/// The point listed for a state.
pub open spec fn line_point(w: LineWalk, st: LineState) -> (i16, i16, LineSym) {
    (st.x as i16, st.y as i16, line_sym(st.flag, w.sx, w.sy))
}

/// The points of the line from `(x0, y0)` to `(x1, y1)`: one per step of
/// the walk, `max(|x1 - x0|, |y1 - y0|) + 1` in all.
pub open spec fn line_points(x0: int, y0: int, x1: int, y1: int) -> Seq<(i16, i16, LineSym)> {
    let w = line_walk(x0, y0, x1, y1);
    Seq::new(
        (imax(w.dx, w.dy) + 1) as nat,
        |i: int| line_point(w, line_state(x0, y0, w, i as nat)),
    )
}

/// The character for a step from `a` to `b`: `VLINE` for a step in `x`
/// only, `HLINE` for a step in `y` only, `SLASH` for a diagonal step along
/// which both coordinates move the same way, `BACKSLASH` for the other
/// diagonal.
pub open spec fn step_symbol(a: (i16, i16, LineSym), b: (i16, i16, LineSym)) -> LineSym {
    if b.1 == a.1 {
        LineSym::VLINE
    } else if b.0 == a.0 {
        LineSym::HLINE
    } else if b.0 - a.0 == b.1 - a.1 {
        LineSym::SLASH
    } else {
        LineSym::BACKSLASH
    }
}

/// Each point of `pts` after the first is one of the eight neighbours of the
/// point before it, and carries the character of that step.
pub open spec fn steps_adjacent(pts: Seq<(i16, i16, LineSym)>) -> bool {
    forall|i: int|
        0 < i < pts.len() ==> {
            let a = pts[i - 1];
            let b = #[trigger] pts[i];
            &&& iabs(b.0 - a.0) <= 1
            &&& iabs(b.1 - a.1) <= 1
            &&& (b.0 != a.0 || b.1 != a.1)
            &&& b.2 == step_symbol(a, b)
        }
}

fn symbol_for(flag: u8, sx: i16, sy: i16) -> (r: LineSym)
    ensures
        r == line_sym(flag as int, sx as int, sy as int),
{
    match flag {
        0 => LineSym::START,
        1 => LineSym::VLINE,
        2 => LineSym::HLINE,
        3 => {
            if (sx < 0 && sy < 0) || (sx > 0 && sy > 0) {
                LineSym::SLASH
            } else {
                LineSym::BACKSLASH
            }
        },
        _ => LineSym::END,
    }
}

/// Appending a neighbour of the last point, with the character of that
/// step, keeps the steps adjacent.
proof fn lemma_push_adjacent(pts: Seq<(i16, i16, LineSym)>, p: (i16, i16, LineSym))
    requires
        steps_adjacent(pts),
        pts.len() > 0 ==> {
            let a = pts.last();
            &&& iabs(p.0 - a.0) <= 1
            &&& iabs(p.1 - a.1) <= 1
            &&& (p.0 != a.0 || p.1 != a.1)
            &&& p.2 == step_symbol(a, p)
        },
    ensures
        steps_adjacent(pts.push(p)),
{
    let q = pts.push(p);
    assert forall|i: int| 0 < i < q.len() implies {
        let a = q[i - 1];
        let b = #[trigger] q[i];
        &&& iabs(b.0 - a.0) <= 1
        &&& iabs(b.1 - a.1) <= 1
        &&& (b.0 != a.0 || b.1 != a.1)
        &&& b.2 == step_symbol(a, b)
    } by {
        if i < pts.len() {
            assert(q[i] == pts[i]);
            assert(q[i - 1] == pts[i - 1]);
        }
    }
}

proof fn lemma_mul_le_neg(a: int, b: int)
    requires
        a > 0,
        b <= -1,
    ensures
        a * b <= -a,
{
    assert(a * b <= -a) by (nonlinear_arith)
        requires
            a > 0,
            b <= -1,
    ;
}

/// While the walk has not reached its end, the error term steers it: a
/// coordinate that has reached its end does not move again, and the major
/// coordinate moves at every step.
proof fn lemma_line_progress(
    dx: int,
    dy: int,
    e0: int,
    err: int,
    xs: int,
    ys: int,
    xs_dy: int,
    ys_dx: int,
)
    requires
        0 <= dx,
        0 <= dy,
        e0 == bresenham_err0(dx, dy),
        0 <= xs <= dx,
        0 <= ys <= dy,
        !(xs == dx && ys == dy),
        xs_dy == xs * dy,
        ys_dx == ys * dx,
        err == e0 - xs_dy + ys_dx,
        -dy <= err <= dx,
        dx > dy ==> err > e0 - dx,
        dx <= dy && dy > 0 ==> err < e0 + dy,
    ensures
        xs == dx ==> err <= -dx,
        ys == dy ==> err >= dy,
        dx > dy ==> err > -dx,
        dx <= dy ==> err < dy,
{
    if xs == dx {
        assert(err == e0 + dx * (ys - dy)) by (nonlinear_arith)
            requires
                err == e0 - xs_dy + ys_dx,
                xs_dy == xs * dy,
                ys_dx == ys * dx,
                xs == dx,
        ;
        if dx > 0 {
            lemma_mul_le_neg(dx, ys - dy);
        }
    }
    if ys == dy {
        assert(err >= e0 + dy) by (nonlinear_arith)
            requires
                err == e0 - xs_dy + ys_dx,
                xs_dy == xs * dy,
                ys_dx == ys * dx,
                ys == dy,
                xs < dx,
                dy >= 0,
        ;
    }
}

/// Lists the points of the line from `(x0, y0)` to `(x1, y1)` with
/// Bresenham's algorithm, each with the symbol of the step that reached it.
#[verifier::rlimit(100)]
#[verifier::spinoff_prover]
pub fn line(x0: i16, y0: i16, x1: i16, y1: i16) -> (res: Vec<(i16, i16, LineSym)>)
    requires
        -0x7FFF <= x1 - x0 <= 0x7FFF,
        -0x7FFF <= y1 - y0 <= 0x7FFF,
    ensures
        res@ == line_points(x0 as int, y0 as int, x1 as int, y1 as int),
        res@.len() == imax(iabs(x1 - x0), iabs(y1 - y0)) + 1,
        res@[0] == (x0, y0, LineSym::START),
        res@.last().0 == x1 && res@.last().1 == y1,
        steps_adjacent(res@),
{
    let mut res: Vec<(i16, i16, LineSym)> = Vec::new();
    let dx = abs_i16(x1 - x0) as i32;
    let dy = abs_i16(y1 - y0) as i32;
    let sx: i16 = if x0 < x1 {
        1
    } else {
        -1
    };
    let sy: i16 = if y0 < y1 {
        1
    } else {
        -1
    };
    // The error term stays within `[-dy, dx]`; it is kept in an `i32` so
    // that the intermediate value between the two updates cannot overflow.
    let mut err: i32 = if dx > dy {
        dx / 2
    } else {
        -(dy / 2)
    };
    let mut x = x0;
    let mut y = y0;
    let mut flag: u8 = 0;
    let ghost w = line_walk(x0 as int, y0 as int, x1 as int, y1 as int);
    let ghost e0 = bresenham_err0(dx as int, dy as int);
    let ghost mut k: nat = 0;
    let ghost mut xs: int = 0;
    let ghost mut ys: int = 0;
    let ghost mut xs_dy: int = 0;
    let ghost mut ys_dx: int = 0;
    let ghost mut px: int = 0;
    let ghost mut py: int = 0;
    loop
        invariant_except_break
            res@ =~= Seq::new(k, |i: int| line_point(w, line_state(x0 as int, y0 as int, w, i as nat))),
            k > 0 ==> res@[k - 1].0 == px && res@[k - 1].1 == py,
            k > 0 ==> iabs(x - px) <= 1 && iabs(y - py) <= 1 && (x != px || y != py),
            k > 0 ==> flag == (if x != px { 1int } else { 0int }) + (if y != py { 2int } else { 0int }),
            k > 0 ==> x == px || x - px == sx,
            k > 0 ==> y == py || y - py == sy,
            steps_adjacent(res@),
        invariant
            w == line_walk(x0 as int, y0 as int, x1 as int, y1 as int),
            dx == w.dx,
            dy == w.dy,
            sx == w.sx,
            sy == w.sy,
            0 <= dx <= 0x7FFF,
            0 <= dy <= 0x7FFF,
            e0 == bresenham_err0(dx as int, dy as int),
            line_state(x0 as int, y0 as int, w, k) == (LineState {
                x: x as int,
                y: y as int,
                err: err as int,
                flag: flag as int,
            }),
            0 <= xs <= dx,
            0 <= ys <= dy,
            x == (if sx == 1 { x0 + xs } else { x0 - xs }),
            y == (if sy == 1 { y0 + ys } else { y0 - ys }),
            x1 == (if sx == 1 { x0 + dx } else { x0 - dx }),
            y1 == (if sy == 1 { y0 + dy } else { y0 - dy }),
            xs_dy == xs * dy,
            ys_dx == ys * dx,
            err == e0 - xs_dy + ys_dx,
            -dy <= err <= dx,
            dx > dy ==> err > e0 - dx && xs == k,
            dx <= dy ==> ys == k,
            dx <= dy && dy > 0 ==> err < e0 + dy,
            flag <= 3,
        ensures
            res@ =~= Seq::new(k + 1, |i: int| line_point(w, line_state(x0 as int, y0 as int, w, i as nat))),
            xs == dx,
            ys == dy,
            k == imax(dx as int, dy as int),
            steps_adjacent(res@),
        decreases (dx - xs) + (dy - ys),
    {
        let sym_auto = symbol_for(flag, sx, sy);
        let ghost before = res@;
        res.push((x, y, sym_auto));
        proof {
            lemma_push_adjacent(before, (x, y, sym_auto));
        }
        assert(res@ =~= Seq::new(k + 1, |i: int| line_point(w, line_state(x0 as int, y0 as int, w, i as nat))));
        if x == x1 && y == y1 {
            break ;
        }
        proof {
            lemma_line_progress(dx as int, dy as int, e0, err as int, xs, ys, xs_dy, ys_dx);
        }
        proof {
            px = x as int;
            py = y as int;
        }
        let e2 = err;
        flag = 0;
        if e2 > -dx {
            err -= dy;
            x += sx;
            flag += 1;
            proof {
                xs = xs + 1;
                xs_dy = xs_dy + dy;
            }
        }
        if e2 < dy {
            err += dx;
            y += sy;
            flag += 2;
            proof {
                ys = ys + 1;
                ys_dx = ys_dx + dx;
            }
        }
        proof {
            k = k + 1;
            assert(xs_dy == xs * dy) by (nonlinear_arith)
                requires
                    xs_dy == xs * dy || (xs_dy == (xs - 1) * dy + dy),
            ;
            assert(ys_dx == ys * dx) by (nonlinear_arith)
                requires
                    ys_dx == ys * dx || (ys_dx == (ys - 1) * dx + dx),
            ;
        }
    }
    res
}

} // verus!
