use vstd::prelude::*;

verus! {

/// A point, or a pair of per-axis components, in thousandths of a unit.
#[derive(Debug, Clone, Copy, PartialEq, Eq, Structural)]
pub struct Point {
    pub x: i64,
    pub y: i64,
}

/// An axis-aligned rectangle: its top-left corner, its width and its height.
#[derive(Debug, Clone, Copy, PartialEq, Eq, Structural)]
pub struct Rect {
    pub x: i64,
    pub y: i64,
    pub w: i64,
    pub h: i64,
}

/// The edge of a rectangle that a circle touches.
#[derive(Debug, Clone, Copy, PartialEq, Eq, Structural)]
pub enum Collision {
    Left,
    Top,
    Right,
    Bottom,
    Miss,
}

pub open spec fn abs(v: int) -> int {
    if v < 0 { -v } else { v }
}

/// The coordinate of the span `[lo, lo + len]` nearest to `c`.
pub open spec fn nearest_in_span(c: int, lo: int, len: int) -> int {
    if c < lo {
        lo
    } else if c > lo + len {
        lo + len
    } else {
        c
    }
}

/// The edge on the x axis that the clamp of `cx` to the rectangle chose.
pub open spec fn horizontal_edge(cx: int, rx: int, rw: int) -> Collision {
    if cx < rx {
        Collision::Left
    } else if cx > rx + rw {
        Collision::Right
    } else {
        Collision::Miss
    }
}

/// The edge on the y axis that the clamp of `cy` to the rectangle chose.
pub open spec fn vertical_edge(cy: int, ry: int, rh: int) -> Collision {
    if cy < ry {
        Collision::Top
    } else if cy > ry + rh {
        Collision::Bottom
    } else {
        Collision::Miss
    }
}

/// Whether the point nearest to the centre lies within `radius` of it:
/// `sqrt(dx² + dy²) <= radius`, without the square root.
pub open spec fn within_radius(dx: int, dy: int, radius: int) -> bool {
    radius >= 0 && dx * dx + dy * dy <= radius * radius
}

/// Which edge of the rectangle `(rx, ry, rw, rh)` the circle of centre
/// `(cx, cy)` touches: the edge of the axis with the larger distance, the
/// horizontal one on a tie, and `Miss` when the circle does not reach the
/// rectangle or when its centre lies inside it.
pub open spec fn circle_rect_collision(
    cx: int,
    cy: int,
    radius: int,
    rx: int,
    ry: int,
    rw: int,
    rh: int,
) -> Collision {
    let dx = cx - nearest_in_span(cx, rx, rw);
    let dy = cy - nearest_in_span(cy, ry, rh);
    if within_radius(dx, dy, radius) {
        if abs(dx) >= abs(dy) {
            horizontal_edge(cx, rx, rw)
        } else {
            vertical_edge(cy, ry, rh)
        }
    } else {
        Collision::Miss
    }
}

/// The axis of the reported edge: a circle that reaches the rectangle
/// reports an edge of the x axis when its centre is at least as far from the
/// rectangle along x as along y, and an edge of the y axis otherwise; a
/// centre on or inside the rectangle reports `Miss`.
pub proof fn lemma_tie_breaks_toward_horizontal(
    cx: int,
    cy: int,
    radius: int,
    rx: int,
    ry: int,
    rw: int,
    rh: int,
)
    ensures
        ({
            let dx = cx - nearest_in_span(cx, rx, rw);
            let dy = cy - nearest_in_span(cy, ry, rh);
            let r = circle_rect_collision(cx, cy, radius, rx, ry, rw, rh);
            &&& within_radius(dx, dy, radius) && abs(dx) >= abs(dy) ==> r == horizontal_edge(
                cx,
                rx,
                rw,
            )
            &&& within_radius(dx, dy, radius) && abs(dx) < abs(dy) ==> r == vertical_edge(
                cy,
                ry,
                rh,
            )
            &&& dx == 0 && dy == 0 ==> r == Collision::Miss
        }),
{
}

proof fn lemma_square_bounds(a: int, b: int, r: int)
    requires
        0 <= a <= r,
        0 <= b <= r,
    ensures
        a * a <= r * r,
        b * b <= r * r,
        a * a + b * b <= 2 * (r * r),
{
    assert(a * a <= r * r) by (nonlinear_arith)
        requires
            0 <= a <= r,
    ;
    assert(b * b <= r * r) by (nonlinear_arith)
        requires
            0 <= b <= r,
    ;
}

proof fn lemma_square_exceeds(a: int, r: int)
    requires
        0 <= r < a,
    ensures
        a * a > r * r,
{
    assert(a * a > r * r) by (nonlinear_arith)
        requires
            0 <= r < a,
    ;
}

/// Tests the circle of centre `(cx, cy)` and radius `radius` against the
/// axis-aligned rectangle at `(rx, ry)` of width `rw` and height `rh`.
pub fn circle_collides_rect(
    cx: i64,
    cy: i64,
    radius: i64,
    rx: i64,
    ry: i64,
    rw: i64,
    rh: i64,
) -> (r: Collision)
    ensures
        r == circle_rect_collision(
            cx as int,
            cy as int,
            radius as int,
            rx as int,
            ry as int,
            rw as int,
            rh as int,
        ),
{
    let cx = cx as i128;
    let cy = cy as i128;
    let radius = radius as i128;
    let rx = rx as i128;
    let ry = ry as i128;
    let right = rx + rw as i128;
    let bottom = ry + rh as i128;

    let mut horizontal_collision = Collision::Miss;
    let mut vertical_collision = Collision::Miss;
    let mut test_x = cx;
    let mut test_y = cy;
    if cx < rx {
        test_x = rx;
        horizontal_collision = Collision::Left;
    } else if cx > right {
        test_x = right;
        horizontal_collision = Collision::Right;
    }
    if cy < ry {
        test_y = ry;
        vertical_collision = Collision::Top;
    } else if cy > bottom {
        test_y = bottom;
        vertical_collision = Collision::Bottom;
    }

    let dist_x = cx - test_x;
    let dist_y = cy - test_y;
    let abs_x = if dist_x < 0 { -dist_x } else { dist_x };
    let abs_y = if dist_y < 0 { -dist_y } else { dist_y };
    if radius < 0 {
        return Collision::Miss;
    }
    if abs_x > radius {
        proof {
            lemma_square_exceeds(abs_x as int, radius as int);
            assert(dist_x * dist_x == abs_x * abs_x) by (nonlinear_arith)
                requires
                    abs_x == dist_x || abs_x == -dist_x,
            ;
            assert(dist_y * dist_y >= 0) by (nonlinear_arith);
        }
        return Collision::Miss;
    }
    if abs_y > radius {
        proof {
            lemma_square_exceeds(abs_y as int, radius as int);
            assert(dist_y * dist_y == abs_y * abs_y) by (nonlinear_arith)
                requires
                    abs_y == dist_y || abs_y == -dist_y,
            ;
            assert(dist_x * dist_x >= 0) by (nonlinear_arith);
        }
        return Collision::Miss;
    }
    proof {
        lemma_square_bounds(abs_x as int, abs_y as int, radius as int);
        assert(dist_x * dist_x == abs_x * abs_x) by (nonlinear_arith)
            requires
                abs_x == dist_x || abs_x == -dist_x,
        ;
        assert(dist_y * dist_y == abs_y * abs_y) by (nonlinear_arith)
            requires
                abs_y == dist_y || abs_y == -dist_y,
        ;
        assert(radius * radius < 0x4000_0000_0000_0000_0000_0000_0000_0000) by (nonlinear_arith)
            requires
                0 <= radius < 0x8000_0000_0000_0000,
        ;
    }
    if abs_x * abs_x + abs_y * abs_y <= radius * radius {
        if abs_x >= abs_y {
            horizontal_collision
        } else {
            vertical_collision
        }
    } else {
        Collision::Miss
    }
}

} // verus!
