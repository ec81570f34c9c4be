//! Relocation of a pointer that has entered the buffer zone: how far to push
//! it, toward which edge, and where it lands in cursor-set space.

use crate::geometry::{contains, Point, Rect};
use crate::metrics::{clamp, ScreenMetrics};
use crate::trajectory::inside;
use vstd::prelude::*;

verus! {

/// Speed, in pixels per sample, up to which the base push factor is used.
pub const SLOW_SPEED: i64 = 25;

/// Speed from which the push factor is three times the base.
pub const FAST_SPEED: i64 = 75;

/// Largest argument that `integer_sqrt` accepts.
pub const SQRT_LIMIT: u128 = 0x1000_0000_0000_0000_0000;

/// `r` is the integer square root of `n`.
pub open spec fn is_isqrt(n: int, r: int) -> bool {
    r >= 0 && r * r <= n < (r + 1) * (r + 1)
}

/// The integer square root of `n`: the greatest `r` with `r * r <= n`.
pub open spec fn isqrt(n: int) -> int {
    choose|r: int| is_isqrt(n, r)
}

/// A number has at most one integer square root.
pub proof fn lemma_isqrt_unique(n: int, r1: int, r2: int)
    requires
        is_isqrt(n, r1),
        is_isqrt(n, r2),
    ensures
        r1 == r2,
{
    if r1 < r2 {
        assert((r1 + 1) * (r1 + 1) <= r2 * r2) by (nonlinear_arith)
            requires
                0 <= r1,
                r1 + 1 <= r2,
        ;
    } else if r2 < r1 {
        assert((r2 + 1) * (r2 + 1) <= r1 * r1) by (nonlinear_arith)
            requires
                0 <= r2,
                r2 + 1 <= r1,
        ;
    }
}

/// The integer square root, found by bisection.
pub fn integer_sqrt(n: u128) -> (r: u64)
    requires
        n < SQRT_LIMIT,
    ensures
        is_isqrt(n as int, r as int),
        r as int == isqrt(n as int),
{
    let mut lo: u128 = 0;
    let mut hi: u128 = 0x100_0000_0000;
    assert(0x100_0000_0000 * 0x100_0000_0000 == 0x1_0000_0000_0000_0000_0000) by (nonlinear_arith);
    while hi - lo > 1
        invariant
            lo < hi <= 0x100_0000_0000,
            lo * lo <= n < hi * hi,
        decreases hi - lo,
    {
        let mid: u128 = lo + (hi - lo) / 2;
        assert(mid * mid < 0x100_0000_0000 * 0x100_0000_0000) by (nonlinear_arith)
            requires
                0 <= mid < 0x100_0000_0000,
        ;
        if mid * mid <= n {
            lo = mid;
        } else {
            hi = mid;
        }
    }
    proof {
        assert(hi == lo + 1);
        assert(is_isqrt(n as int, lo as int));
        lemma_isqrt_unique(n as int, lo as int, isqrt(n as int));
    }
    lo as u64
}

/// The square of the distance between two samples.
pub open spec fn speed_squared(last: Point, current: Point) -> int {
    (current.x - last.x) * (current.x - last.x) + (current.y - last.y) * (current.y - last.y)
}

/// The base factor multiplied by `speed / 25`, the multiplier kept within
/// `[1, 3]`, and the product rounded toward zero. `d2` is the square of the
/// speed.
pub open spec fn dynamic_push(base: int, d2: int) -> int {
    if d2 <= SLOW_SPEED * SLOW_SPEED {
        base
    } else if d2 >= FAST_SPEED * FAST_SPEED {
        3 * base
    } else if base >= 0 {
        isqrt(base * base * d2) / (SLOW_SPEED as int)
    } else {
        -(isqrt(base * base * d2) / (SLOW_SPEED as int))
    }
}

/// `v` limited to the range of `i32`.
pub open spec fn saturated(v: int) -> int {
    clamp(v, i32::MIN as int, i32::MAX as int)
}

/// The multiplier is never below 1 nor above 3: whatever the speed, the
/// scaled factor lies between the base and three times the base.
pub proof fn lemma_dynamic_push_bounds(base: int, d2: int)
    ensures
        base >= 0 ==> base <= dynamic_push(base, d2) <= 3 * base,
        base <= 0 ==> 3 * base <= dynamic_push(base, d2) <= base,
{
    if 625 < d2 < 5625 {
        let b = if base >= 0 {
            base
        } else {
            -base
        };
        let n = base * base * d2;
        assert(n == b * b * d2) by (nonlinear_arith)
            requires
                n == base * base * d2,
                b == base || b == -base,
        ;
        assert((25 * b) * (25 * b) <= n <= (75 * b) * (75 * b)) by (nonlinear_arith)
            requires
                n == b * b * d2,
                625 < d2 < 5625,
                b >= 0,
        ;
        lemma_isqrt_exists(n);
        let r = isqrt(n);
        assert(is_isqrt(n, r));
        assert(r >= 25 * b) by (nonlinear_arith)
            requires
                (25 * b) * (25 * b) <= n,
                n < (r + 1) * (r + 1),
                r >= 0,
                b >= 0,
        ;
        assert(r <= 75 * b) by (nonlinear_arith)
            requires
                n <= (75 * b) * (75 * b),
                r * r <= n,
                r >= 0,
                b >= 0,
        ;
    }
}

/// Every non-negative number has an integer square root.
pub proof fn lemma_isqrt_exists(n: int)
    requires
        n >= 0,
    ensures
        is_isqrt(n, isqrt(n)),
    decreases n,
{
    if n == 0 {
        assert(is_isqrt(0, 0));
    } else {
        lemma_isqrt_exists(n - 1);
        let r = isqrt(n - 1);
        if (r + 1) * (r + 1) <= n {
            assert((r + 1) * (r + 1) == n);
            assert(n < (r + 2) * (r + 2)) by (nonlinear_arith)
                requires
                    (r + 1) * (r + 1) == n,
                    r >= 0,
            ;
            assert(is_isqrt(n, r + 1));
        } else {
            assert(is_isqrt(n, r));
        }
    }
}

/// The push magnitude for the motion from `last_pos` to `current_pos`: the
/// base factor for slow motion, up to three times the base for fast motion.
pub fn calculate_dynamic_push_factor(base_factor: i32, last_pos: &Point, current_pos: &Point) -> (factor:
    i32)
    ensures
        factor == saturated(
            dynamic_push(base_factor as int, speed_squared(*last_pos, *current_pos)),
        ),
        base_factor >= 0 ==> base_factor <= factor <= 3 * base_factor,
        base_factor <= 0 ==> 3 * base_factor <= factor <= base_factor,
{
    let dx: i128 = current_pos.x as i128 - last_pos.x as i128;
    let dy: i128 = current_pos.y as i128 - last_pos.y as i128;
    assert(0 <= dx * dx <= 0x1_0000_0000 * 0x1_0000_0000) by (nonlinear_arith)
        requires
            -0x1_0000_0000 <= dx <= 0x1_0000_0000,
    ;
    assert(0 <= dy * dy <= 0x1_0000_0000 * 0x1_0000_0000) by (nonlinear_arith)
        requires
            -0x1_0000_0000 <= dy <= 0x1_0000_0000,
    ;
    let d2: i128 = dx * dx + dy * dy;
    proof {
        lemma_dynamic_push_bounds(base_factor as int, d2 as int);
    }
    let b: i64 = base_factor as i64;
    if d2 <= (SLOW_SPEED * SLOW_SPEED) as i128 {
        base_factor
    } else if d2 >= (FAST_SPEED * FAST_SPEED) as i128 {
        saturate(3 * b)
    } else {
        let m: u128 = if b >= 0 {
            b as u128
        } else {
            (-b) as u128
        };
        assert(0 <= m * m <= 0x8000_0000 * 0x8000_0000) by (nonlinear_arith)
            requires
                0 <= m <= 0x8000_0000,
        ;
        assert(m * m * d2 <= 0x8000_0000 * 0x8000_0000 * 5625) by (nonlinear_arith)
            requires
                0 <= m * m <= 0x8000_0000 * 0x8000_0000,
                0 <= d2 <= 5625,
        ;
        assert(m * m * d2 == base_factor * base_factor * d2) by (nonlinear_arith)
            requires
                m == base_factor || m == -base_factor,
        ;
        let n: u128 = m * m * (d2 as u128);
        let r: u64 = integer_sqrt(n);
        let q: i64 = (r / (SLOW_SPEED as u64)) as i64;
        if b >= 0 {
            saturate(q)
        } else {
            saturate(-q)
        }
    }
}

/// Limits a value to the range of `i32`.
pub fn saturate(v: i64) -> (s: i32)
    ensures
        s == saturated(v as int),
{
    if v < i32::MIN as i64 {
        i32::MIN
    } else if v > i32::MAX as i64 {
        i32::MAX
    } else {
        v as i32
    }
}

/// An edge of a rectangle, in the order in which ties are resolved.
#[derive(Clone, Copy, Debug, PartialEq, Eq, Structural)]
pub enum Edge {
    Left,
    Right,
    Top,
    Bottom,
}

/// The edge of `r` nearest to `p`; of several at the same distance, the
/// first in the order left, right, top, bottom.
pub open spec fn nearest_edge(p: Point, r: Rect) -> Edge {
    let to_left = p.x - r.left;
    let to_right = r.right - p.x;
    let to_top = p.y - r.top;
    let to_bottom = r.bottom - p.y;
    if to_left <= to_right && to_left <= to_top && to_left <= to_bottom {
        Edge::Left
    } else if to_right <= to_top && to_right <= to_bottom {
        Edge::Right
    } else if to_top <= to_bottom {
        Edge::Top
    } else {
        Edge::Bottom
    }
}

/// Where a push toward lower coordinates lands on one axis: `push` beyond
/// `lo`, or, where that is off the screen, `push` beyond `hi` and kept on
/// the screen.
pub open spec fn pushed_low(lo: int, hi: int, push: int, dim: int) -> int {
    if lo - push < 0 {
        clamp(hi + push, 0, dim - 1)
    } else {
        lo - push
    }
}

/// Where a push toward higher coordinates lands on one axis: `push` beyond
/// `hi`, or, where that is off the screen, `push` beyond `lo` and kept on
/// the screen.
pub open spec fn pushed_high(lo: int, hi: int, push: int, dim: int) -> int {
    if hi + push >= dim {
        clamp(lo - push, 0, dim - 1)
    } else {
        hi + push
    }
}

/// The hook-space position to which `p` is pushed out of `r`: `push` pixels
/// beyond the nearest edge, the other coordinate unchanged.
pub open spec fn push_target(p: Point, r: Rect, push: int, m: ScreenMetrics) -> (int, int) {
    match nearest_edge(p, r) {
        Edge::Left => (pushed_low(r.left as int, r.right as int, push, m.spec_width()), p.y as int),
        Edge::Right => (
            pushed_high(r.left as int, r.right as int, push, m.spec_width()),
            p.y as int,
        ),
        Edge::Top => (p.x as int, pushed_low(r.top as int, r.bottom as int, push, m.spec_height())),
        Edge::Bottom => (
            p.x as int,
            pushed_high(r.top as int, r.bottom as int, push, m.spec_height()),
        ),
    }
}

/// The cursor-set position that `push_point_out_of_rect` returns.
pub open spec fn pushed_position(p: Point, r: Rect, push: int, m: ScreenMetrics) -> Point {
    let t = push_target(p, r, push, m);
    Point { x: m.logical_x(t.0) as i32, y: m.logical_y(t.1) as i32 }
}

/// A push toward lower coordinates cannot leave the interval `[lo, hi)`:
/// there is no room below it, and it covers the last pixel of the screen.
pub open spec fn blocked_low(lo: int, hi: int, push: int, dim: int) -> bool {
    lo - push < 0 && hi + push > dim - 1 && lo <= dim - 1 < hi
}

/// A push toward higher coordinates cannot leave the interval `[lo, hi)`:
/// there is no room above it, and it covers the first pixel of the screen.
pub open spec fn blocked_high(lo: int, hi: int, push: int, dim: int) -> bool {
    hi + push >= dim && lo - push < 0 && lo <= 0 < hi
}

/// The screen leaves no room to push `p` out of `r` past its nearest edge
/// or past the opposite one.
pub open spec fn push_blocked(p: Point, r: Rect, push: int, m: ScreenMetrics) -> bool {
    match nearest_edge(p, r) {
        Edge::Left => blocked_low(r.left as int, r.right as int, push, m.spec_width()),
        Edge::Right => blocked_high(r.left as int, r.right as int, push, m.spec_width()),
        Edge::Top => blocked_low(r.top as int, r.bottom as int, push, m.spec_height()),
        Edge::Bottom => blocked_high(r.top as int, r.bottom as int, push, m.spec_height()),
    }
}

/// Finds the edge of `rect` nearest to `point`.
pub fn closest_edge(point: &Point, rect: &Rect) -> (edge: Edge)
    requires
        rect.is_bounded(),
    ensures
        edge == nearest_edge(*point, *rect),
{
    let to_left: i64 = point.x as i64 - rect.left;
    let to_right: i64 = rect.right - point.x as i64;
    let to_top: i64 = point.y as i64 - rect.top;
    let to_bottom: i64 = rect.bottom - point.y as i64;
    if to_left <= to_right && to_left <= to_top && to_left <= to_bottom {
        Edge::Left
    } else if to_right <= to_top && to_right <= to_bottom {
        Edge::Right
    } else if to_top <= to_bottom {
        Edge::Top
    } else {
        Edge::Bottom
    }
}

/// Keeps a hook-space coordinate within `[0, dim - 1]`.
fn keep_on_screen(v: i64, dim: i32) -> (c: i64)
    requires
        dim >= 1,
    ensures
        c == clamp(v as int, 0, dim - 1),
{
    if v < 0 {
        0
    } else if v > (dim - 1) as i64 {
        (dim - 1) as i64
    } else {
        v
    }
}

/// Moves a point out of `rect` past the nearest edge by `push_factor`
/// pixels, past the opposite edge where the nearest leads off the screen,
/// and converts the result to cursor-set space.
pub fn push_point_out_of_rect(
    point: &Point,
    rect: &Rect,
    push_factor: i32,
    metrics: &ScreenMetrics,
) -> (pushed: Point)
    requires
        rect.is_bounded(),
    ensures
        pushed == pushed_position(*point, *rect, push_factor as int, *metrics),
        0 <= pushed.x < metrics.spec_width(),
        0 <= pushed.y < metrics.spec_height(),
{
    let width: i32 = metrics.width();
    let height: i32 = metrics.height();
    let push: i64 = push_factor as i64;
    let px: i64 = point.x as i64;
    let py: i64 = point.y as i64;
    let (tx, ty): (i64, i64) = match closest_edge(point, rect) {
        Edge::Left => {
            let target: i64 = rect.left - push;
            if target < 0 {
                (keep_on_screen(rect.right + push, width), py)
            } else {
                (target, py)
            }
        },
        Edge::Right => {
            let target: i64 = rect.right + push;
            if target >= width as i64 {
                (keep_on_screen(rect.left - push, width), py)
            } else {
                (target, py)
            }
        },
        Edge::Top => {
            let target: i64 = rect.top - push;
            if target < 0 {
                (px, keep_on_screen(rect.bottom + push, height))
            } else {
                (px, target)
            }
        },
        Edge::Bottom => {
            let target: i64 = rect.bottom + push;
            if target >= height as i64 {
                (px, keep_on_screen(rect.top - push, height))
            } else {
                (px, target)
            }
        },
    };
    Point { x: metrics.to_logical_x(tx), y: metrics.to_logical_y(ty) }
}

/// With a positive push, a point of the rectangle is pushed to a hook-space
/// position outside the rectangle, except exactly where the screen leaves
/// no room on either side.
pub proof fn lemma_push_target_outside(p: Point, r: Rect, push: int, m: ScreenMetrics)
    requires
        m.wf(),
        push > 0,
        inside(r, p),
    ensures
        contains(r, push_target(p, r, push, m).0, push_target(p, r, push, m).1) <==> push_blocked(
            p,
            r,
            push,
            m,
        ),
{
    m.lemma_dimensions_positive();
}

/// Where hook space and cursor-set space coincide, a positive push that is
/// not blocked by the screen's edges never ends inside the rectangle it
/// pushed from.
pub proof fn lemma_pushed_position_outside(p: Point, r: Rect, push: int, m: ScreenMetrics)
    requires
        m.wf(),
        m.is_reference(),
        push > 0,
        !push_blocked(p, r, push, m),
    ensures
        !inside(r, pushed_position(p, r, push, m)),
{
    m.lemma_dimensions_positive();
    let t = push_target(p, r, push, m);
    crate::metrics::lemma_scaled_identity(t.0, m.spec_width());
    crate::metrics::lemma_scaled_identity(t.1, m.spec_height());
}

} // verus!
