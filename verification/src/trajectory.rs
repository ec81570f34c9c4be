//! Guards against fast motion that would jump across the barrier between two
//! pointer samples.

use crate::geometry::{contains, point_in_rect, Point, Rect};
use vstd::prelude::*;

verus! {

/// Number of equal parts into which the line between two samples is cut.
pub const PATH_STEPS: i64 = 10;

/// Motion below this many pixels on both axes is ignored.
pub const JITTER_LIMIT: i64 = 2;

/// `n / d` rounded toward zero (`d > 0`).
pub open spec fn trunc_div(n: int, d: int) -> int {
    if n >= 0 {
        n / d
    } else {
        -((-n) / d)
    }
}

/// The coordinate `i` tenths of the way from `a` to `b`, rounded toward zero.
pub open spec fn lerp(a: int, b: int, i: int) -> int {
    trunc_div(PATH_STEPS * a + (b - a) * i, PATH_STEPS as int)
}

/// The point `i` tenths of the way along the straight line from `start` to
/// `end`.
pub open spec fn path_point(start: Point, end: Point, i: int) -> Point {
    Point {
        x: lerp(start.x as int, end.x as int, i) as i32,
        y: lerp(start.y as int, end.y as int, i) as i32,
    }
}

/// Whether the point lies in the rectangle.
pub open spec fn inside(r: Rect, p: Point) -> bool {
    contains(r, p.x as int, p.y as int)
}

/// Both displacements are below the jitter limit.
pub open spec fn is_jitter(start: Point, end: Point) -> bool {
    -JITTER_LIMIT < end.x - start.x < JITTER_LIMIT && -JITTER_LIMIT < end.y - start.y
        < JITTER_LIMIT
}

/// Step `i` is the first of the ten at which the path is inside the barrier.
pub open spec fn first_hit(start: Point, end: Point, barrier: Rect, i: int) -> bool {
    &&& 1 <= i <= PATH_STEPS
    &&& inside(barrier, path_point(start, end, i))
    &&& forall|k: int| 1 <= k < i ==> !inside(barrier, #[trigger] path_point(start, end, k))
}

/// No step of the path is inside the barrier.
pub open spec fn path_clear(start: Point, end: Point, barrier: Rect) -> bool {
    forall|k: int| 1 <= k <= PATH_STEPS ==> !inside(barrier, #[trigger] path_point(start, end, k))
}

/// `p` is where a path that first hits the barrier at step `hit` is stopped:
/// the latest earlier step outside the buffer, or `start` where every earlier
/// step is within the buffer.
pub open spec fn safe_stop(start: Point, end: Point, buffer: Rect, hit: int, p: Point) -> bool {
    ||| exists|j: int|
        {
            &&& 0 <= j < hit
            &&& p == #[trigger] path_point(start, end, j)
            &&& !inside(buffer, p)
            &&& forall|k: int| j < k < hit ==> inside(buffer, #[trigger] path_point(start, end, k))
        }
    ||| {
        &&& p == start
        &&& forall|k: int| 0 <= k < hit ==> inside(buffer, #[trigger] path_point(start, end, k))
    }
}

/// The step at which a path that is not clear first enters the barrier.
pub open spec fn hit_step(start: Point, end: Point, barrier: Rect) -> int {
    choose|i: int| first_hit(start, end, barrier, i)
}

/// Some step before `hit` is outside the buffer.
pub open spec fn has_safe_step(start: Point, end: Point, buffer: Rect, hit: int) -> bool {
    exists|j: int| 0 <= j < hit && !inside(buffer, #[trigger] path_point(start, end, j))
}

/// Step `j` is the latest step before `hit` that is outside the buffer.
pub open spec fn last_safe_step(start: Point, end: Point, buffer: Rect, hit: int, j: int) -> bool {
    &&& 0 <= j < hit
    &&& !inside(buffer, path_point(start, end, j))
    &&& forall|k: int| j < k < hit ==> inside(buffer, #[trigger] path_point(start, end, k))
}

/// The position at which a path that first hits the barrier at step `hit`
/// is stopped.
pub open spec fn stop_before(start: Point, end: Point, buffer: Rect, hit: int) -> Point {
    if has_safe_step(start, end, buffer, hit) {
        path_point(start, end, choose|j: int| last_safe_step(start, end, buffer, hit, j))
    } else {
        start
    }
}

/// What the trajectory guard answers for the motion from `start` to `end`:
/// nothing for jitter and for a clear path, else the position at which the
/// motion is stopped.
pub open spec fn path_stop(start: Point, end: Point, barrier: Rect, buffer: Rect) -> Option<Point> {
    if is_jitter(start, end) || path_clear(start, end, barrier) {
        None
    } else {
        Some(stop_before(start, end, buffer, hit_step(start, end, barrier)))
    }
}

/// A path has at most one first hit.
pub proof fn lemma_first_hit_unique(start: Point, end: Point, barrier: Rect, i: int, j: int)
    requires
        first_hit(start, end, barrier, i),
        first_hit(start, end, barrier, j),
    ensures
        i == j,
{
    if i < j {
        assert(!inside(barrier, path_point(start, end, i)));
    } else if j < i {
        assert(!inside(barrier, path_point(start, end, j)));
    }
}

/// The stop described by `safe_stop` is the one that `stop_before` names.
pub proof fn lemma_safe_stop_unique(start: Point, end: Point, buffer: Rect, hit: int, p: Point)
    requires
        safe_stop(start, end, buffer, hit, p),
    ensures
        p == stop_before(start, end, buffer, hit),
{
    if has_safe_step(start, end, buffer, hit) {
        let w = choose|j: int| 0 <= j < hit && !inside(buffer, #[trigger] path_point(start, end, j));
        assert(!inside(buffer, path_point(start, end, w)));
        let j = choose|j: int|
            {
                &&& 0 <= j < hit
                &&& p == #[trigger] path_point(start, end, j)
                &&& !inside(buffer, p)
                &&& forall|k: int|
                    j < k < hit ==> inside(buffer, #[trigger] path_point(start, end, k))
            };
        assert(last_safe_step(start, end, buffer, hit, j));
        let c = choose|c: int| last_safe_step(start, end, buffer, hit, c);
        assert(last_safe_step(start, end, buffer, hit, c));
        if c < j {
            assert(inside(buffer, path_point(start, end, j)));
        } else if j < c {
            assert(inside(buffer, path_point(start, end, c)));
        }
    } else {
        if p != start {
            let j = choose|j: int|
                {
                    &&& 0 <= j < hit
                    &&& p == #[trigger] path_point(start, end, j)
                    &&& !inside(buffer, p)
                    &&& forall|k: int|
                        j < k < hit ==> inside(buffer, #[trigger] path_point(start, end, k))
                };
            assert(!inside(buffer, path_point(start, end, j)));
        }
    }
}

/// An interpolated coordinate lies between the two it was taken from, and
/// the ends of the path are the samples themselves.
pub proof fn lemma_lerp_between(a: int, b: int, i: int)
    requires
        0 <= i <= PATH_STEPS,
    ensures
        a <= b ==> a <= lerp(a, b, i) <= b,
        b <= a ==> b <= lerp(a, b, i) <= a,
        lerp(a, b, 0) == a,
        lerp(a, b, PATH_STEPS as int) == b,
{
    let n = 10 * a + (b - a) * i;
    assert(a <= b ==> 10 * a <= n <= 10 * b) by (nonlinear_arith)
        requires
            n == 10 * a + (b - a) * i,
            0 <= i <= 10,
    ;
    assert(b <= a ==> 10 * b <= n <= 10 * a) by (nonlinear_arith)
        requires
            n == 10 * a + (b - a) * i,
            0 <= i <= 10,
    ;
    assert((b - a) * 0 == 0);
    assert(10 * a + (b - a) * 10 == 10 * b);
}

/// The coordinate `i` tenths of the way from `a` to `b`.
pub fn interpolate(a: i32, b: i32, i: i64) -> (c: i32)
    requires
        0 <= i <= PATH_STEPS,
    ensures
        c == lerp(a as int, b as int, i as int),
{
    proof {
        lemma_lerp_between(a as int, b as int, i as int);
    }
    let d: i64 = b as i64 - a as i64;
    assert(-0x1_0000_0000 * 10 <= d * i <= 0x1_0000_0000 * 10) by (nonlinear_arith)
        requires
            -0x1_0000_0000 <= d <= 0x1_0000_0000,
            0 <= i <= 10,
    ;
    let n: i64 = PATH_STEPS * (a as i64) + d * i;
    if n >= 0 {
        (n / PATH_STEPS) as i32
    } else {
        (-((-n) / PATH_STEPS)) as i32
    }
}

/// The point `i` tenths of the way from `start` to `end`.
pub fn point_on_path(start: &Point, end: &Point, i: i64) -> (p: Point)
    requires
        0 <= i <= PATH_STEPS,
    ensures
        p == path_point(*start, *end, i as int),
{
    Point { x: interpolate(start.x, end.x, i), y: interpolate(start.y, end.y, i) }
}

/// Walks back from step `hit` to the latest step outside the buffer.
fn last_safe_point(start: &Point, end: &Point, buffer: &Rect, hit: i64) -> (p: Point)
    requires
        1 <= hit <= PATH_STEPS,
    ensures
        safe_stop(*start, *end, *buffer, hit as int, p),
{
    let mut j: i64 = hit;
    while j > 0
        invariant
            0 <= j <= hit <= PATH_STEPS,
            forall|k: int| j <= k < hit ==> inside(*buffer, #[trigger] path_point(*start, *end, k)),
        decreases j,
    {
        j = j - 1;
        let candidate = point_on_path(start, end, j);
        if !point_in_rect(&candidate, buffer) {
            return candidate;
        }
    }
    *start
}

/// Checks the straight line between two consecutive samples against the
/// barrier.
///
/// Returns nothing for jitter and for a path none of whose ten steps is
/// inside the barrier. Otherwise returns the position at which the motion
/// is to be stopped: the latest step before the first hit that is outside
/// the buffer, or `start` where there is none.
pub fn check_movement_path(start: &Point, end: &Point, barrier: &Rect, buffer: &Rect) -> (stop:
    Option<Point>)
    ensures
        stop.is_none() <==> is_jitter(*start, *end) || path_clear(*start, *end, *barrier),
        stop.is_some() ==> exists|hit: int| #[trigger]
            first_hit(*start, *end, *barrier, hit) && safe_stop(
                *start,
                *end,
                *buffer,
                hit,
                stop.unwrap(),
            ),
        stop.is_some() && !inside(*buffer, *start) ==> !inside(*buffer, stop.unwrap()),
        stop == path_stop(*start, *end, *barrier, *buffer),
{
    let dx: i64 = end.x as i64 - start.x as i64;
    let dy: i64 = end.y as i64 - start.y as i64;
    if -JITTER_LIMIT < dx && dx < JITTER_LIMIT && -JITTER_LIMIT < dy && dy < JITTER_LIMIT {
        return None;
    }
    let mut i: i64 = 1;
    while i <= PATH_STEPS
        invariant
            1 <= i <= PATH_STEPS + 1,
            !is_jitter(*start, *end),
            forall|k: int| 1 <= k < i ==> !inside(*barrier, #[trigger] path_point(*start, *end, k)),
        decreases PATH_STEPS + 1 - i,
    {
        let check_point = point_on_path(start, end, i);
        if point_in_rect(&check_point, barrier) {
            let p = last_safe_point(start, end, buffer, i);
            proof {
                assert(first_hit(*start, *end, *barrier, i as int));
                lemma_lerp_between(start.x as int, end.x as int, 0);
                lemma_lerp_between(start.y as int, end.y as int, 0);
                assert(path_point(*start, *end, 0) == *start);
                lemma_first_hit_unique(
                    *start,
                    *end,
                    *barrier,
                    i as int,
                    hit_step(*start, *end, *barrier),
                );
                lemma_safe_stop_unique(*start, *end, *buffer, i as int, p);
            }
            return Some(p);
        }
        i = i + 1;
    }
    None
}

/// Whether the position one step beyond `current`, by the displacement from
/// `last` to `current`, lies in the barrier.
pub open spec fn heads_into(last: Point, current: Point, barrier: Rect) -> bool {
    contains(barrier, 2 * current.x - last.x, 2 * current.y - last.y)
}

/// Extrapolates the motion by one step and tests the result against the
/// barrier.
pub fn predicted_in_barrier(last: &Point, current: &Point, barrier: &Rect) -> (hit: bool)
    ensures
        hit == heads_into(*last, *current, *barrier),
{
    let px: i64 = 2 * (current.x as i64) - last.x as i64;
    let py: i64 = 2 * (current.y as i64) - last.y as i64;
    px >= barrier.left && px < barrier.right && py >= barrier.top && py < barrier.bottom
}

} // verus!
