//! Cached screen size and the conversion from hook coordinates to the
//! coordinates that the cursor-positioning call expects.

use vstd::prelude::*;

verus! {

/// Width of the resolution that hook coordinates are assumed to be in.
pub const REFERENCE_WIDTH: i32 = 3840;

/// Height of the resolution that hook coordinates are assumed to be in.
pub const REFERENCE_HEIGHT: i32 = 2160;

/// The integer nearest to `n / d`, halves rounded away from zero (`d > 0`).
pub open spec fn round_div(n: int, d: int) -> int {
    if n >= 0 {
        (2 * n + d) / (2 * d)
    } else {
        -((2 * (-n) + d) / (2 * d))
    }
}

/// `v` limited to the interval `[lo, hi]`.
pub open spec fn clamp(v: int, lo: int, hi: int) -> int {
    if v < lo {
        lo
    } else if v > hi {
        hi
    } else {
        v
    }
}

/// A coordinate multiplied by the scale factor `dim / reference`, rounded to
/// the nearest integer.
pub open spec fn scaled(v: int, dim: int, reference: int) -> int {
    round_div(v * dim, reference)
}

/// Screen width and height in pixels, both at least 1.
#[derive(Clone, Copy, Debug)]
pub struct ScreenMetrics {
    width: i32,
    height: i32,
}

impl ScreenMetrics {
    /// Both dimensions are positive.
    #[verifier::type_invariant]
    pub closed spec fn wf(&self) -> bool {
        self.width >= 1 && self.height >= 1
    }

    pub closed spec fn spec_width(&self) -> int {
        self.width as int
    }

    pub closed spec fn spec_height(&self) -> int {
        self.height as int
    }

    /// Metrics for a screen of the given size; none where a dimension is not
    /// positive.
    pub fn new(width: i32, height: i32) -> (m: Option<ScreenMetrics>)
        ensures
            m.is_some() <==> (width >= 1 && height >= 1),
            m.is_some() ==> m.unwrap().wf() && m.unwrap().spec_width() == width
                && m.unwrap().spec_height() == height,
    {
        if width >= 1 && height >= 1 {
            Some(ScreenMetrics { width, height })
        } else {
            None
        }
    }

    /// A well-formed value has positive dimensions within `i32`.
    pub proof fn lemma_dimensions_positive(&self)
        requires
            self.wf(),
        ensures
            1 <= self.spec_width() <= i32::MAX,
            1 <= self.spec_height() <= i32::MAX,
    {
    }

    pub fn width(&self) -> (w: i32)
        ensures
            w == self.spec_width(),
            w >= 1,
            self.wf(),
    {
        proof {
            use_type_invariant(self);
        }
        self.width
    }

    pub fn height(&self) -> (h: i32)
        ensures
            h == self.spec_height(),
            h >= 1,
            self.wf(),
    {
        proof {
            use_type_invariant(self);
        }
        self.height
    }

    /// The horizontal position that stands for `x` in cursor-set space.
    pub open spec fn logical_x(&self, x: int) -> int {
        clamp(scaled(x, self.spec_width(), REFERENCE_WIDTH as int), 0, self.spec_width() - 1)
    }

    /// The vertical position that stands for `y` in cursor-set space.
    pub open spec fn logical_y(&self, y: int) -> int {
        clamp(scaled(y, self.spec_height(), REFERENCE_HEIGHT as int), 0, self.spec_height() - 1)
    }

    /// Whether hook space and cursor-set space coincide.
    pub open spec fn is_reference(&self) -> bool {
        self.spec_width() == REFERENCE_WIDTH && self.spec_height() == REFERENCE_HEIGHT
    }

    /// A hook-space x multiplied by `width / 3840` and rounded.
    pub open spec fn scaled_x(&self, x: int) -> int {
        scaled(x, self.spec_width(), REFERENCE_WIDTH as int)
    }

    /// A hook-space y multiplied by `height / 2160` and rounded.
    pub open spec fn scaled_y(&self, y: int) -> int {
        scaled(y, self.spec_height(), REFERENCE_HEIGHT as int)
    }

    /// Scales a horizontal hook-space quantity into cursor-set space.
    pub fn scale_x(&self, x: i64) -> (s: i64)
        requires
            -COORD_LIMIT <= x <= COORD_LIMIT,
        ensures
            s == self.scaled_x(x as int),
            -SCALED_LIMIT <= s <= SCALED_LIMIT,
    {
        scale_by(x, self.width(), REFERENCE_WIDTH)
    }

    /// Scales a vertical hook-space quantity into cursor-set space.
    pub fn scale_y(&self, y: i64) -> (s: i64)
        requires
            -COORD_LIMIT <= y <= COORD_LIMIT,
        ensures
            s == self.scaled_y(y as int),
            -SCALED_LIMIT <= s <= SCALED_LIMIT,
    {
        scale_by(y, self.height(), REFERENCE_HEIGHT)
    }

    /// Converts a hook-space x to cursor-set space: scaled by
    /// `width / 3840`, rounded, and kept on the screen.
    pub fn to_logical_x(&self, x: i64) -> (lx: i32)
        ensures
            lx == self.logical_x(x as int),
            0 <= lx < self.spec_width(),
    {
        let w: i32 = self.width();
        proof {
            lemma_scaled_outside(x as int, w as int, REFERENCE_WIDTH as int);
        }
        if x <= 0 {
            0
        } else if x >= REFERENCE_WIDTH as i64 {
            w - 1
        } else {
            clamp_to_screen(scale_by(x, w, REFERENCE_WIDTH), w)
        }
    }

    /// Converts a hook-space y to cursor-set space: scaled by
    /// `height / 2160`, rounded, and kept on the screen.
    pub fn to_logical_y(&self, y: i64) -> (ly: i32)
        ensures
            ly == self.logical_y(y as int),
            0 <= ly < self.spec_height(),
    {
        let h: i32 = self.height();
        proof {
            lemma_scaled_outside(y as int, h as int, REFERENCE_HEIGHT as int);
        }
        if y <= 0 {
            0
        } else if y >= REFERENCE_HEIGHT as i64 {
            h - 1
        } else {
            clamp_to_screen(scale_by(y, h, REFERENCE_HEIGHT), h)
        }
    }
}

/// The largest magnitude of a coordinate that can be scaled.
pub const COORD_LIMIT: i64 = 0x100_0000_0000;

/// A bound on the magnitude of every scaled coordinate.
pub const SCALED_LIMIT: i64 = 0x1000_0000_0000_0000;

/// With identical dimension and reference, scaling changes nothing.
pub proof fn lemma_scaled_identity(v: int, d: int)
    requires
        d >= 1,
    ensures
        scaled(v, d, d) == v,
{
    if v >= 0 {
        assert((2 * (v * d) + d) / (2 * d) == v) by (nonlinear_arith)
            requires
                d >= 1,
                v >= 0,
        ;
    } else {
        assert(v * d < 0) by (nonlinear_arith)
            requires
                d >= 1,
                v < 0,
        ;
        assert((2 * (-(v * d)) + d) / (2 * d) == -v) by (nonlinear_arith)
            requires
                d >= 1,
                v < 0,
        ;
    }
}

/// Scaling keeps the order of coordinates.
pub proof fn lemma_scaled_monotonic(a: int, b: int, dim: int, reference: int)
    requires
        a <= b,
        dim >= 1,
        reference >= 1,
    ensures
        scaled(a, dim, reference) <= scaled(b, dim, reference),
{
    lemma_scaled_outside(a, dim, reference);
    lemma_scaled_outside(b, dim, reference);
    let na = a * dim;
    let nb = b * dim;
    assert(na <= nb) by (nonlinear_arith)
        requires
            na == a * dim,
            nb == b * dim,
            a <= b,
            dim >= 1,
    ;
    if na >= 0 {
        assert((2 * na + reference) / (2 * reference) <= (2 * nb + reference) / (2 * reference))
            by (nonlinear_arith)
            requires
                na <= nb,
                reference >= 1,
        ;
    } else if nb < 0 {
        assert((2 * (-nb) + reference) / (2 * reference) <= (2 * (-na) + reference) / (2
            * reference)) by (nonlinear_arith)
            requires
                na <= nb,
                reference >= 1,
        ;
    } else {
        assert(a < 0) by (nonlinear_arith)
            requires
                na == a * dim,
                na < 0,
                dim >= 1,
        ;
        assert(b >= 0) by (nonlinear_arith)
            requires
                nb == b * dim,
                nb >= 0,
                dim >= 1,
        ;
    }
}

/// Scaling keeps the sign, and takes a coordinate at or beyond the
/// reference to one at or beyond the dimension.
pub proof fn lemma_scaled_outside(v: int, dim: int, reference: int)
    requires
        dim >= 1,
        reference >= 1,
    ensures
        v <= 0 ==> scaled(v, dim, reference) <= 0,
        v >= 0 ==> scaled(v, dim, reference) >= 0,
        v >= reference ==> scaled(v, dim, reference) >= dim,
{
    let n = v * dim;
    assert(v <= 0 ==> n <= 0) by (nonlinear_arith)
        requires
            n == v * dim,
            dim >= 1,
    ;
    assert(v >= 0 ==> n >= 0) by (nonlinear_arith)
        requires
            n == v * dim,
            dim >= 1,
    ;
    assert(v >= reference ==> n >= reference * dim) by (nonlinear_arith)
        requires
            n == v * dim,
            dim >= 1,
    ;
    if n >= 0 {
        assert((2 * n + reference) / (2 * reference) >= 0) by (nonlinear_arith)
            requires
                n >= 0,
                reference >= 1,
        ;
        if n == 0 {
            assert((2 * n + reference) / (2 * reference) == 0) by (nonlinear_arith)
                requires
                    n == 0,
                    reference >= 1,
            ;
        }
        if v >= reference {
            assert((2 * n + reference) / (2 * reference) >= dim) by (nonlinear_arith)
                requires
                    n >= reference * dim,
                    reference >= 1,
                    dim >= 1,
            ;
        }
    } else {
        assert((2 * (-n) + reference) / (2 * reference) >= 0) by (nonlinear_arith)
            requires
                n < 0,
                reference >= 1,
        ;
    }
}

/// `v * dim / reference`, rounded to the nearest integer, halves away from
/// zero.
fn scale_by(v: i64, dim: i32, reference: i32) -> (s: i64)
    requires
        -COORD_LIMIT <= v <= COORD_LIMIT,
        dim >= 1,
        reference >= 2048,
    ensures
        s == scaled(v as int, dim as int, reference as int),
        -SCALED_LIMIT <= s <= SCALED_LIMIT,
{
    let d: i128 = reference as i128;
    assert(-0x100_0000_0000 * 0x8000_0000 <= v * dim <= 0x100_0000_0000 * 0x8000_0000)
        by (nonlinear_arith)
        requires
            -0x100_0000_0000 <= v <= 0x100_0000_0000,
            1 <= dim <= 0x7fff_ffff,
    ;
    let n: i128 = (v as i128) * (dim as i128);
    if n >= 0 {
        let q: i128 = (2 * n + d) / (2 * d);
        assert(0 <= q <= 0x1000_0000_0000_0000) by (nonlinear_arith)
            requires
                q == (2 * n + d) / (2 * d),
                0 <= n <= 0x100_0000_0000 * 0x8000_0000,
                d >= 2048,
        ;
        q as i64
    } else {
        let m: i128 = -n;
        let q: i128 = (2 * m + d) / (2 * d);
        assert(0 <= q <= 0x1000_0000_0000_0000) by (nonlinear_arith)
            requires
                q == (2 * m + d) / (2 * d),
                0 <= m <= 0x100_0000_0000 * 0x8000_0000,
                d >= 2048,
        ;
        (-q) as i64
    }
}

/// Keeps a scaled coordinate within `[0, dim - 1]`.
pub fn clamp_to_screen(v: i64, dim: i32) -> (c: i32)
    requires
        dim >= 1,
    ensures
        c == clamp(v as int, 0, dim - 1),
        0 <= c < dim,
{
    if v < 0 {
        0
    } else if v > (dim - 1) as i64 {
        dim - 1
    } else {
        v as i32
    }
}

} // verus!
