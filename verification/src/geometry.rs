//! Points and rectangles in the display's native, top-left-origin system.

use vstd::prelude::*;

verus! {

/// A pointer position in native coordinates.
#[derive(Clone, Copy, Debug, PartialEq, Eq, Structural)]
pub struct Point {
    pub x: i32,
    pub y: i32,
}

/// A rectangle given by its four edges; `left` and `top` belong to it,
/// `right` and `bottom` do not. Edges are wider than coordinates so that a
/// region built from any 32-bit configuration, and its buffer, can be held.
#[derive(Clone, Copy, Debug, PartialEq, Eq, Structural)]
pub struct Rect {
    pub left: i64,
    pub top: i64,
    pub right: i64,
    pub bottom: i64,
}

/// The largest magnitude of an edge on which the rectangle operations work.
pub const EDGE_LIMIT: i64 = 0x100_0000_0000;

/// A bound on the magnitude of the edges of a converted region.
pub const COMPACT_LIMIT: i64 = 0x2_0000_0000;

/// Whether the point `(x, y)` lies in the half-open rectangle `r`.
pub open spec fn contains(r: Rect, x: int, y: int) -> bool {
    r.left <= x < r.right && r.top <= y < r.bottom
}

/// The region that a bottom-left-origin description `(x, y, width, height)`
/// denotes in the native system: `y` is the bottom edge.
pub open spec fn region_of(x: int, y: int, width: int, height: int) -> (int, int, int, int) {
    (x, y - height, x + width, y)
}

/// The rectangle `r` grown by `margin` on all four sides.
pub open spec fn expanded(r: Rect, margin: int) -> (int, int, int, int) {
    (r.left - margin, r.top - margin, r.right + margin, r.bottom + margin)
}

/// The rectangle `r` grown by `margin` on all four sides, as a rectangle.
pub open spec fn grown(r: Rect, margin: int) -> Rect {
    Rect {
        left: (r.left - margin) as i64,
        top: (r.top - margin) as i64,
        right: (r.right + margin) as i64,
        bottom: (r.bottom + margin) as i64,
    }
}

impl Rect {
    /// The four edges as mathematical integers: left, top, right, bottom.
    pub open spec fn edges(&self) -> (int, int, int, int) {
        (self.left as int, self.top as int, self.right as int, self.bottom as int)
    }

    /// A rectangle with positive width and height.
    pub open spec fn is_proper(&self) -> bool {
        self.left < self.right && self.top < self.bottom
    }

    /// Every edge is small enough that margins and push distances of 32 bits
    /// can be added to it many times over.
    pub open spec fn is_bounded(&self) -> bool {
        &&& -EDGE_LIMIT <= self.left <= EDGE_LIMIT
        &&& -EDGE_LIMIT <= self.top <= EDGE_LIMIT
        &&& -EDGE_LIMIT <= self.right <= EDGE_LIMIT
        &&& -EDGE_LIMIT <= self.bottom <= EDGE_LIMIT
    }

    /// Every edge is within the range that a region converted from a 32-bit
    /// description can have.
    pub open spec fn is_compact(&self) -> bool {
        &&& -COMPACT_LIMIT <= self.left <= COMPACT_LIMIT
        &&& -COMPACT_LIMIT <= self.top <= COMPACT_LIMIT
        &&& -COMPACT_LIMIT <= self.right <= COMPACT_LIMIT
        &&& -COMPACT_LIMIT <= self.bottom <= COMPACT_LIMIT
    }

    /// Whether `other` lies wholly within this rectangle.
    pub open spec fn encloses(&self, other: Rect) -> bool {
        self.left <= other.left && self.top <= other.top && other.right <= self.right
            && other.bottom <= self.bottom
    }
}

/// Half-open membership test: the minimum edges count as inside, the
/// maximum edges do not.
pub fn point_in_rect(point: &Point, rect: &Rect) -> (inside: bool)
    ensures
        inside == contains(*rect, point.x as int, point.y as int),
{
    let x: i64 = point.x as i64;
    let y: i64 = point.y as i64;
    x >= rect.left && x < rect.right && y >= rect.top && y < rect.bottom
}

/// Flips a bottom-left-origin description into the native system.
pub fn convert_origin(x: i32, y: i32, width: i32, height: i32) -> (region: Rect)
    ensures
        region.edges() == region_of(x as int, y as int, width as int, height as int),
        region.is_compact(),
{
    Rect {
        left: x as i64,
        top: y as i64 - height as i64,
        right: x as i64 + width as i64,
        bottom: y as i64,
    }
}

/// Inflates `region` by `margin` on every side.
pub fn expand(region: &Rect, margin: i32) -> (zone: Rect)
    requires
        region.is_bounded(),
    ensures
        zone.edges() == expanded(*region, margin as int),
        zone == grown(*region, margin as int),
        region.is_compact() ==> zone.is_bounded(),
{
    let m: i64 = margin as i64;
    Rect {
        left: region.left - m,
        top: region.top - m,
        right: region.right + m,
        bottom: region.bottom + m,
    }
}

/// A converted region is proper exactly when the configured width and height
/// are positive.
pub proof fn lemma_converted_region_proper(x: i32, y: i32, width: i32, height: i32, region: Rect)
    requires
        region.edges() == region_of(x as int, y as int, width as int, height as int),
    ensures
        region.is_proper() <==> (width > 0 && height > 0),
        region.is_bounded(),
{
}

/// A buffer zone made with a non-negative margin contains its region, and
/// so every point of the region lies in the zone.
pub proof fn lemma_buffer_contains_region(region: Rect, margin: i32, zone: Rect)
    requires
        margin >= 0,
        zone.edges() == expanded(region, margin as int),
    ensures
        zone.encloses(region),
        forall|x: int, y: int| contains(region, x, y) ==> contains(zone, x, y),
{
}

} // verus!
