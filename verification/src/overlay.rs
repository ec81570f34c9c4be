//! The translucent regions that mark the buffer zone on screen: one on each
//! side of the barrier, in cursor-set coordinates.

use crate::geometry::Rect;
use crate::metrics::{lemma_scaled_monotonic, ScreenMetrics};
use vstd::prelude::*;

verus! {

/// The side of the barrier on which an overlay lies, in the order in which
/// overlays are made.
#[derive(Clone, Copy, Debug, PartialEq, Eq, Structural)]
pub enum OverlaySide {
    Top,
    Bottom,
    Left,
    Right,
}

/// One overlay: its side, its top-left corner and its extent.
#[derive(Clone, Copy, Debug, PartialEq, Eq, Structural)]
pub struct OverlayRegion {
    pub side: OverlaySide,
    pub x: i64,
    pub y: i64,
    pub width: i64,
    pub height: i64,
}

/// An overlay as mathematical integers.
pub struct OverlayFrame {
    pub side: OverlaySide,
    pub x: int,
    pub y: int,
    pub width: int,
    pub height: int,
}

impl View for OverlayRegion {
    type V = OverlayFrame;

    open spec fn view(&self) -> OverlayFrame {
        OverlayFrame {
            side: self.side,
            x: self.x as int,
            y: self.y as int,
            width: self.width as int,
            height: self.height as int,
        }
    }
}

impl OverlayFrame {
    /// An overlay is shown only where both extents are positive.
    pub open spec fn is_visible(&self) -> bool {
        self.width > 0 && self.height > 0
    }

    /// Whether the pixel `(px, py)` belongs to the overlay.
    pub open spec fn covers(&self, px: int, py: int) -> bool {
        self.x <= px < self.x + self.width && self.y <= py < self.y + self.height
    }
}

pub open spec fn min(a: int, b: int) -> int {
    if a <= b {
        a
    } else {
        b
    }
}

pub open spec fn max(a: int, b: int) -> int {
    if a >= b {
        a
    } else {
        b
    }
}

/// The barrier and its buffer in cursor-set space, the buffer cut to the
/// screen.
pub struct ScaledBarrier {
    pub left: int,
    pub top: int,
    pub right: int,
    pub bottom: int,
    pub zone_left: int,
    pub zone_top: int,
    pub zone_right: int,
    pub zone_bottom: int,
}

/// Scales the barrier's edges and the margin, the margin by the horizontal
/// factor on both axes, and cuts the buffer to the screen.
pub open spec fn scaled_barrier(region: Rect, margin: int, m: ScreenMetrics) -> ScaledBarrier {
    let left = m.scaled_x(region.left as int);
    let top = m.scaled_y(region.top as int);
    let right = m.scaled_x(region.right as int);
    let bottom = m.scaled_y(region.bottom as int);
    let gap = m.scaled_x(margin);
    ScaledBarrier {
        left,
        top,
        right,
        bottom,
        zone_left: max(left - gap, 0),
        zone_top: max(top - gap, 0),
        zone_right: min(right + gap, m.spec_width()),
        zone_bottom: min(bottom + gap, m.spec_height()),
    }
}

/// The overlay on one side of the barrier, before the test for visibility.
pub open spec fn overlay_on(b: ScaledBarrier, side: OverlaySide) -> OverlayFrame {
    match side {
        OverlaySide::Top => OverlayFrame {
            side,
            x: b.zone_left,
            y: b.zone_top,
            width: b.zone_right - b.zone_left,
            height: b.top - b.zone_top,
        },
        OverlaySide::Bottom => OverlayFrame {
            side,
            x: b.zone_left,
            y: b.bottom,
            width: b.zone_right - b.zone_left,
            height: b.zone_bottom - b.bottom,
        },
        OverlaySide::Left => OverlayFrame {
            side,
            x: b.zone_left,
            y: b.top,
            width: b.left - b.zone_left,
            height: b.bottom - b.top,
        },
        OverlaySide::Right => OverlayFrame {
            side,
            x: b.right,
            y: b.top,
            width: b.zone_right - b.right,
            height: b.bottom - b.top,
        },
    }
}

/// The frame alone where it is visible, nothing where it is not.
pub open spec fn shown(f: OverlayFrame) -> Seq<OverlayFrame> {
    if f.is_visible() {
        seq![f]
    } else {
        Seq::empty()
    }
}

/// The overlays for a barrier: top, bottom, left, right, the invisible ones
/// left out.
pub open spec fn overlay_frames(region: Rect, margin: int, m: ScreenMetrics) -> Seq<OverlayFrame> {
    let b = scaled_barrier(region, margin, m);
    shown(overlay_on(b, OverlaySide::Top)) + shown(overlay_on(b, OverlaySide::Bottom)) + shown(
        overlay_on(b, OverlaySide::Left),
    ) + shown(overlay_on(b, OverlaySide::Right))
}

/// Adds the overlay to the list where it is visible.
fn push_if_visible(
    list: &mut Vec<OverlayRegion>,
    side: OverlaySide,
    x: i64,
    y: i64,
    width: i64,
    height: i64,
)
    ensures
        final(list)@ == if width > 0 && height > 0 {
            old(list)@.push(OverlayRegion { side, x, y, width, height })
        } else {
            old(list)@
        },
{
    if width > 0 && height > 0 {
        list.push(OverlayRegion { side, x, y, width, height });
    }
}

/// Computes the overlays to show for `region` with a buffer of
/// `buffer_zone` pixels: up to four, each with positive extent.
pub fn overlay_regions(region: &Rect, buffer_zone: i32, metrics: &ScreenMetrics) -> (regions: Vec<
    OverlayRegion,
>)
    requires
        region.is_bounded(),
    ensures
        regions@.len() == overlay_frames(*region, buffer_zone as int, *metrics).len(),
        forall|i: int|
            0 <= i < regions@.len() ==> (#[trigger] regions@[i])@ == overlay_frames(
                *region,
                buffer_zone as int,
                *metrics,
            )[i],
        regions@.len() <= 4,
        forall|i: int| 0 <= i < regions@.len() ==> (#[trigger] regions@[i])@.is_visible(),
{
    let width: i64 = metrics.width() as i64;
    let height: i64 = metrics.height() as i64;
    let left: i64 = metrics.scale_x(region.left);
    let top: i64 = metrics.scale_y(region.top);
    let right: i64 = metrics.scale_x(region.right);
    let bottom: i64 = metrics.scale_y(region.bottom);
    let gap: i64 = metrics.scale_x(buffer_zone as i64);
    let zone_left: i64 = if left - gap > 0 {
        left - gap
    } else {
        0
    };
    let zone_top: i64 = if top - gap > 0 {
        top - gap
    } else {
        0
    };
    let zone_right: i64 = if right + gap < width {
        right + gap
    } else {
        width
    };
    let zone_bottom: i64 = if bottom + gap < height {
        bottom + gap
    } else {
        height
    };
    let ghost b = scaled_barrier(*region, buffer_zone as int, *metrics);
    let ghost f0 = overlay_on(b, OverlaySide::Top);
    let ghost f1 = overlay_on(b, OverlaySide::Bottom);
    let ghost f2 = overlay_on(b, OverlaySide::Left);
    let ghost f3 = overlay_on(b, OverlaySide::Right);
    let mut regions: Vec<OverlayRegion> = Vec::new();
    push_if_visible(
        &mut regions,
        OverlaySide::Top,
        zone_left,
        zone_top,
        zone_right - zone_left,
        top - zone_top,
    );
    assert(regions@.len() == shown(f0).len());
    assert(forall|i: int| 0 <= i < regions@.len() ==> (#[trigger] regions@[i])@ == shown(f0)[i]);
    push_if_visible(
        &mut regions,
        OverlaySide::Bottom,
        zone_left,
        bottom,
        zone_right - zone_left,
        zone_bottom - bottom,
    );
    assert(regions@.len() == (shown(f0) + shown(f1)).len());
    assert(forall|i: int|
        0 <= i < regions@.len() ==> (#[trigger] regions@[i])@ == (shown(f0) + shown(f1))[i]);
    push_if_visible(
        &mut regions,
        OverlaySide::Left,
        zone_left,
        top,
        left - zone_left,
        bottom - top,
    );
    assert(regions@.len() == (shown(f0) + shown(f1) + shown(f2)).len());
    assert(forall|i: int|
        0 <= i < regions@.len() ==> (#[trigger] regions@[i])@ == (shown(f0) + shown(f1) + shown(
            f2,
        ))[i]);
    push_if_visible(
        &mut regions,
        OverlaySide::Right,
        right,
        top,
        zone_right - right,
        bottom - top,
    );
    assert(regions@.len() == (shown(f0) + shown(f1) + shown(f2) + shown(f3)).len());
    assert(forall|i: int|
        0 <= i < regions@.len() ==> (#[trigger] regions@[i])@ == (shown(f0) + shown(f1) + shown(f2)
            + shown(f3))[i]);
    regions
}

/// No visible overlay covers a pixel of the scaled barrier, and no two
/// overlays of a proper barrier share a pixel.
pub proof fn lemma_overlays_apart(
    region: Rect,
    margin: int,
    m: ScreenMetrics,
    s: OverlaySide,
    t: OverlaySide,
    px: int,
    py: int,
)
    requires
        m.wf(),
        region.left <= region.right,
        region.top <= region.bottom,
    ensures
        ({
            let b = scaled_barrier(region, margin, m);
            &&& overlay_on(b, s).is_visible() && overlay_on(b, s).covers(px, py) ==> !(b.left <= px
                < b.right && b.top <= py < b.bottom)
            &&& s != t && overlay_on(b, s).is_visible() && overlay_on(b, t).is_visible()
                ==> !(overlay_on(b, s).covers(px, py) && overlay_on(b, t).covers(px, py))
        }),
{
    m.lemma_dimensions_positive();
    lemma_scaled_monotonic(
        region.left as int,
        region.right as int,
        m.spec_width(),
        crate::metrics::REFERENCE_WIDTH as int,
    );
    lemma_scaled_monotonic(
        region.top as int,
        region.bottom as int,
        m.spec_height(),
        crate::metrics::REFERENCE_HEIGHT as int,
    );
}

} // verus!
