//! Rectangles in absolute screen pixels and the transforms applied to them
//! before a window is placed.
use vstd::prelude::*;

verus! {

/// A rectangle in absolute screen pixels.
#[derive(Debug, Clone, Copy, PartialEq, Eq, Structural, Hash, Default)]
pub struct Region {
    pub x: u32,
    pub y: u32,
    pub w: u32,
    pub h: u32,
}

/// A point in absolute screen pixels.
#[derive(Debug, Clone, Copy, PartialEq, Eq, Structural, Hash, Default)]
pub struct Point {
    pub x: u32,
    pub y: u32,
}

impl Point {
    pub fn new(x: u32, y: u32) -> (r: Point)
        ensures
            r == (Point { x, y }),
    {
        Point { x, y }
    }
}

/// `a + b`, held at `u32::MAX` where it would not fit.
pub open spec fn sat_add(a: u32, b: u32) -> u32 {
    if a + b > u32::MAX {
        u32::MAX
    } else {
        (a + b) as u32
    }
}

/// Total padding taken off each dimension: a border on both sides, and a gap
/// on both sides unless the layout is gapless.
pub open spec fn padding_of(gapless: bool, gap_px: u32, border_px: u32) -> int {
    2 * (border_px + effective_gap(gapless, gap_px))
}

pub open spec fn effective_gap(gapless: bool, gap_px: u32) -> u32 {
    if gapless {
        0
    } else {
        gap_px
    }
}

/// The region that a tiled window is placed in once gaps and borders are
/// taken off; a region too small to pad is kept as it is.
pub open spec fn spec_pad_region(r: Region, gapless: bool, gap_px: u32, border_px: u32) -> Region {
    let g = effective_gap(gapless, gap_px);
    let p = padding_of(gapless, gap_px, border_px);
    if r.w <= p || r.h <= p {
        r
    } else {
        Region { x: sat_add(r.x, g), y: sat_add(r.y, g), w: (r.w - p) as u32, h: (r.h - p) as u32 }
    }
}

/// Where a floating window with geometry `g` goes on a screen whose region is
/// `screen`: never above or left of the screen's origin, and shrunk by the
/// border on each side when it is large enough to lose it.
pub open spec fn spec_floating_region(g: Region, screen: Region, border_px: u32) -> Region {
    let x = if g.x < screen.x { screen.x } else { g.x };
    let y = if g.y < screen.y { screen.y } else { g.y };
    if g.w >= 2 * border_px && g.h >= 2 * border_px {
        Region {
            x: sat_add(x, border_px),
            y: sat_add(y, border_px),
            w: (g.w - 2 * border_px) as u32,
            h: (g.h - 2 * border_px) as u32,
        }
    } else {
        Region { x, y, w: g.w, h: g.h }
    }
}

impl Region {
    /// A region lies in the coordinate space when its far edges fit in `u32`.
    pub open spec fn wf(&self) -> bool {
        self.x + self.w <= u32::MAX && self.y + self.h <= u32::MAX
    }

    pub fn new(x: u32, y: u32, w: u32, h: u32) -> (r: Region)
        ensures
            r == (Region { x, y, w, h }),
    {
        Region { x, y, w, h }
    }

    /// The fields as a tuple: (x, y, w, h).
    pub fn values(&self) -> (r: (u32, u32, u32, u32))
        ensures
            r == (self.x, self.y, self.w, self.h),
    {
        (self.x, self.y, self.w, self.h)
    }
}

fn add_saturating(a: u32, b: u32) -> (r: u32)
    ensures
        r == sat_add(a, b),
{
    if a > u32::MAX - b {
        u32::MAX
    } else {
        a + b
    }
}

/// Take the gap and border off each side of `region`. Where either dimension
/// is no larger than the padding, `region` comes back unchanged, so that no
/// placed window gets a zero or negative size.
pub fn pad_region(region: &Region, gapless: bool, gap_px: u32, border_px: u32) -> (r: Region)
    ensures
        r == spec_pad_region(*region, gapless, gap_px, border_px),
{
    let gpx: u32 = if gapless { 0 } else { gap_px };
    let padding: u64 = 2 * (border_px as u64 + gpx as u64);
    let (x, y, w, h) = region.values();
    if w as u64 <= padding || h as u64 <= padding {
        return *region;
    }
    let p = padding as u32;
    Region::new(add_saturating(x, gpx), add_saturating(y, gpx), w - p, h - p)
}

/// The pure part of positioning a floating window: see `spec_floating_region`.
pub fn floating_region(geometry: Region, screen_region: Region, border_px: u32) -> (r: Region)
    ensures
        r == spec_floating_region(geometry, screen_region, border_px),
{
    let (mut x, mut y, w, h) = geometry.values();
    let (sx, sy, _, _) = screen_region.values();
    x = if x < sx { sx } else { x };
    y = if y < sy { sy } else { y };
    let b2: u64 = 2 * (border_px as u64);
    if w as u64 >= b2 && h as u64 >= b2 {
        let b2 = b2 as u32;
        Region::new(add_saturating(x, border_px), add_saturating(y, border_px), w - b2, h - b2)
    } else {
        Region::new(x, y, w, h)
    }
}

/// With room to spare, padding moves the origin in by the gap and takes the
/// whole padding off each dimension.
pub proof fn lemma_pad_shrinks(r: Region, gap: u32, border: u32)
    requires
        r.wf(),
        r.w > 2 * (border + gap),
        r.h > 2 * (border + gap),
    ensures
        spec_pad_region(r, false, gap, border) == (Region {
            x: (r.x + gap) as u32,
            y: (r.y + gap) as u32,
            w: (r.w - 2 * (border + gap)) as u32,
            h: (r.h - 2 * (border + gap)) as u32,
        }),
{
}

/// A region with a dimension no larger than twice the border plus gap is left
/// as it is. A gapless layout pads by the border alone, so for it this holds
/// where a dimension is also no larger than twice the border.
pub proof fn lemma_pad_keeps_small(r: Region, gapless: bool, gap: u32, border: u32)
    requires
        r.w <= 2 * (border + gap) || r.h <= 2 * (border + gap),
        gapless ==> (r.w <= 2 * border || r.h <= 2 * border),
    ensures
        spec_pad_region(r, gapless, gap, border) == r,
{
}

/// A gapless layout pads exactly as a layout with a zero gap does.
pub proof fn lemma_gapless_is_zero_gap(r: Region, gap: u32, border: u32)
    ensures
        spec_pad_region(r, true, gap, border) == spec_pad_region(r, false, 0, border),
{
}

} // verus!
