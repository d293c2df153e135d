//! The output image: its fixed capacity, the per-frame viewport, and the
//! workgroup grid that covers a viewport.
use vstd::prelude::*;

verus! {

/// Width in pixels of the texture that the compute stage writes.
pub const OUTPUT_TEXTURE_WIDTH: u32 = 1920;

/// Height in pixels of the texture that the compute stage writes.
pub const OUTPUT_TEXTURE_HEIGHT: u32 = 1080;

/// Edge length in pixels of the square tile that one workgroup covers.
pub const WORKGROUP_TILE: u32 = 16;

/// A size in whole pixels.
#[derive(Clone, Copy, Debug, PartialEq, Eq, Structural)]
pub struct Extent {
    pub width: u32,
    pub height: u32,
}

/// The number of workgroups dispatched along each axis.
#[derive(Clone, Copy, Debug, PartialEq, Eq, Structural)]
pub struct WorkgroupGrid {
    pub x: u32,
    pub y: u32,
    pub z: u32,
}

/// The smaller of two lengths.
pub open spec fn least(a: u32, b: u32) -> u32 {
    if a <= b {
        a
    } else {
        b
    }
}

/// The capacity of the output texture: its width and height.
pub open spec fn capacity() -> Extent {
    Extent { width: OUTPUT_TEXTURE_WIDTH, height: OUTPUT_TEXTURE_HEIGHT }
}

/// The capacity of the output texture.
pub fn output_texture_dimensions() -> (r: Extent)
    ensures
        r == capacity(),
{
    Extent { width: OUTPUT_TEXTURE_WIDTH, height: OUTPUT_TEXTURE_HEIGHT }
}

impl Extent {
    /// Both components are at most those of `bound`.
    pub open spec fn fits_in(self, bound: Extent) -> bool {
        self.width <= bound.width && self.height <= bound.height
    }

    /// Both components are at least those of `bound`.
    pub open spec fn covers(self, bound: Extent) -> bool {
        self.width >= bound.width && self.height >= bound.height
    }

    /// The componentwise minimum of `self` and `bound`.
    pub open spec fn clamped(self, bound: Extent) -> Extent {
        Extent { width: least(self.width, bound.width), height: least(self.height, bound.height) }
    }

    /// The grid of whole tiles of edge `tile` that lie inside `self`.
    pub open spec fn tiles(self, tile: u32) -> WorkgroupGrid
        recommends
            tile > 0,
    {
        WorkgroupGrid { x: (self.width / tile) as u32, y: (self.height / tile) as u32, z: 1 }
    }

    pub fn new(width: u32, height: u32) -> (r: Extent)
        ensures
            r == (Extent { width, height }),
    {
        Extent { width, height }
    }

    /// Limits each component to the matching component of `bound`.
    pub fn clamp_to(self, bound: Extent) -> (r: Extent)
        ensures
            r == self.clamped(bound),
            r.fits_in(bound),
            r.fits_in(self),
            self.fits_in(bound) ==> r == self,
            self.covers(bound) ==> r == bound,
    {
        let width: u32 = if self.width <= bound.width { self.width } else { bound.width };
        let height: u32 = if self.height <= bound.height { self.height } else { bound.height };
        Extent { width, height }
    }
}

/// The viewport that a frame uses for a requested size: the request limited
/// to the capacity of the output texture.
pub fn effective_size(requested: Extent) -> (r: Extent)
    ensures
        r == requested.clamped(capacity()),
{
    requested.clamp_to(output_texture_dimensions())
}

/// The workgroup grid for a requested size: one workgroup per whole tile of
/// the effective size, in a single layer.
pub fn dispatch_grid(requested: Extent) -> (r: WorkgroupGrid)
    ensures
        r == requested.clamped(capacity()).tiles(WORKGROUP_TILE),
        r.x == least(requested.width, OUTPUT_TEXTURE_WIDTH) / WORKGROUP_TILE,
        r.y == least(requested.height, OUTPUT_TEXTURE_HEIGHT) / WORKGROUP_TILE,
        r.z == 1,
        r.x <= OUTPUT_TEXTURE_WIDTH / WORKGROUP_TILE,
        r.y <= OUTPUT_TEXTURE_HEIGHT / WORKGROUP_TILE,
{
    let size = effective_size(requested);
    WorkgroupGrid { x: size.width / WORKGROUP_TILE, y: size.height / WORKGROUP_TILE, z: 1 }
}

/// Inside the capacity the grid counts the whole tiles of the viewport
/// itself, and an axis of length zero gets no workgroups.
pub proof fn dispatch_grid_within_capacity(s: Extent)
    requires
        s.fits_in(capacity()),
    ensures
        s.clamped(capacity()).tiles(WORKGROUP_TILE).x == s.width / WORKGROUP_TILE,
        s.clamped(capacity()).tiles(WORKGROUP_TILE).y == s.height / WORKGROUP_TILE,
        s.width == 0 ==> s.clamped(capacity()).tiles(WORKGROUP_TILE).x == 0,
        s.height == 0 ==> s.clamped(capacity()).tiles(WORKGROUP_TILE).y == 0,
{
}

/// A viewport that reaches the capacity on both axes is clamped to exactly
/// the capacity.
pub proof fn clamp_beyond_capacity(s: Extent, bound: Extent)
    requires
        s.covers(bound),
    ensures
        s.clamped(bound) == bound,
{
}

/// Clamping is idempotent: a second clamp to the same bound changes nothing.
pub proof fn clamp_idempotent(s: Extent, bound: Extent)
    ensures
        s.clamped(bound).clamped(bound) == s.clamped(bound),
        s.clamped(bound).fits_in(bound),
{
}

} // verus!
