//! Coordinate spaces and the conversion between them.
//!
//! The host supplies window geometry as a rectangle in its own pixel
//! coordinates, whose vertical axis increases upward. The toolkit works in
//! logical points with the origin at the window's top-left corner and the
//! vertical axis increasing downward. Conversion between the two spaces uses
//! the geometry's left and top edges and is exact on integer coordinates.

use vstd::prelude::*;

verus! {

/// Host-space window rectangle in pixels. The host's vertical axis increases
/// upward, so a well-formed rectangle has `top >= bottom` and `right >= left`.
/// The host may move or resize the window between frames, so a geometry is
/// queried fresh each frame and never cached.
#[derive(Clone, Copy, PartialEq, Eq, Structural, Debug)]
pub struct WindowGeometry {
    pub left: i32,
    pub top: i32,
    pub right: i32,
    pub bottom: i32,
}

/// A point in the host's coordinate space (vertical axis increasing upward).
#[derive(Clone, Copy, PartialEq, Eq, Structural, Debug)]
pub struct HostPoint {
    pub x: i32,
    pub y: i32,
}

/// A point in the toolkit's logical space: origin at the window's top-left
/// corner, vertical axis increasing downward.
#[derive(Clone, Copy, PartialEq, Eq, Structural, Debug)]
pub struct LogicalPoint {
    pub x: i32,
    pub y: i32,
}

impl WindowGeometry {
    /// The edges are ordered and the extents fit in the machine integer type.
    pub open spec fn wf(self) -> bool {
        &&& self.left <= self.right
        &&& self.bottom <= self.top
        &&& self.right - self.left <= i32::MAX
        &&& self.top - self.bottom <= i32::MAX
    }

    pub open spec fn spec_width(self) -> int {
        self.right - self.left
    }

    pub open spec fn spec_height(self) -> int {
        self.top - self.bottom
    }

    /// Horizontal extent of the window in pixels.
    pub fn width(&self) -> (w: i32)
        requires
            self.wf(),
        ensures
            w == self.spec_width(),
    {
        self.right - self.left
    }

    /// Vertical extent of the window in pixels.
    pub fn height(&self) -> (h: i32)
        requires
            self.wf(),
        ensures
            h == self.spec_height(),
    {
        self.top - self.bottom
    }
}

/// The differences taken when converting a host point to logical space stay
/// inside the machine integer range.
pub open spec fn host_to_logical_fits(p: HostPoint, geo: WindowGeometry) -> bool {
    &&& i32::MIN <= p.x - geo.left <= i32::MAX
    &&& i32::MIN <= geo.top - p.y <= i32::MAX
}

/// The sums taken when converting a logical point to host space stay inside
/// the machine integer range.
pub open spec fn logical_to_host_fits(p: LogicalPoint, geo: WindowGeometry) -> bool {
    &&& i32::MIN <= geo.left + p.x <= i32::MAX
    &&& i32::MIN <= geo.top - p.y <= i32::MAX
}

pub open spec fn spec_host_to_logical(p: HostPoint, geo: WindowGeometry) -> LogicalPoint
    recommends
        host_to_logical_fits(p, geo),
{
    LogicalPoint { x: (p.x - geo.left) as i32, y: (geo.top - p.y) as i32 }
}

pub open spec fn spec_logical_to_host(p: LogicalPoint, geo: WindowGeometry) -> HostPoint
    recommends
        logical_to_host_fits(p, geo),
{
    HostPoint { x: (geo.left + p.x) as i32, y: (geo.top - p.y) as i32 }
}

/// Convert a host-space point to toolkit logical space: distance from the
/// window's left edge, and distance downward from the window's top edge.
pub fn host_to_logical(p: HostPoint, geo: WindowGeometry) -> (r: LogicalPoint)
    requires
        host_to_logical_fits(p, geo),
    ensures
        r == spec_host_to_logical(p, geo),
        r.x == p.x - geo.left,
        r.y == geo.top - p.y,
{
    LogicalPoint { x: p.x - geo.left, y: geo.top - p.y }
}

/// Convert a toolkit logical point back to host space.
pub fn logical_to_host(p: LogicalPoint, geo: WindowGeometry) -> (r: HostPoint)
    requires
        logical_to_host_fits(p, geo),
    ensures
        r == spec_logical_to_host(p, geo),
        r.x == geo.left + p.x,
        r.y == geo.top - p.y,
{
    HostPoint { x: geo.left + p.x, y: geo.top - p.y }
}

/// Coordinate conversion is self-consistent: taking a host-space point to
/// logical space and back, against the same geometry, returns the original
/// point; likewise in the other direction. On integer coordinates the round
/// trip is exact.
pub proof fn lemma_coordinate_round_trip(p: HostPoint, q: LogicalPoint, geo: WindowGeometry)
    requires
        host_to_logical_fits(p, geo),
        logical_to_host_fits(q, geo),
    ensures
        spec_logical_to_host(spec_host_to_logical(p, geo), geo) == p,
        spec_host_to_logical(spec_logical_to_host(q, geo), geo) == q,
{
}

} // verus!
