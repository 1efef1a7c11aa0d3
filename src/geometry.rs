use vstd::prelude::*;

verus! {

/// Sub-unit steps per logical pixel: coordinates are fixed-point numbers with
/// eight fractional bits, as on the Wayland wire.
pub const UNITS_PER_PIXEL: i64 = 256;

/// Radius of the dead zone, in fixed-point units (eight logical pixels).
pub const DEAD_ZONE_RADIUS: i64 = 8 * UNITS_PER_PIXEL;

/// A point of the pointer plane, in fixed-point logical coordinates.
#[derive(Clone, Copy, Debug, PartialEq, Eq, Structural)]
pub struct LogicalPoint {
    pub x: i32,
    pub y: i32,
}

/// A displacement between two points of the pointer plane, in fixed-point units.
#[derive(Clone, Copy, Debug, PartialEq, Eq, Structural)]
pub struct Delta {
    pub dx: i64,
    pub dy: i64,
}

pub open spec fn abs_int(v: int) -> int {
    if v < 0 { -v } else { v }
}

/// The displacement that leads from `from` to `to`.
pub open spec fn displacement(to: LogicalPoint, from: LogicalPoint) -> Delta {
    Delta { dx: (to.x - from.x) as i64, dy: (to.y - from.y) as i64 }
}

/// Whether a displacement has reached the edge of the dead zone.
pub open spec fn leaves_dead_zone(d: Delta) -> bool {
    d.dx * d.dx + d.dy * d.dy >= DEAD_ZONE_RADIUS * DEAD_ZONE_RADIUS
}

/// Whether a displacement is more horizontal than vertical.
pub open spec fn horizontal_dominant(d: Delta) -> bool {
    abs_int(d.dx as int) > abs_int(d.dy as int)
}

impl LogicalPoint {
    /// The displacement that leads from `from` to `self`.
    pub fn minus(self, from: LogicalPoint) -> (r: Delta)
        ensures
            r == displacement(self, from),
            r.dx == self.x - from.x,
            r.dy == self.y - from.y,
    {
        Delta { dx: self.x as i64 - from.x as i64, dy: self.y as i64 - from.y as i64 }
    }
}

/// Whether the displacement from `from` to `to` reaches the edge of the dead zone.
pub fn outside_dead_zone(to: LogicalPoint, from: LogicalPoint) -> (r: bool)
    ensures
        r == leaves_dead_zone(displacement(to, from)),
{
    let d = to.minus(from);
    let dx = d.dx as i128;
    let dy = d.dy as i128;
    assert(dx * dx <= 0x1_0000_0000_0000_0000) by (nonlinear_arith)
        requires -0x1_0000_0000 <= dx <= 0x1_0000_0000;
    assert(dy * dy <= 0x1_0000_0000_0000_0000) by (nonlinear_arith)
        requires -0x1_0000_0000 <= dy <= 0x1_0000_0000;
    assert(dx * dx >= 0) by (nonlinear_arith);
    assert(dy * dy >= 0) by (nonlinear_arith);
    let radius: i128 = DEAD_ZONE_RADIUS as i128;
    assert(radius == 2048);
    dx * dx + dy * dy >= radius * radius
}

/// Whether a displacement is more horizontal than vertical.
pub fn is_horizontal_dominant(d: Delta) -> (r: bool)
    requires
        d.dx > i64::MIN,
        d.dy > i64::MIN,
    ensures
        r == horizontal_dominant(d),
{
    let ax = if d.dx < 0 { -d.dx } else { d.dx };
    let ay = if d.dy < 0 { -d.dy } else { d.dy };
    ax > ay
}

} // verus!
