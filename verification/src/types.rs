//! Identifiers and integer geometry shared by every component.

use vstd::prelude::*;
use crate::math::{abs_diff, abs_diff_i32, is_isqrt, isqrt, isqrt_of};

verus! {

/// Frame counter of the simulation.
pub type FrameI = u64;

/// Stable identity of a soldier: its position in the soldier list.
#[derive(Clone, Copy, Debug, PartialEq, Eq, Structural)]
pub struct SoldierIndex(pub usize);

/// Stable identity of a squad: its position in the squad list.
#[derive(Clone, Copy, Debug, PartialEq, Eq, Structural)]
pub struct SquadUuid(pub usize);

/// Stable identity of a vehicle: its position in the vehicle list.
#[derive(Clone, Copy, Debug, PartialEq, Eq, Structural)]
pub struct VehicleIndex(pub usize);

/// Position of an order marker along the parts of a squad's path.
#[derive(Clone, Copy, Debug, PartialEq, Eq, Structural)]
pub struct OrderMarkerIndex(pub usize);

/// A direction, in thousandths of a degree.
#[derive(Clone, Copy, Debug, PartialEq, Eq, Structural)]
pub struct Angle(pub i32);

/// A length in millimetres.
#[derive(Clone, Copy, Debug, PartialEq, Eq, Structural)]
pub struct Distance {
    pub millimeters: u64,
}

/// A tile position on the map grid.
#[derive(Clone, Copy, Debug, PartialEq, Eq, Structural)]
pub struct GridPoint {
    pub x: i32,
    pub y: i32,
}

/// A position in the world, in millimetres.
#[derive(Clone, Copy, Debug, PartialEq, Eq, Structural)]
pub struct WorldPoint {
    pub x: i32,
    pub y: i32,
}

/// A position on the observer's window, in pixels.
#[derive(Clone, Copy, Debug, PartialEq, Eq, Structural)]
pub struct WindowPoint {
    pub x: i32,
    pub y: i32,
}

/// A displacement of the displayed scene, in pixels.
#[derive(Clone, Copy, Debug, PartialEq, Eq, Structural)]
pub struct Offset {
    pub x: i32,
    pub y: i32,
}

/// Squared euclidean distance between two world points, in square millimetres.
pub open spec fn sq_dist(a: WorldPoint, b: WorldPoint) -> int {
    (a.x - b.x) * (a.x - b.x) + (a.y - b.y) * (a.y - b.y)
}

/// Euclidean distance between two world points, in whole millimetres.
pub open spec fn distance_mm(a: WorldPoint, b: WorldPoint) -> int {
    isqrt_of(sq_dist(a, b))
}

/// Chebyshev distance between two grid points: the number of king moves.
pub open spec fn chebyshev(a: GridPoint, b: GridPoint) -> int {
    let dx = abs_diff(a.x as int, b.x as int);
    let dy = abs_diff(a.y as int, b.y as int);
    if dx >= dy {
        dx
    } else {
        dy
    }
}

impl Distance {
    pub fn from_millimeters(millimeters: u64) -> (d: Distance)
        ensures
            d.millimeters == millimeters,
    {
        Distance { millimeters }
    }

    /// A whole number of metres as a distance, saturating at the largest one.
    pub fn from_meters(meters: u64) -> (d: Distance)
        ensures
            d.millimeters == if meters * 1000 <= u64::MAX {
                meters * 1000
            } else {
                u64::MAX as int
            },
    {
        if meters <= u64::MAX / 1000 {
            Distance { millimeters: meters * 1000 }
        } else {
            Distance { millimeters: u64::MAX }
        }
    }

    pub fn millimeters(&self) -> (mm: u64)
        ensures
            mm == self.millimeters,
    {
        self.millimeters
    }

    /// Whole metres, rounded down.
    pub fn meters(&self) -> (m: u64)
        ensures
            m == self.millimeters / 1000,
    {
        self.millimeters / 1000
    }
}

impl GridPoint {
    pub fn new(x: i32, y: i32) -> (p: GridPoint)
        ensures
            p.x == x,
            p.y == y,
    {
        GridPoint { x, y }
    }

    /// Number of king moves between two grid points.
    pub fn chebyshev_to(&self, other: &GridPoint) -> (d: u64)
        ensures
            d == chebyshev(*self, *other),
            d <= 0xffff_ffff,
    {
        let dx: u64 = abs_diff_i32(self.x, other.x);
        let dy: u64 = abs_diff_i32(self.y, other.y);
        if dx >= dy {
            dx
        } else {
            dy
        }
    }
}

impl WorldPoint {
    pub fn new(x: i32, y: i32) -> (p: WorldPoint)
        ensures
            p.x == x,
            p.y == y,
    {
        WorldPoint { x, y }
    }

    /// Squared distance to another point.
    pub fn sq_dist_to(&self, other: &WorldPoint) -> (d: u128)
        ensures
            d == sq_dist(*self, *other),
            d < 0x2_0000_0000_0000_0000,
    {
        let dx: u64 = abs_diff_i32(self.x, other.x);
        let dy: u64 = abs_diff_i32(self.y, other.y);
        assert(dx * dx <= 0xffff_ffff * 0xffff_ffff) by (nonlinear_arith)
            requires
                0 <= dx <= 0xffff_ffff,
        ;
        assert(dy * dy <= 0xffff_ffff * 0xffff_ffff) by (nonlinear_arith)
            requires
                0 <= dy <= 0xffff_ffff,
        ;
        assert(dx * dx == (self.x - other.x) * (self.x - other.x)) by (nonlinear_arith)
            requires
                dx == self.x - other.x || dx == other.x - self.x,
        ;
        assert(dy * dy == (self.y - other.y) * (self.y - other.y)) by (nonlinear_arith)
            requires
                dy == self.y - other.y || dy == other.y - self.y,
        ;
        (dx as u128) * (dx as u128) + (dy as u128) * (dy as u128)
    }
}

impl WindowPoint {
    pub fn new(x: i32, y: i32) -> (p: WindowPoint)
        ensures
            p.x == x,
            p.y == y,
    {
        WindowPoint { x, y }
    }
}

impl Offset {
    pub fn new(x: i32, y: i32) -> (o: Offset)
        ensures
            o.x == x,
            o.y == y,
    {
        Offset { x, y }
    }
}

/// Euclidean distance between two world points, rounded down to the millimetre.
pub fn distance_between_points(a: &WorldPoint, b: &WorldPoint) -> (d: Distance)
    ensures
        is_isqrt(sq_dist(*a, *b), d.millimeters as int),
        d.millimeters == distance_mm(*a, *b),
        d.millimeters < 0x2_0000_0000,
{
    proof {
        assert forall|r: int| is_isqrt(sq_dist(*a, *b), r) && sq_dist(*a, *b)
            < 0x2_0000_0000_0000_0000 implies r < 0x2_0000_0000 by {
            if r >= 0x2_0000_0000 {
                assert(r * r >= 0x2_0000_0000 * 0x2_0000_0000) by (nonlinear_arith)
                    requires
                        r >= 0x2_0000_0000,
                ;
            }
        }
    }
    Distance { millimeters: isqrt(a.sq_dist_to(b)) }
}

} // verus!
