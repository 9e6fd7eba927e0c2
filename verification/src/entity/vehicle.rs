//! Vehicles and the places that soldiers take in them.

use vstd::prelude::*;
use crate::types::{VehicleIndex, WorldPoint};

verus! {

/// A place aboard a vehicle.
#[derive(Clone, Copy, Debug, PartialEq, Eq, Structural)]
pub enum OnBoardPlace {
    Driver,
    Gunner,
    Passenger,
}

/// A vehicle, with its chassis as a convex polygon in world coordinates.
#[derive(Debug)]
pub struct Vehicle {
    pub uuid: VehicleIndex,
    pub world_point: WorldPoint,
    pub chassis: Vec<WorldPoint>,
}

/// Mathematical value of a [`Vehicle`].
pub struct VehicleView {
    pub uuid: VehicleIndex,
    pub world_point: WorldPoint,
    pub chassis: Seq<WorldPoint>,
}

impl View for Vehicle {
    type V = VehicleView;

    open spec fn view(&self) -> VehicleView {
        VehicleView { uuid: self.uuid, world_point: self.world_point, chassis: self.chassis@ }
    }
}

/// Twice the signed area of the triangle `a`, `b`, `p`: positive when `p` is
/// to the left of the edge from `a` to `b`.
pub open spec fn cross(a: WorldPoint, b: WorldPoint, p: WorldPoint) -> int {
    (b.x - a.x) * (p.y - a.y) - (b.y - a.y) * (p.x - a.x)
}

/// The edge of a polygon that starts at its corner `i`.
pub open spec fn edge_side(polygon: Seq<WorldPoint>, i: int, p: WorldPoint) -> int {
    cross(polygon[i], polygon[(i + 1) % (polygon.len() as int)], p)
}

/// A convex polygon holds a point when the point is on the same side of all
/// its edges, edges included. Fewer than three corners hold nothing.
pub open spec fn polygon_contains(polygon: Seq<WorldPoint>, p: WorldPoint) -> bool {
    &&& polygon.len() >= 3
    &&& {
        ||| forall|i: int| 0 <= i < polygon.len() ==> #[trigger] edge_side(polygon, i, p) >= 0
        ||| forall|i: int| 0 <= i < polygon.len() ==> #[trigger] edge_side(polygon, i, p) <= 0
    }
}

fn cross_of(a: WorldPoint, b: WorldPoint, p: WorldPoint) -> (c: i128)
    ensures
        c == cross(a, b, p),
{
    let abx: i128 = b.x as i128 - a.x as i128;
    let aby: i128 = b.y as i128 - a.y as i128;
    let apx: i128 = p.x as i128 - a.x as i128;
    let apy: i128 = p.y as i128 - a.y as i128;
    assert(-0x1_0000_0000_0000_0000 <= abx * apy <= 0x1_0000_0000_0000_0000) by (nonlinear_arith)
        requires
            -0x1_0000_0000 <= abx <= 0x1_0000_0000,
            -0x1_0000_0000 <= apy <= 0x1_0000_0000,
    ;
    assert(-0x1_0000_0000_0000_0000 <= aby * apx <= 0x1_0000_0000_0000_0000) by (nonlinear_arith)
        requires
            -0x1_0000_0000 <= aby <= 0x1_0000_0000,
            -0x1_0000_0000 <= apx <= 0x1_0000_0000,
    ;
    abx * apy - aby * apx
}

impl Clone for Vehicle {
    fn clone(&self) -> (copy: Vehicle)
        ensures
            copy@ == self@,
    {
        let mut chassis: Vec<WorldPoint> = Vec::new();
        let mut i: usize = 0;
        while i < self.chassis.len()
            invariant
                i <= self.chassis.len(),
                chassis@ == self.chassis@.subrange(0, i as int),
            decreases self.chassis.len() - i,
        {
            chassis.push(self.chassis[i]);
            i += 1;
        }
        assert(self.chassis@.subrange(0, i as int) == self.chassis@);
        Vehicle { uuid: self.uuid, world_point: self.world_point, chassis }
    }
}

impl Vehicle {
    pub fn uuid(&self) -> (uuid: VehicleIndex)
        ensures
            uuid == self@.uuid,
    {
        self.uuid
    }

    pub fn chassis_shape(&self) -> (shape: &Vec<WorldPoint>)
        ensures
            shape@ == self@.chassis,
    {
        &self.chassis
    }

    /// Whether the chassis holds a point.
    pub fn chassis_contains(&self, p: &WorldPoint) -> (inside: bool)
        ensures
            inside == polygon_contains(self@.chassis, *p),
    {
        let n: usize = self.chassis.len();
        if n < 3 {
            return false;
        }
        let mut all_left: bool = true;
        let mut all_right: bool = true;
        let mut i: usize = 0;
        while i < n
            invariant
                i <= n,
                n == self.chassis.len(),
                n >= 3,
                all_left == forall|j: int|
                    0 <= j < i ==> #[trigger] edge_side(self.chassis@, j, *p) >= 0,
                all_right == forall|j: int|
                    0 <= j < i ==> #[trigger] edge_side(self.chassis@, j, *p) <= 0,
            decreases n - i,
        {
            let next: usize = if i + 1 == n {
                0
            } else {
                i + 1
            };
            assert(next as int == (i + 1) % (n as int)) by {
                if i + 1 == n {
                    assert((n as int) % (n as int) == 0) by (nonlinear_arith)
                        requires
                            n > 0,
                    ;
                } else {
                    assert((i + 1) % (n as int) == i + 1) by (nonlinear_arith)
                        requires
                            0 <= i + 1 < n,
                    ;
                }
            }
            let c: i128 = cross_of(self.chassis[i], self.chassis[next], *p);
            assert(c == edge_side(self.chassis@, i as int, *p));
            if c < 0 {
                all_left = false;
            }
            if c > 0 {
                all_right = false;
            }
            i += 1;
        }
        all_left || all_right
    }
}

} // verus!
