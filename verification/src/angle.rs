//! Directions between points, in thousandths of a degree.
//!
//! Angles turn from the x axis toward the y axis: 0 along x, 90 000 along y.
//! A direction is measured by its slope in sixteenths, so two directions
//! less than a sixteenth of slope apart may get the same angle.

use vstd::prelude::*;
use crate::math::{abs_diff, abs_diff_i32};
use crate::types::{Angle, WorldPoint};

verus! {

/// The angle whose tangent is `k` sixteenths, in thousandths of a degree.
pub open spec fn slope_angle(k: int) -> int {
    if k <= 0 {
        0
    } else if k == 1 {
        3576
    } else if k == 2 {
        7125
    } else if k == 3 {
        10620
    } else if k == 4 {
        14036
    } else if k == 5 {
        17354
    } else if k == 6 {
        20556
    } else if k == 7 {
        23629
    } else if k == 8 {
        26565
    } else if k == 9 {
        29358
    } else if k == 10 {
        32005
    } else if k == 11 {
        34509
    } else if k == 12 {
        36870
    } else if k == 13 {
        39094
    } else if k == 14 {
        41186
    } else if k == 15 {
        43152
    } else {
        45000
    }
}

/// Angle of a vector of the first quadrant, given by its two lengths.
pub open spec fn quadrant_angle(ax: int, ay: int) -> int {
    if ax == 0 && ay == 0 {
        0
    } else if ay <= ax {
        slope_angle((16 * ay) / ax)
    } else {
        90000 - slope_angle((16 * ax) / ay)
    }
}

/// Angle of the direction from `from` to `to`, from 0 up to, but not
/// including, 360 000. A point has direction 0 to itself.
pub open spec fn direction(from: WorldPoint, to: WorldPoint) -> int {
    let ax = abs_diff(to.x as int, from.x as int);
    let ay = abs_diff(to.y as int, from.y as int);
    let q = quadrant_angle(ax, ay);
    if to.x >= from.x && to.y >= from.y {
        q
    } else if to.x < from.x && to.y >= from.y {
        180000 - q
    } else if to.x < from.x && to.y < from.y {
        180000 + q
    } else if q == 0 {
        0
    } else {
        360000 - q
    }
}

/// A direction is an angle of the full turn.
pub proof fn lemma_direction_range(from: WorldPoint, to: WorldPoint)
    ensures
        0 <= direction(from, to) < 360000,
{
    let ax = abs_diff(to.x as int, from.x as int);
    let ay = abs_diff(to.y as int, from.y as int);
    lemma_quadrant_range(ax, ay);
    if to.x < from.x && to.y >= from.y {
    } else if to.x >= from.x && to.y < from.y {
    }
}

proof fn lemma_quadrant_range(ax: int, ay: int)
    requires
        0 <= ax,
        0 <= ay,
    ensures
        0 <= quadrant_angle(ax, ay) <= 90000,
        ay > 0 && ax == 0 ==> quadrant_angle(ax, ay) == 90000,
{
    if ax == 0 && ay > 0 {
        assert((16 * ax) / ay == 0) by (nonlinear_arith)
            requires
                ax == 0,
                ay > 0,
        ;
    }
}

fn slope_angle_of(k: u128) -> (a: i32)
    ensures
        a == slope_angle(k as int),
        0 <= a <= 45000,
{
    if k == 0 {
        0
    } else if k == 1 {
        3576
    } else if k == 2 {
        7125
    } else if k == 3 {
        10620
    } else if k == 4 {
        14036
    } else if k == 5 {
        17354
    } else if k == 6 {
        20556
    } else if k == 7 {
        23629
    } else if k == 8 {
        26565
    } else if k == 9 {
        29358
    } else if k == 10 {
        32005
    } else if k == 11 {
        34509
    } else if k == 12 {
        36870
    } else if k == 13 {
        39094
    } else if k == 14 {
        41186
    } else if k == 15 {
        43152
    } else {
        45000
    }
}

fn quadrant_angle_of(ax: u64, ay: u64) -> (a: i32)
    requires
        ax <= 0xffff_ffff,
        ay <= 0xffff_ffff,
    ensures
        a == quadrant_angle(ax as int, ay as int),
        0 <= a <= 90000,
{
    if ax == 0 && ay == 0 {
        0
    } else if ay <= ax {
        slope_angle_of((16 * (ay as u128)) / (ax as u128))
    } else {
        90000 - slope_angle_of((16 * (ax as u128)) / (ay as u128))
    }
}

impl Angle {
    /// Angle of the direction from `from` to `to`.
    pub fn from_points(to: &WorldPoint, from: &WorldPoint) -> (angle: Angle)
        ensures
            angle.0 == direction(*from, *to),
            0 <= angle.0 < 360000,
    {
        proof {
            lemma_direction_range(*from, *to);
        }
        let ax: u64 = abs_diff_i32(to.x, from.x);
        let ay: u64 = abs_diff_i32(to.y, from.y);
        let q: i32 = quadrant_angle_of(ax, ay);
        if to.x >= from.x && to.y >= from.y {
            Angle(q)
        } else if to.x < from.x && to.y >= from.y {
            Angle(180000 - q)
        } else if to.x < from.x && to.y < from.y {
            Angle(180000 + q)
        } else if q == 0 {
            Angle(0)
        } else {
            Angle(360000 - q)
        }
    }
}

} // verus!
