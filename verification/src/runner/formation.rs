//! Places of a squad's members beside their leader.

use vstd::prelude::*;
use crate::map::clamp_i32;
use crate::order::path::{WorldPath, WorldPaths};
use crate::types::WorldPoint;

verus! {

/// How far to the side of its leader the subordinate of the given rank
/// stands, in millimetres: ranks 0 and 1 one spacing to the right and to the
/// left, ranks 2 and 3 two spacings, and so on, within what a coordinate
/// can hold.
pub open spec fn formation_offset(spacing: u32, rank: int) -> i32 {
    let reach = spacing * (rank / 2 + 1);
    if rank % 2 == 0 {
        clamp_i32(reach)
    } else {
        clamp_i32(-reach)
    }
}

/// A point moved sideways.
pub open spec fn offset_point(p: WorldPoint, dx: i32) -> WorldPoint {
    WorldPoint { x: clamp_i32(p.x + dx), y: p.y }
}

/// A route moved sideways, point by point.
pub open spec fn offset_paths(paths: Seq<Seq<WorldPoint>>, dx: i32) -> Seq<Seq<WorldPoint>> {
    Seq::new(
        paths.len(),
        |i: int| Seq::new(paths[i].len(), |j: int| offset_point(paths[i][j], dx)),
    )
}

pub fn formation_offset_of(spacing: u32, rank: usize) -> (dx: i32)
    ensures
        dx == formation_offset(spacing, rank as int),
{
    let line: u128 = (rank / 2) as u128 + 1;
    assert(spacing * line <= 0xffff_ffff * 0x1_0000_0000_0000_0000) by (nonlinear_arith)
        requires
            0 <= spacing <= 0xffff_ffff,
            0 <= line <= 0x1_0000_0000_0000_0000,
    ;
    let reach: u128 = (spacing as u128) * line;
    if rank % 2 == 0 {
        if reach > i32::MAX as u128 {
            i32::MAX
        } else {
            reach as i32
        }
    } else {
        if reach > 0x8000_0000 {
            i32::MIN
        } else {
            (-(reach as i64)) as i32
        }
    }
}

pub fn offset_point_of(p: WorldPoint, dx: i32) -> (moved: WorldPoint)
    ensures
        moved == offset_point(p, dx),
{
    let x: i64 = p.x as i64 + dx as i64;
    WorldPoint {
        x: if x < i32::MIN as i64 {
            i32::MIN
        } else if x > i32::MAX as i64 {
            i32::MAX
        } else {
            x as i32
        },
        y: p.y,
    }
}

/// A copy of a route, moved sideways.
pub fn offset_paths_of(paths: &WorldPaths, dx: i32) -> (moved: WorldPaths)
    ensures
        moved@ == offset_paths(paths@, dx),
{
    let mut parts: Vec<WorldPath> = Vec::new();
    let mut i: usize = 0;
    while i < paths.paths.len()
        invariant
            i <= paths.paths.len(),
            parts.len() == i,
            forall|a: int| 0 <= a < i ==> (#[trigger] parts[a])@ == offset_paths(paths@, dx)[a],
        decreases paths.paths.len() - i,
    {
        let part = &paths.paths[i];
        let mut points: Vec<WorldPoint> = Vec::new();
        let mut j: usize = 0;
        while j < part.points.len()
            invariant
                j <= part.points.len(),
                points.len() == j,
                forall|b: int|
                    0 <= b < j ==> #[trigger] points[b] == offset_point(part.points[b], dx),
            decreases part.points.len() - j,
        {
            points.push(offset_point_of(part.points[j], dx));
            j += 1;
        }
        assert(paths@[i as int] == part@);
        assert(points@ =~= offset_paths(paths@, dx)[i as int]);
        parts.push(WorldPath { points });
        i += 1;
    }
    let moved = WorldPaths { paths: parts };
    assert(moved@ =~= offset_paths(paths@, dx));
    moved
}

} // verus!
