//! Waypoint sequences that movement orders and behaviors carry.

use vstd::prelude::*;
use crate::types::WorldPoint;

verus! {

/// An ordered sequence of waypoints.
#[derive(Debug)]
pub struct WorldPath {
    pub points: Vec<WorldPoint>,
}

/// Successive parts of a route, each a sequence of waypoints.
#[derive(Debug)]
pub struct WorldPaths {
    pub paths: Vec<WorldPath>,
}

impl View for WorldPath {
    type V = Seq<WorldPoint>;

    open spec fn view(&self) -> Seq<WorldPoint> {
        self.points@
    }
}

impl View for WorldPaths {
    type V = Seq<Seq<WorldPoint>>;

    open spec fn view(&self) -> Seq<Seq<WorldPoint>> {
        self.paths@.map_values(|p: WorldPath| p@)
    }
}

/// A route is well formed when none of its parts is empty.
pub open spec fn paths_wf(paths: Seq<Seq<WorldPoint>>) -> bool {
    forall|i: int| 0 <= i < paths.len() ==> (#[trigger] paths[i]).len() > 0
}

/// The waypoint to reach next, if any is left.
pub open spec fn paths_next_point(paths: Seq<Seq<WorldPoint>>) -> Option<WorldPoint> {
    if paths.len() > 0 && paths[0].len() > 0 {
        Some(paths[0][0])
    } else {
        None
    }
}

/// The last waypoint of the first part, if there is one.
pub open spec fn paths_last_point(paths: Seq<Seq<WorldPoint>>) -> Option<WorldPoint> {
    if paths.len() > 0 && paths[0].len() > 0 {
        Some(paths[0].last())
    } else {
        None
    }
}

/// The route once its next waypoint is reached: the waypoint leaves the first
/// part, and the part leaves the route when nothing remains of it.
pub open spec fn paths_without_next(paths: Seq<Seq<WorldPoint>>) -> Seq<Seq<WorldPoint>> {
    if paths.len() == 0 {
        paths
    } else if paths[0].len() <= 1 {
        paths.drop_first()
    } else {
        paths.update(0, paths[0].drop_first())
    }
}

/// Number of waypoints left on the whole route.
pub open spec fn paths_remaining(paths: Seq<Seq<WorldPoint>>) -> nat
    decreases paths.len(),
{
    if paths.len() == 0 {
        0
    } else {
        paths[0].len() + paths_remaining(paths.drop_first())
    }
}

/// Reaching the next waypoint of a well formed route leaves a well formed
/// route with one waypoint less.
pub proof fn lemma_paths_without_next(paths: Seq<Seq<WorldPoint>>)
    requires
        paths_wf(paths),
        paths.len() > 0,
    ensures
        paths_wf(paths_without_next(paths)),
        paths_remaining(paths_without_next(paths)) + 1 == paths_remaining(paths),
{
    let after = paths_without_next(paths);
    if paths[0].len() <= 1 {
        assert forall|i: int| 0 <= i < after.len() implies (#[trigger] after[i]).len() > 0 by {
            assert(after[i] == paths[i + 1]);
        }
    } else {
        assert forall|i: int| 0 <= i < after.len() implies (#[trigger] after[i]).len() > 0 by {
            if i > 0 {
                assert(after[i] == paths[i]);
            }
        }
        assert(after.drop_first() =~= paths.drop_first());
    }
}

impl Clone for WorldPath {
    fn clone(&self) -> (copy: WorldPath)
        ensures
            copy@ == self@,
    {
        let mut points: Vec<WorldPoint> = Vec::new();
        let mut i: usize = 0;
        while i < self.points.len()
            invariant
                i <= self.points.len(),
                points@ == self.points@.subrange(0, i as int),
            decreases self.points.len() - i,
        {
            points.push(self.points[i]);
            i += 1;
        }
        assert(self.points@.subrange(0, i as int) == self.points@);
        WorldPath { points }
    }
}

impl WorldPath {
    pub fn new(points: Vec<WorldPoint>) -> (path: WorldPath)
        ensures
            path@ == points@,
    {
        WorldPath { points }
    }

    pub fn len(&self) -> (n: usize)
        ensures
            n == self@.len(),
    {
        self.points.len()
    }

    /// The first waypoint left.
    pub fn next_point(&self) -> (p: Option<WorldPoint>)
        ensures
            p == if self@.len() > 0 {
                Some(self@[0])
            } else {
                None
            },
    {
        if self.points.len() > 0 {
            Some(self.points[0])
        } else {
            None
        }
    }

    /// The final waypoint.
    pub fn last_point(&self) -> (p: Option<WorldPoint>)
        ensures
            p == if self@.len() > 0 {
                Some(self@.last())
            } else {
                None
            },
    {
        if self.points.len() > 0 {
            Some(self.points[self.points.len() - 1])
        } else {
            None
        }
    }

    /// Takes the first waypoint off the path.
    pub fn remove_next_point(&mut self) -> (p: Option<WorldPoint>)
        ensures
            old(self)@.len() > 0 ==> p == Some(old(self)@[0]) && final(self)@ == old(self)@.drop_first(),
            old(self)@.len() == 0 ==> p is None && final(self)@ == old(self)@,
    {
        if self.points.len() > 0 {
            let p = self.points.remove(0);
            assert(self.points@ =~= old(self).points@.drop_first());
            Some(p)
        } else {
            None
        }
    }

    /// Whether both paths hold the same waypoints in the same order.
    pub fn same_as(&self, other: &WorldPath) -> (same: bool)
        ensures
            same == (self@ == other@),
    {
        if self.points.len() != other.points.len() {
            return false;
        }
        let mut i: usize = 0;
        while i < self.points.len()
            invariant
                i <= self.points.len(),
                self.points.len() == other.points.len(),
                self.points@.subrange(0, i as int) == other.points@.subrange(0, i as int),
            decreases self.points.len() - i,
        {
            if self.points[i] != other.points[i] {
                return false;
            }
            assert(self.points@.subrange(0, i + 1) =~= self.points@.subrange(0, i as int).push(
                self.points@[i as int],
            ));
            assert(other.points@.subrange(0, i + 1) =~= other.points@.subrange(0, i as int).push(
                other.points@[i as int],
            ));
            i += 1;
        }
        assert(self.points@.subrange(0, i as int) == self.points@);
        assert(other.points@.subrange(0, i as int) == other.points@);
        true
    }
}

impl Clone for WorldPaths {
    fn clone(&self) -> (copy: WorldPaths)
        ensures
            copy@ == self@,
    {
        let mut paths: Vec<WorldPath> = Vec::new();
        let mut i: usize = 0;
        while i < self.paths.len()
            invariant
                i <= self.paths.len(),
                paths.len() == i,
                forall|j: int| 0 <= j < i ==> (#[trigger] paths[j])@ == self.paths[j]@,
            decreases self.paths.len() - i,
        {
            paths.push(self.paths[i].clone());
            i += 1;
        }
        let copy = WorldPaths { paths };
        assert(copy@ =~= self@);
        copy
    }
}

impl WorldPaths {
    pub open spec fn wf(&self) -> bool {
        paths_wf(self@)
    }

    pub fn new(paths: Vec<WorldPath>) -> (route: WorldPaths)
        ensures
            route.paths == paths,
    {
        WorldPaths { paths }
    }

    /// Whether no part of the route is empty.
    pub fn is_wf(&self) -> (ok: bool)
        ensures
            ok == self.wf(),
    {
        let mut i: usize = 0;
        while i < self.paths.len()
            invariant
                i <= self.paths.len(),
                forall|j: int| 0 <= j < i ==> (#[trigger] self@[j]).len() > 0,
            decreases self.paths.len() - i,
        {
            if self.paths[i].len() == 0 {
                assert(self@[i as int].len() == 0);
                return false;
            }
            i += 1;
        }
        true
    }

    /// The waypoint to reach next.
    pub fn next_point(&self) -> (p: Option<WorldPoint>)
        ensures
            p == paths_next_point(self@),
    {
        if self.paths.len() > 0 {
            self.paths[0].next_point()
        } else {
            None
        }
    }

    /// The last waypoint of the first part.
    pub fn last_point(&self) -> (p: Option<WorldPoint>)
        ensures
            p == paths_last_point(self@),
    {
        if self.paths.len() > 0 {
            self.paths[0].last_point()
        } else {
            None
        }
    }

    /// Whether the next waypoint is the last of the whole route; `None` on a
    /// route without parts.
    pub fn is_last_point(&self) -> (last: Option<bool>)
        ensures
            last == if self@.len() == 0 {
                None
            } else {
                Some(self@.len() == 1 && self@[0].len() == 1)
            },
    {
        if self.paths.len() == 0 {
            None
        } else if self.paths.len() == 1 {
            Some(self.paths[0].len() == 1)
        } else {
            Some(false)
        }
    }

    /// Takes the next waypoint off the route.
    pub fn remove_next_point(&mut self) -> (p: Option<WorldPoint>)
        ensures
            p == paths_next_point(old(self)@),
            final(self)@ == paths_without_next(old(self)@),
    {
        if self.paths.len() == 0 {
            return None;
        }
        let mut first = self.paths.remove(0);
        let p = first.remove_next_point();
        if first.len() > 0 {
            self.paths.insert(0, first);
        }
        assert(self@ =~= paths_without_next(old(self)@));
        p
    }

    /// Whether both routes hold the same parts.
    pub fn same_as(&self, other: &WorldPaths) -> (same: bool)
        ensures
            same == (self@ == other@),
    {
        if self.paths.len() != other.paths.len() {
            assert(self@.len() != other@.len());
            return false;
        }
        let mut i: usize = 0;
        while i < self.paths.len()
            invariant
                i <= self.paths.len(),
                self.paths.len() == other.paths.len(),
                forall|j: int| 0 <= j < i ==> (#[trigger] self@[j]) == other@[j],
            decreases self.paths.len() - i,
        {
            if !self.paths[i].same_as(&other.paths[i]) {
                assert(self@[i as int] != other@[i as int]);
                return false;
            }
            i += 1;
        }
        assert(self@ =~= other@);
        true
    }
}

} // verus!
