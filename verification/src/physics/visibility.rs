//! Sight along a straight line over the map.

use vstd::prelude::*;
use crate::config::VisibilityConfig;
use crate::map::{BattleMap, BattleMapView};
use crate::types::{distance_between_points, distance_mm, WorldPoint};

verus! {

/// What an observer sees of a target: the samples taken along the line, each
/// with the opacity gathered up to it, the opacity at the end, and whether
/// the target is in sight.
#[derive(Debug)]
pub struct Visibility {
    pub from: WorldPoint,
    pub to: WorldPoint,
    pub opacity_segments: Vec<(WorldPoint, u64)>,
    pub path_final_opacity: u64,
    pub visible: bool,
}

/// Mathematical value of a [`Visibility`].
pub struct VisibilityView {
    pub from: WorldPoint,
    pub to: WorldPoint,
    pub opacity_segments: Seq<(WorldPoint, u64)>,
    pub path_final_opacity: u64,
    pub visible: bool,
}

impl View for Visibility {
    type V = VisibilityView;

    open spec fn view(&self) -> VisibilityView {
        VisibilityView {
            from: self.from,
            to: self.to,
            opacity_segments: self.opacity_segments@,
            path_final_opacity: self.path_final_opacity,
            visible: self.visible,
        }
    }
}

/// The coordinate `j` parts out of `n` of the way from `a` to `b`.
pub open spec fn lerp(a: i32, b: i32, j: int, n: int) -> int {
    if b >= a {
        a + ((b - a) * j) / n
    } else {
        a - ((a - b) * j) / n
    }
}

/// Number of samples on the line: one for each whole step that fits in it.
pub open spec fn sample_count(config: VisibilityConfig, from: WorldPoint, to: WorldPoint) -> int {
    if config.step == 0 {
        0
    } else {
        distance_mm(from, to) / (config.step as int)
    }
}

/// The sample of rank `j`, from 1 next to the observer to `n` on the target.
pub open spec fn sample_point(from: WorldPoint, to: WorldPoint, j: int, n: int) -> WorldPoint {
    WorldPoint { x: lerp(from.x, to.x, j, n) as i32, y: lerp(from.y, to.y, j, n) as i32 }
}

/// The share of its own tile's opacity that counts for an observer, in parts
/// per million: the configured one, and the whole at most.
pub open spec fn own_tile_share(config: VisibilityConfig) -> int {
    if config.decay > 1000000 {
        1000000
    } else {
        config.decay as int
    }
}

/// What one sample adds to the opacity of the line: the opacity of the map
/// there, of which only a share counts on the observer's own tile.
pub open spec fn sample_opacity(
    map: BattleMapView,
    config: VisibilityConfig,
    from: WorldPoint,
    point: WorldPoint,
) -> int {
    if map.grid_of(point) == map.grid_of(from) {
        (map.opacity_at(point) * own_tile_share(config)) / 1000000
    } else {
        map.opacity_at(point) as int
    }
}

/// Opacity gathered over the samples of rank 1 to `k`.
pub open spec fn opacity_upto(
    map: BattleMapView,
    config: VisibilityConfig,
    from: WorldPoint,
    to: WorldPoint,
    n: int,
    k: int,
) -> int
    decreases k,
{
    if k <= 0 {
        0
    } else {
        opacity_upto(map, config, from, to, n, k - 1) + sample_opacity(
            map,
            config,
            from,
            sample_point(from, to, k, n),
        )
    }
}

/// The whole of what an observer at `from` sees of a target at `to`.
pub open spec fn spec_visibility(
    map: BattleMapView,
    config: VisibilityConfig,
    from: WorldPoint,
    to: WorldPoint,
) -> VisibilityView {
    let n = sample_count(config, from, to);
    VisibilityView {
        from,
        to,
        opacity_segments: Seq::new(
            n as nat,
            |j: int| (sample_point(from, to, j + 1, n), opacity_upto(map, config, from, to, n, j + 1) as u64),
        ),
        path_final_opacity: opacity_upto(map, config, from, to, n, n) as u64,
        visible: opacity_upto(map, config, from, to, n, n) < config.threshold,
    }
}

/// Whether a target at `to` is in sight of an observer at `from`.
pub open spec fn in_sight(
    map: BattleMapView,
    config: VisibilityConfig,
    from: WorldPoint,
    to: WorldPoint,
) -> bool {
    spec_visibility(map, config, from, to).visible
}

/// A sample adds at most the opacity of an opaque tile.
pub proof fn lemma_opacity_bound(
    map: BattleMapView,
    config: VisibilityConfig,
    from: WorldPoint,
    to: WorldPoint,
    n: int,
    k: int,
)
    requires
        0 <= k,
    ensures
        0 <= opacity_upto(map, config, from, to, n, k) <= k * 1000000,
    decreases k,
{
    if k > 0 {
        lemma_opacity_bound(map, config, from, to, n, k - 1);
        let p = sample_point(from, to, k, n);
        let o = map.opacity_at(p);
        let share = own_tile_share(config);
        assert(o <= 1000000);
        assert(0 <= (o * share) / 1000000 <= 1000000) by (nonlinear_arith)
            requires
                0 <= o <= 1000000,
                0 <= share <= 1000000,
        {
            assert(o * share <= 1000000 * 1000000);
        }
    }
}

fn lerp_of(a: i32, b: i32, j: u64, n: u64) -> (v: i32)
    requires
        0 < n,
        j <= n,
        n < 0x2_0000_0000,
    ensures
        v == lerp(a, b, j as int, n as int),
{
    if b >= a {
        let d: u64 = (b as i64 - a as i64) as u64;
        assert(d * j <= 0xffff_ffff * 0x2_0000_0000) by (nonlinear_arith)
            requires
                0 <= d <= 0xffff_ffff,
                0 <= j <= 0x2_0000_0000,
        ;
        let part: u128 = (d as u128) * (j as u128) / (n as u128);
        assert(part <= d) by (nonlinear_arith)
            requires
                part == (d * j) / (n as int),
                0 <= j <= n,
                0 < n,
                0 <= d,
        ;
        (a as i64 + part as i64) as i32
    } else {
        let d: u64 = (a as i64 - b as i64) as u64;
        assert(d * j <= 0xffff_ffff * 0x2_0000_0000) by (nonlinear_arith)
            requires
                0 <= d <= 0xffff_ffff,
                0 <= j <= 0x2_0000_0000,
        ;
        let part: u128 = (d as u128) * (j as u128) / (n as u128);
        assert(part <= d) by (nonlinear_arith)
            requires
                part == (d * j) / (n as int),
                0 <= j <= n,
                0 < n,
                0 <= d,
        ;
        (a as i64 - part as i64) as i32
    }
}

fn sample_opacity_of(map: &BattleMap, config: &VisibilityConfig, from: WorldPoint, point: WorldPoint) -> (o:
    u64)
    ensures
        o == sample_opacity(map@, *config, from, point),
        o <= 1000000,
{
    let opacity: u32 = map.opacity_at(point);
    if map.grid_point_from_world_point(point) == map.grid_point_from_world_point(from) {
        let share: u64 = if config.decay > 1000000 {
            1000000
        } else {
            config.decay as u64
        };
        assert(opacity * share <= 1000000 * 1000000) by (nonlinear_arith)
            requires
                0 <= opacity <= 1000000,
                0 <= share <= 1000000,
        ;
        let shared: u64 = (opacity as u64) * share / 1000000;
        shared
    } else {
        opacity as u64
    }
}

/// Whether a target at `to` is in sight of an observer at `from`: the
/// opacity gathered over the samples of the line stays under the threshold.
pub fn is_visible(config: &VisibilityConfig, from: WorldPoint, to: WorldPoint, map: &BattleMap) -> (seen:
    bool)
    ensures
        seen == in_sight(map@, *config, from, to),
{
    if config.step == 0 {
        return 0 < config.threshold;
    }
    let d: u64 = distance_between_points(&from, &to).millimeters;
    let n: u64 = d / (config.step as u64);
    let mut total: u64 = 0;
    let mut j: u64 = 0;
    while j < n
        invariant
            j <= n,
            0 < n || j == 0,
            n < 0x2_0000_0000,
            n == sample_count(*config, from, to),
            total == opacity_upto(map@, *config, from, to, n as int, j as int),
        decreases n - j,
    {
        proof {
            lemma_opacity_bound(map@, *config, from, to, n as int, j as int);
            lemma_opacity_bound(map@, *config, from, to, n as int, j + 1);
            assert((j + 1) * 1000000 <= 0x2_0000_0000 * 1000000) by (nonlinear_arith)
                requires
                    j + 1 <= 0x2_0000_0000,
            ;
        }
        j += 1;
        let point = WorldPoint { x: lerp_of(from.x, to.x, j, n), y: lerp_of(from.y, to.y, j, n) };
        total = total + sample_opacity_of(map, config, from, point);
    }
    total < config.threshold as u64
}

/// What an observer at `from` sees of a target at `to`. The line is sampled
/// once per configured step; each sample adds the opacity of the map there;
/// the target is in sight when the total stays under the threshold.
pub fn visibility(config: &VisibilityConfig, from: WorldPoint, to: WorldPoint, map: &BattleMap) -> (seen:
    Visibility)
    ensures
        seen@ == spec_visibility(map@, *config, from, to),
{
    let mut opacity_segments: Vec<(WorldPoint, u64)> = Vec::new();
    let mut total: u64 = 0;
    if config.step != 0 {
        let d: u64 = distance_between_points(&from, &to).millimeters;
        let n: u64 = d / (config.step as u64);
        let mut j: u64 = 0;
        while j < n
            invariant
                j <= n,
                0 < n || j == 0,
                n < 0x2_0000_0000,
                n == sample_count(*config, from, to),
                total == opacity_upto(map@, *config, from, to, n as int, j as int),
                opacity_segments@ == spec_visibility(
                    map@,
                    *config,
                    from,
                    to,
                ).opacity_segments.subrange(0, j as int),
            decreases n - j,
        {
            proof {
                lemma_opacity_bound(map@, *config, from, to, n as int, j as int);
                lemma_opacity_bound(map@, *config, from, to, n as int, j + 1);
                assert((j + 1) * 1000000 <= 0x2_0000_0000 * 1000000) by (nonlinear_arith)
                    requires
                        j + 1 <= 0x2_0000_0000,
                ;
            }
            j += 1;
            let point = WorldPoint {
                x: lerp_of(from.x, to.x, j, n),
                y: lerp_of(from.y, to.y, j, n),
            };
            total = total + sample_opacity_of(map, config, from, point);
            opacity_segments.push((point, total));
            proof {
                let all = spec_visibility(map@, *config, from, to).opacity_segments;
                assert(all.subrange(0, j as int) =~= all.subrange(0, j - 1).push(all[j - 1]));
            }
        }
        proof {
            let all = spec_visibility(map@, *config, from, to).opacity_segments;
            assert(all.subrange(0, n as int) =~= all);
        }
    } else {
        assert(opacity_segments@ =~= spec_visibility(map@, *config, from, to).opacity_segments);
    }
    Visibility {
        from,
        to,
        opacity_segments,
        path_final_opacity: total,
        visible: total < config.threshold as u64,
    }
}

} // verus!
