//! The battle map: a grid of terrain tiles.

pub mod terrain;

use vstd::prelude::*;
use crate::map::terrain::{opacity_of, TerrainTile};
use crate::types::{GridPoint, WorldPoint};

verus! {

/// A grid of `width` by `height` tiles, row by row, each tile `tile_width`
/// by `tile_height` millimetres.
#[derive(Debug)]
pub struct BattleMap {
    pub width: u32,
    pub height: u32,
    pub tile_width: u32,
    pub tile_height: u32,
    pub tiles: Vec<TerrainTile>,
}

/// Mathematical value of a [`BattleMap`].
pub struct BattleMapView {
    pub width: u32,
    pub height: u32,
    pub tile_width: u32,
    pub tile_height: u32,
    pub tiles: Seq<TerrainTile>,
}

impl View for BattleMap {
    type V = BattleMapView;

    open spec fn view(&self) -> BattleMapView {
        BattleMapView {
            width: self.width,
            height: self.height,
            tile_width: self.tile_width,
            tile_height: self.tile_height,
            tiles: self.tiles@,
        }
    }
}

/// The nearest `i32` to an integer.
pub open spec fn clamp_i32(v: int) -> i32 {
    if v < i32::MIN {
        i32::MIN
    } else if v > i32::MAX {
        i32::MAX
    } else {
        v as i32
    }
}

/// Index of a tile along one axis: coordinates before the origin count as 0,
/// and an index past `i32::MAX` counts as `i32::MAX`.
pub open spec fn grid_coordinate(world: i32, tile_size: u32) -> i32 {
    if world <= 0 || tile_size == 0 {
        0
    } else {
        ((world as int) / (tile_size as int)) as i32
    }
}

/// Millimetre at the middle of a tile along one axis.
pub open spec fn world_coordinate(grid: i32, tile_size: u32) -> i32 {
    clamp_i32(grid * tile_size + tile_size / 2)
}

impl BattleMapView {
    /// The map's tiles fill its grid, each consistent with its kind, and a
    /// tile has a size.
    pub open spec fn wf(self) -> bool {
        &&& self.tile_width > 0
        &&& self.tile_height > 0
        &&& self.tiles.len() == self.width * self.height
        &&& forall|i: int| 0 <= i < self.tiles.len() ==> (#[trigger] self.tiles[i]).wf()
    }

    pub open spec fn contains(self, p: GridPoint) -> bool {
        0 <= p.x < self.width && 0 <= p.y < self.height
    }

    /// The tile at a grid point of the map.
    pub open spec fn tile_at(self, p: GridPoint) -> Option<TerrainTile> {
        if self.contains(p) && p.y * self.width + p.x < self.tiles.len() {
            Some(self.tiles[p.y * self.width + p.x])
        } else {
            None
        }
    }

    /// The tile that holds a world point.
    pub open spec fn grid_of(self, p: WorldPoint) -> GridPoint {
        GridPoint {
            x: grid_coordinate(p.x, self.tile_width),
            y: grid_coordinate(p.y, self.tile_height),
        }
    }

    /// The middle of a tile.
    pub open spec fn world_of(self, p: GridPoint) -> WorldPoint {
        WorldPoint {
            x: world_coordinate(p.x, self.tile_width),
            y: world_coordinate(p.y, self.tile_height),
        }
    }

    /// Opacity at a world point, in parts per million: that of the tile's
    /// kind, and nothing outside the map.
    pub open spec fn opacity_at(self, p: WorldPoint) -> u32 {
        match self.tile_at(self.grid_of(p)) {
            Some(tile) => opacity_of(tile.type_),
            None => 0,
        }
    }

    /// Whether a pedestrian can step on a grid point: any tile of the map.
    pub open spec fn walkable(self, p: GridPoint) -> bool {
        self.tile_at(p) is Some
    }

    /// Whether a vehicle can drive over a grid point.
    pub open spec fn drivable(self, p: GridPoint) -> bool {
        match self.tile_at(p) {
            Some(tile) => !tile.block_vehicle,
            None => false,
        }
    }
}

/// The middle of a tile lies in that tile, as long as it fits the
/// coordinates.
pub proof fn lemma_grid_of_world_of(map: BattleMapView, p: GridPoint)
    requires
        map.tile_width > 0,
        map.tile_height > 0,
        p.x >= 0,
        p.y >= 0,
        p.x * map.tile_width + map.tile_width / 2 <= i32::MAX,
        p.y * map.tile_height + map.tile_height / 2 <= i32::MAX,
    ensures
        map.grid_of(map.world_of(p)) == p,
{
    lemma_axis_round_trip(p.x, map.tile_width);
    lemma_axis_round_trip(p.y, map.tile_height);
}

proof fn lemma_axis_round_trip(g: i32, size: u32)
    requires
        size > 0,
        g >= 0,
        g * size + size / 2 <= i32::MAX,
    ensures
        grid_coordinate(world_coordinate(g, size), size) == g,
{
    let w = g * size + size / 2;
    assert(0 <= w) by (nonlinear_arith)
        requires
            g >= 0,
            size > 0,
            w == g * size + size / 2,
    ;
    if w > 0 {
        assert(w / (size as int) == g) by (nonlinear_arith)
            requires
                w == g * size + size / 2,
                0 <= size / 2 < size,
                size > 0,
                g >= 0,
        ;
    } else {
        assert(g == 0) by (nonlinear_arith)
            requires
                g >= 0,
                size > 0,
                g * size + size / 2 <= 0,
                size / 2 >= 0,
        ;
    }
}

fn grid_coordinate_of(world: i32, tile_size: u32) -> (g: i32)
    ensures
        g == grid_coordinate(world, tile_size),
        g >= 0,
{
    if world <= 0 || tile_size == 0 {
        0
    } else {
        let q: u32 = (world as u32) / tile_size;
        assert(q <= world) by (nonlinear_arith)
            requires
                q == (world as u32) / tile_size,
                tile_size >= 1,
                world > 0,
        ;
        q as i32
    }
}

fn world_coordinate_of(grid: i32, tile_size: u32) -> (w: i32)
    ensures
        w == world_coordinate(grid, tile_size),
{
    assert(-0x8000_0000_0000_0000 <= grid * tile_size + tile_size / 2 <= 0x7fff_ffff_ffff_ffff)
        by (nonlinear_arith)
        requires
            -0x8000_0000 <= grid <= 0x7fff_ffff,
            0 <= tile_size <= 0xffff_ffff,
    ;
    assert(-0x8000_0000_0000_0000 <= grid * tile_size <= 0x7fff_ffff_ffff_ffff)
        by (nonlinear_arith)
        requires
            -0x8000_0000 <= grid <= 0x7fff_ffff,
            0 <= tile_size <= 0xffff_ffff,
    ;
    let v: i64 = (grid as i64) * (tile_size as i64) + (tile_size as i64) / 2;
    if v < i32::MIN as i64 {
        i32::MIN
    } else if v > i32::MAX as i64 {
        i32::MAX
    } else {
        v as i32
    }
}

impl Clone for BattleMap {
    fn clone(&self) -> (copy: BattleMap)
        ensures
            copy@ == self@,
    {
        let mut tiles: Vec<TerrainTile> = Vec::new();
        let mut i: usize = 0;
        while i < self.tiles.len()
            invariant
                i <= self.tiles.len(),
                tiles@ == self.tiles@.subrange(0, i as int),
            decreases self.tiles.len() - i,
        {
            tiles.push(self.tiles[i]);
            i += 1;
        }
        assert(self.tiles@.subrange(0, i as int) == self.tiles@);
        BattleMap {
            width: self.width,
            height: self.height,
            tile_width: self.tile_width,
            tile_height: self.tile_height,
            tiles,
        }
    }
}

impl BattleMap {
    pub open spec fn wf(&self) -> bool {
        self@.wf()
    }

    /// A map of the given tiles, when they fill the grid, each is consistent
    /// with its kind, and a tile has a size.
    pub fn new(width: u32, height: u32, tile_width: u32, tile_height: u32, tiles: Vec<TerrainTile>) -> (map:
        Option<BattleMap>)
        ensures
            match map {
                Some(m) => m.wf() && m@ == (BattleMapView {
                    width,
                    height,
                    tile_width,
                    tile_height,
                    tiles: tiles@,
                }),
                None => !(BattleMapView { width, height, tile_width, tile_height, tiles: tiles@ }).wf(),
            },
    {
        let map = BattleMap { width, height, tile_width, tile_height, tiles };
        if map.is_wf() {
            Some(map)
        } else {
            None
        }
    }

    /// Whether the map is well formed.
    pub fn is_wf(&self) -> (ok: bool)
        ensures
            ok == self.wf(),
    {
        if self.tile_width == 0 || self.tile_height == 0 {
            return false;
        }
        assert(self.width * self.height <= 0xffff_ffff * 0xffff_ffff) by (nonlinear_arith)
            requires
                0 <= self.width <= 0xffff_ffff,
                0 <= self.height <= 0xffff_ffff,
        ;
        if self.tiles.len() as u64 != (self.width as u64) * (self.height as u64) {
            return false;
        }
        let mut i: usize = 0;
        while i < self.tiles.len()
            invariant
                i <= self.tiles.len(),
                forall|j: int| 0 <= j < i ==> (#[trigger] self.tiles@[j]).wf(),
            decreases self.tiles.len() - i,
        {
            let tile = &self.tiles[i];
            if tile.pedestrian_cost != tile.type_.pedestrian_cost() || tile.block_vehicle
                != tile.type_.block_vehicle() {
                return false;
            }
            i += 1;
        }
        true
    }

    /// Whether a grid point is on the map.
    pub fn contains(&self, p: &GridPoint) -> (inside: bool)
        ensures
            inside == self@.contains(*p),
    {
        0 <= p.x && (p.x as i64) < (self.width as i64) && 0 <= p.y && (p.y as i64) < (
        self.height as i64)
    }

    /// The tile at a grid point; none outside the map.
    pub fn tile_at(&self, p: &GridPoint) -> (tile: Option<&TerrainTile>)
        ensures
            match tile {
                Some(t) => self@.tile_at(*p) == Some(*t),
                None => self@.tile_at(*p) is None,
            },
    {
        if !self.contains(p) {
            return None;
        }
        assert(p.y * self.width + p.x <= 0xffff_ffff * 0xffff_ffff + 0xffff_ffff)
            by (nonlinear_arith)
            requires
                0 <= p.y <= 0xffff_ffff,
                0 <= self.width <= 0xffff_ffff,
                0 <= p.x <= 0xffff_ffff,
        ;
        assert(0 <= p.y * self.width) by (nonlinear_arith)
            requires
                0 <= p.y,
                0 <= self.width,
        ;
        let index: u64 = (p.y as u64) * (self.width as u64) + (p.x as u64);
        if index < self.tiles.len() as u64 {
            Some(&self.tiles[index as usize])
        } else {
            None
        }
    }

    /// The tile that holds a world point.
    pub fn grid_point_from_world_point(&self, world_point: WorldPoint) -> (grid: GridPoint)
        ensures
            grid == self@.grid_of(world_point),
            grid.x >= 0,
            grid.y >= 0,
    {
        GridPoint {
            x: grid_coordinate_of(world_point.x, self.tile_width),
            y: grid_coordinate_of(world_point.y, self.tile_height),
        }
    }

    /// The middle of a tile.
    pub fn world_point_from_grid_point(&self, grid_point: GridPoint) -> (world: WorldPoint)
        ensures
            world == self@.world_of(grid_point),
    {
        WorldPoint {
            x: world_coordinate_of(grid_point.x, self.tile_width),
            y: world_coordinate_of(grid_point.y, self.tile_height),
        }
    }

    /// Cost for a pedestrian to enter the tile at a grid point.
    pub fn pedestrian_cost(&self, p: &GridPoint) -> (cost: Option<i32>)
        ensures
            cost == match self@.tile_at(*p) {
                Some(tile) => Some(tile.pedestrian_cost),
                None => None,
            },
    {
        match self.tile_at(p) {
            Some(tile) => Some(tile.pedestrian_cost),
            None => None,
        }
    }

    /// Whether a vehicle can drive over a grid point.
    pub fn drivable(&self, p: &GridPoint) -> (free: bool)
        ensures
            free == self@.drivable(*p),
    {
        match self.tile_at(p) {
            Some(tile) => !tile.block_vehicle,
            None => false,
        }
    }

    /// Opacity at a world point, in parts per million.
    pub fn opacity_at(&self, p: WorldPoint) -> (opacity: u32)
        ensures
            opacity == self@.opacity_at(p),
            opacity <= 1000000,
    {
        let grid = self.grid_point_from_world_point(p);
        match self.tile_at(&grid) {
            Some(tile) => tile.type_.opacity(),
            None => 0,
        }
    }
}

} // verus!
