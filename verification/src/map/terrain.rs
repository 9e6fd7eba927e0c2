//! Terrain tiles and the table that gives each kind its movement cost.

use vstd::prelude::*;
use crate::text::{str_concat, str_eq};

verus! {

/// Kind of ground of a tile.
#[derive(Clone, Copy, Debug, PartialEq, Eq, Structural)]
pub enum TileType {
    ShortGrass,
    MiddleGrass,
    HighGrass,
    Dirt,
    Mud,
    Concrete,
    BrickWall,
    Trunk,
    Water,
    DeepWater,
    Underbrush,
    LightUnderbrush,
    MiddleWoodLogs,
    Hedge,
    MiddleRock,
}

#[derive(Debug)]
pub enum TerrainTileError {
    /// The map names a tile kind that the table does not hold.
    UnknownId(String),
}

/// One tile of the terrain layer.
#[derive(Clone, Copy, Debug, PartialEq, Eq, Structural)]
pub struct TerrainTile {
    pub type_: TileType,
    pub tile_width: u32,
    pub tile_height: u32,
    pub x: u32,
    pub y: u32,
    pub tile_x: u32,
    pub tile_y: u32,
    pub pedestrian_cost: i32,
    pub block_vehicle: bool,
}

/// Cost for a pedestrian to enter a tile of the given kind.
pub open spec fn pedestrian_cost_of(kind: TileType) -> int {
    match kind {
        TileType::ShortGrass | TileType::MiddleGrass | TileType::HighGrass => 10,
        TileType::Dirt | TileType::Mud => 11,
        TileType::Concrete | TileType::BrickWall | TileType::Trunk => 50,
        TileType::Water => 18,
        TileType::DeepWater => 50,
        TileType::Underbrush => 12,
        TileType::LightUnderbrush => 11,
        TileType::MiddleWoodLogs => 30,
        TileType::Hedge => 20,
        TileType::MiddleRock => 25,
    }
}

/// Whether a tile of the given kind stops vehicles.
pub open spec fn blocks_vehicle(kind: TileType) -> bool {
    match kind {
        TileType::ShortGrass
        | TileType::MiddleGrass
        | TileType::HighGrass
        | TileType::Dirt
        | TileType::Mud => false,
        _ => true,
    }
}

/// Share of sight that a tile of the given kind takes away, in parts per
/// million.
pub open spec fn opacity_of(kind: TileType) -> u32 {
    match kind {
        TileType::ShortGrass | TileType::Dirt | TileType::Mud | TileType::Concrete => 0,
        TileType::Water | TileType::DeepWater => 0,
        TileType::MiddleGrass => 8000,
        TileType::HighGrass => 20000,
        TileType::LightUnderbrush => 50000,
        TileType::Underbrush => 100000,
        TileType::Hedge => 200000,
        TileType::MiddleWoodLogs => 300000,
        TileType::MiddleRock => 400000,
        TileType::Trunk => 600000,
        TileType::BrickWall => 1000000,
    }
}

/// The kind that a map identifier names, if any.
pub open spec fn tile_type_of_id(id: Seq<char>) -> Option<TileType> {
    if id == "ShortGrass"@ {
        Some(TileType::ShortGrass)
    } else if id == "MiddleGrass"@ {
        Some(TileType::MiddleGrass)
    } else if id == "HighGrass"@ {
        Some(TileType::HighGrass)
    } else if id == "Dirt"@ {
        Some(TileType::Dirt)
    } else if id == "Mud"@ {
        Some(TileType::Mud)
    } else if id == "Concrete"@ {
        Some(TileType::Concrete)
    } else if id == "BrickWall"@ {
        Some(TileType::BrickWall)
    } else if id == "Trunk"@ {
        Some(TileType::Trunk)
    } else if id == "Water"@ {
        Some(TileType::Water)
    } else if id == "DeepWater"@ {
        Some(TileType::DeepWater)
    } else if id == "Underbrush"@ {
        Some(TileType::Underbrush)
    } else if id == "LightUnderbrush"@ {
        Some(TileType::LightUnderbrush)
    } else if id == "MiddleWoodLogs"@ {
        Some(TileType::MiddleWoodLogs)
    } else if id == "Hedge"@ {
        Some(TileType::Hedge)
    } else if id == "MiddleRock"@ {
        Some(TileType::MiddleRock)
    } else {
        None
    }
}

impl TileType {
    /// Cost for a pedestrian to enter a tile of this kind.
    pub fn pedestrian_cost(&self) -> (cost: i32)
        ensures
            cost == pedestrian_cost_of(*self),
            10 <= cost <= 50,
    {
        match self {
            TileType::ShortGrass | TileType::MiddleGrass | TileType::HighGrass => 10,
            TileType::Dirt | TileType::Mud => 11,
            TileType::Concrete | TileType::BrickWall | TileType::Trunk => 50,
            TileType::Water => 18,
            TileType::DeepWater => 50,
            TileType::Underbrush => 12,
            TileType::LightUnderbrush => 11,
            TileType::MiddleWoodLogs => 30,
            TileType::Hedge => 20,
            TileType::MiddleRock => 25,
        }
    }

    /// Whether a tile of this kind stops vehicles.
    pub fn block_vehicle(&self) -> (blocks: bool)
        ensures
            blocks == blocks_vehicle(*self),
    {
        match self {
            TileType::ShortGrass
            | TileType::MiddleGrass
            | TileType::HighGrass
            | TileType::Dirt
            | TileType::Mud => false,
            _ => true,
        }
    }

    /// Share of sight that a tile of this kind takes away, in parts per
    /// million.
    pub fn opacity(&self) -> (opacity: u32)
        ensures
            opacity == opacity_of(*self),
            opacity <= 1000000,
    {
        match self {
            TileType::ShortGrass | TileType::Dirt | TileType::Mud | TileType::Concrete => 0,
            TileType::Water | TileType::DeepWater => 0,
            TileType::MiddleGrass => 8000,
            TileType::HighGrass => 20000,
            TileType::LightUnderbrush => 50000,
            TileType::Underbrush => 100000,
            TileType::Hedge => 200000,
            TileType::MiddleWoodLogs => 300000,
            TileType::MiddleRock => 400000,
            TileType::Trunk => 600000,
            TileType::BrickWall => 1000000,
        }
    }

    /// The kind that a map identifier names, if any.
    pub fn from_id(id: &str) -> (kind: Option<TileType>)
        ensures
            kind == tile_type_of_id(id@),
    {
        if str_eq(id, "ShortGrass") {
            Some(TileType::ShortGrass)
        } else if str_eq(id, "MiddleGrass") {
            Some(TileType::MiddleGrass)
        } else if str_eq(id, "HighGrass") {
            Some(TileType::HighGrass)
        } else if str_eq(id, "Dirt") {
            Some(TileType::Dirt)
        } else if str_eq(id, "Mud") {
            Some(TileType::Mud)
        } else if str_eq(id, "Concrete") {
            Some(TileType::Concrete)
        } else if str_eq(id, "BrickWall") {
            Some(TileType::BrickWall)
        } else if str_eq(id, "Trunk") {
            Some(TileType::Trunk)
        } else if str_eq(id, "Water") {
            Some(TileType::Water)
        } else if str_eq(id, "DeepWater") {
            Some(TileType::DeepWater)
        } else if str_eq(id, "Underbrush") {
            Some(TileType::Underbrush)
        } else if str_eq(id, "LightUnderbrush") {
            Some(TileType::LightUnderbrush)
        } else if str_eq(id, "MiddleWoodLogs") {
            Some(TileType::MiddleWoodLogs)
        } else if str_eq(id, "Hedge") {
            Some(TileType::Hedge)
        } else if str_eq(id, "MiddleRock") {
            Some(TileType::MiddleRock)
        } else {
            None
        }
    }
}

impl TerrainTileError {
    /// The identifier that no tile kind answers to.
    pub open spec fn id(&self) -> Seq<char> {
        match self {
            TerrainTileError::UnknownId(id) => id@,
        }
    }

    /// The error as a line of text.
    pub fn message(&self) -> (text: String)
        ensures
            text@ == "Unknown id : "@ + self.id(),
    {
        match self {
            TerrainTileError::UnknownId(id) => str_concat("Unknown id : ", id.as_str()),
        }
    }
}

impl TerrainTile {
    /// A tile is consistent when its cost and blocking are those of its kind.
    pub open spec fn wf(&self) -> bool {
        &&& self.pedestrian_cost == pedestrian_cost_of(self.type_)
        &&& self.block_vehicle == blocks_vehicle(self.type_)
    }

    /// The tile that a map identifier names, with the cost and blocking of
    /// its kind; an identifier outside the table is an error that carries it.
    pub fn from_str_id(
        id: &str,
        tile_width: u32,
        tile_height: u32,
        x: u32,
        y: u32,
        tile_x: u32,
        tile_y: u32,
    ) -> (tile: Result<TerrainTile, TerrainTileError>)
        ensures
            match tile {
                Ok(t) => {
                    &&& tile_type_of_id(id@) == Some(t.type_)
                    &&& t.wf()
                    &&& t.tile_width == tile_width
                    &&& t.tile_height == tile_height
                    &&& t.x == x
                    &&& t.y == y
                    &&& t.tile_x == tile_x
                    &&& t.tile_y == tile_y
                },
                Err(e) => tile_type_of_id(id@) is None && e.id() == id@,
            },
    {
        match TileType::from_id(id) {
            Some(type_) => Ok(
                TerrainTile {
                    type_,
                    tile_width,
                    tile_height,
                    x,
                    y,
                    tile_x,
                    tile_y,
                    pedestrian_cost: type_.pedestrian_cost(),
                    block_vehicle: type_.block_vehicle(),
                },
            ),
            None => Err(TerrainTileError::UnknownId(id.to_owned())),
        }
    }
}

} // verus!
