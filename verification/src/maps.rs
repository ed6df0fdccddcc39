//! Map assets: the closed enumeration of game maps and the initializer that
//! produces each map's placed blocks.

use vstd::prelude::*;

use crate::blocks::{Block, Generic, Wheat};
use crate::things::{BlockData, BlockState, CollisionTy};
use crate::ui::{BlockTy, Point};

verus! {

/// The closed enumeration of game maps.
#[derive(Clone, Copy, PartialEq, Eq, Structural, Debug)]
pub enum GameMap {
    Farm,
}

impl Default for GameMap {
    /// The default map is the farm.
    fn default() -> (r: GameMap)
        ensures
            r == GameMap::Farm,
    {
        GameMap::Farm
    }
}

/// One fully grown, harvestable wheat block of the farm's wheat row.
pub open spec fn farm_wheat(x: u16) -> BlockData {
    BlockData {
        state: BlockState {
            pos: Point(x, 1),
            collision: CollisionTy::CanUse,
            ty: BlockTy::Wheat,
        },
        block: Block::Wheat(Wheat { tick: 0 }),
    }
}

/// One impassable water block of the farm's water row.
pub open spec fn farm_water(x: u16) -> BlockData {
    BlockData {
        state: BlockState {
            pos: Point(x, 2),
            collision: CollisionTy::Collision,
            ty: BlockTy::Water,
        },
        block: Block::Generic(Generic),
    }
}

/// The farm map: a row of wheat above a row of water.
pub open spec fn spec_farm() -> Seq<BlockData> {
    seq![
        farm_wheat(1),
        farm_wheat(2),
        farm_wheat(3),
        farm_wheat(4),
        farm_wheat(5),
        farm_water(1),
        farm_water(2),
        farm_water(3),
        farm_water(4),
        farm_water(5),
    ]
}

/// The farm map places every block on its own cell.
pub proof fn lemma_farm_positions_unique()
    ensures
        crate::map::positions_unique(spec_farm()),
{
    assert forall|i: int, j: int| 0 <= i < j < spec_farm().len() implies spec_farm()[i].state.pos
        != spec_farm()[j].state.pos by {
        let f = spec_farm();
        assert(f.len() == 10);
    }
}

/// Builds the farm map's blocks.
pub fn init() -> (r: Vec<BlockData>)
    ensures
        r@ == spec_farm(),
{
    let r: Vec<BlockData> = vec![
        BlockData::new(Point(1, 1), CollisionTy::CanUse, BlockTy::Wheat, Block::Wheat(Wheat::new())),
        BlockData::new(Point(2, 1), CollisionTy::CanUse, BlockTy::Wheat, Block::Wheat(Wheat::new())),
        BlockData::new(Point(3, 1), CollisionTy::CanUse, BlockTy::Wheat, Block::Wheat(Wheat::new())),
        BlockData::new(Point(4, 1), CollisionTy::CanUse, BlockTy::Wheat, Block::Wheat(Wheat::new())),
        BlockData::new(Point(5, 1), CollisionTy::CanUse, BlockTy::Wheat, Block::Wheat(Wheat::new())),
        BlockData::new(Point(1, 2), CollisionTy::Collision, BlockTy::Water, Block::Generic(Generic)),
        BlockData::new(Point(2, 2), CollisionTy::Collision, BlockTy::Water, Block::Generic(Generic)),
        BlockData::new(Point(3, 2), CollisionTy::Collision, BlockTy::Water, Block::Generic(Generic)),
        BlockData::new(Point(4, 2), CollisionTy::Collision, BlockTy::Water, Block::Generic(Generic)),
        BlockData::new(Point(5, 2), CollisionTy::Collision, BlockTy::Water, Block::Generic(Generic)),
    ];
    proof {
        assert(r@ =~= spec_farm());
    }
    r
}

impl GameMap {
    /// Builds the placed blocks of this map.
    pub fn init(self) -> (r: Vec<BlockData>)
        ensures
            r@ == spec_map_blocks(self),
    {
        match self {
            GameMap::Farm => init(),
        }
    }
}

/// The blocks each map starts with.
pub open spec fn spec_map_blocks(m: GameMap) -> Seq<BlockData> {
    match m {
        GameMap::Farm => spec_farm(),
    }
}

} // verus!
