//! The draw roles of level entities and the depth layers they are extruded into.
//!
//! The level is two-dimensional; the renderer extrudes each box backwards along Z by a
//! depth that depends on its role, and stacks the roles in layers in front of the
//! level plane.
use vstd::prelude::*;

use crate::TILE;

verus! {

/// Which kind of thing a block is drawn as.
#[derive(Debug, Clone, Copy, PartialEq, Eq, Hash, Structural)]
pub enum BlockKind {
    Solid,
    OneWay,
    Moving,
    Coin,
    Hazard,
    Player,
    GoalPole,
    GoalFlag,
}

/// How deep the level architecture is along Z: a full tile.
pub const DEPTH_TERRAIN: u64 = TILE;

/// How deep props (coins, spikes, the goal) are along Z: half a tile.
pub const DEPTH_PROP: u64 = TILE / 2;

/// How deep the player is along Z.
pub const DEPTH_PLAYER: u64 = 20;

/// Breathing room between adjacent layers, so no two layers share a face.
pub const LAYER_GAP: u64 = 1;

/// Z of the level architecture: solids, one-ways, moving platforms. The level plane.
pub const LAYER_TERRAIN: u64 = 0;

/// Z of the props, in front of the architecture.
pub const LAYER_PROP: u64 = LAYER_TERRAIN + (DEPTH_TERRAIN + DEPTH_PROP) / 2 + LAYER_GAP;

/// Z of the player, in front of everything else.
pub const LAYER_PLAYER: u64 = LAYER_PROP + (DEPTH_PROP + DEPTH_PLAYER) / 2 + LAYER_GAP;

/// The depth of a kind of block.
pub open spec fn depth_of(kind: BlockKind) -> u64 {
    match kind {
        BlockKind::Solid | BlockKind::OneWay | BlockKind::Moving => DEPTH_TERRAIN,
        BlockKind::Coin | BlockKind::Hazard | BlockKind::GoalPole | BlockKind::GoalFlag => DEPTH_PROP,
        BlockKind::Player => DEPTH_PLAYER,
    }
}

impl BlockKind {
    /// How far this kind of block extends along Z, in world units.
    pub fn depth(self) -> (depth: u64)
        ensures
            depth == depth_of(self),
    {
        match self {
            BlockKind::Solid | BlockKind::OneWay | BlockKind::Moving => DEPTH_TERRAIN,
            BlockKind::Coin | BlockKind::Hazard | BlockKind::GoalPole | BlockKind::GoalFlag => DEPTH_PROP,
            BlockKind::Player => DEPTH_PLAYER,
        }
    }
}

/// The layers are stacked front to back with exactly [`LAYER_GAP`] between the front face
/// of one and the back face of the next: terrain spans `[-16, 16]`, props `[17, 33]`
/// and the player `[34, 54]`.
pub proof fn layers_are_separated_by_the_gap()
    ensures
        LAYER_TERRAIN + DEPTH_TERRAIN / 2 + LAYER_GAP == LAYER_PROP - DEPTH_PROP / 2,
        LAYER_PROP + DEPTH_PROP / 2 + LAYER_GAP == LAYER_PLAYER - DEPTH_PLAYER / 2,
        LAYER_PROP == 25,
        LAYER_PLAYER == 44,
{
}

} // verus!
