//! Tile types and terrain system for the play field

use vstd::prelude::*;

verus! {

/// Different types of tiles that affect gameplay
#[derive(Clone, Copy, Debug, PartialEq, Eq, Structural, Hash)]
pub enum TileType {
    Empty,
    Fertile,
    BlockedRock,
    BlockedWater,
    BlockedMoss,
}

impl Default for TileType {
    fn default() -> (r: Self)
        ensures
            r == TileType::Empty,
    {
        TileType::Empty
    }
}

/// Production multiplier of a tile, in percent (125 means 1.25).
pub open spec fn spec_production_multiplier_percent(t: TileType) -> u32 {
    match t {
        TileType::Empty => 100,
        TileType::Fertile => 125,
        _ => 0,
    }
}

/// Whether a mushroom may be placed on a tile.
pub open spec fn spec_allows_mushroom(t: TileType) -> bool {
    !(t is BlockedRock || t is BlockedWater || t is BlockedMoss)
}

/// Whether mycelium may grow through a tile.
pub open spec fn spec_allows_mycelium(t: TileType) -> bool {
    t is Empty || t is Fertile || t is BlockedMoss
}

/// Mycelium strength modifier of a tile, in percent (100 means 1.0).
pub open spec fn spec_mycelium_strength_modifier_percent(t: TileType) -> u32 {
    match t {
        TileType::Empty => 100,
        TileType::Fertile => 100,
        _ => 0,
    }
}

impl TileType {
    /// Get production multiplier for mushrooms on this tile, in percent
    /// (the factor 1.25 of fertile soil is 125).
    pub fn production_multiplier(&self) -> (r: u32)
        ensures
            r == spec_production_multiplier_percent(*self),
    {
        match self {
            TileType::Empty => 100,
            TileType::Fertile => 125,
            TileType::BlockedRock | TileType::BlockedWater | TileType::BlockedMoss => 0,
        }
    }

    /// Can a mushroom be placed on this tile?
    pub fn allows_mushroom(&self) -> (r: bool)
        ensures
            r == spec_allows_mushroom(*self),
    {
        !matches!(self, TileType::BlockedRock | TileType::BlockedWater | TileType::BlockedMoss)
    }

    /// Can mycelium grow through this tile?
    pub fn allows_mycelium(&self) -> (r: bool)
        ensures
            r == spec_allows_mycelium(*self),
    {
        match self {
            TileType::Empty | TileType::Fertile | TileType::BlockedMoss => true,
            TileType::BlockedRock | TileType::BlockedWater => false,
        }
    }

    /// Modifier for mycelium strength on this tile, in percent (1.0 is 100).
    pub fn mycelium_strength_modifier(&self) -> (r: u32)
        ensures
            r == spec_mycelium_strength_modifier_percent(*self),
    {
        match self {
            TileType::Empty => 100,
            TileType::Fertile => 100,
            TileType::BlockedRock | TileType::BlockedWater | TileType::BlockedMoss => 0,
        }
    }
}

/// A tile produces with a mushroom on it exactly when a mushroom may be placed there;
/// mycelium carries strength exactly through the tiles that allow mushrooms, and
/// every such tile also lets mycelium through.
pub proof fn lemma_tile_rules_agree(t: TileType)
    ensures
        spec_allows_mushroom(t) <==> spec_production_multiplier_percent(t) > 0,
        spec_allows_mushroom(t) <==> spec_mycelium_strength_modifier_percent(t) > 0,
        spec_allows_mushroom(t) ==> spec_allows_mycelium(t),
        spec_production_multiplier_percent(t) >= spec_mycelium_strength_modifier_percent(t),
{
}

/// What each kind of ground does: plain soil yields fully, fertile soil a quarter
/// more, and both carry mycelium at full strength; rock and water take neither
/// mushrooms nor mycelium; moss lets mycelium through but takes no mushroom and
/// gives it no strength.
pub proof fn lemma_tile_values()
    ensures
        spec_production_multiplier_percent(TileType::Empty) == 100,
        spec_production_multiplier_percent(TileType::Fertile) == 125,
        spec_production_multiplier_percent(TileType::BlockedRock) == 0,
        spec_production_multiplier_percent(TileType::BlockedWater) == 0,
        spec_production_multiplier_percent(TileType::BlockedMoss) == 0,
        spec_mycelium_strength_modifier_percent(TileType::Empty) == 100,
        spec_mycelium_strength_modifier_percent(TileType::Fertile) == 100,
        spec_mycelium_strength_modifier_percent(TileType::BlockedRock) == 0,
        spec_mycelium_strength_modifier_percent(TileType::BlockedWater) == 0,
        spec_mycelium_strength_modifier_percent(TileType::BlockedMoss) == 0,
        spec_allows_mushroom(TileType::Empty) && spec_allows_mushroom(TileType::Fertile),
        !spec_allows_mushroom(TileType::BlockedRock) && !spec_allows_mushroom(
            TileType::BlockedWater,
        ) && !spec_allows_mushroom(TileType::BlockedMoss),
        spec_allows_mycelium(TileType::Empty) && spec_allows_mycelium(TileType::Fertile)
            && spec_allows_mycelium(TileType::BlockedMoss),
        !spec_allows_mycelium(TileType::BlockedRock) && !spec_allows_mycelium(
            TileType::BlockedWater,
        ),
{
}

} // verus!
