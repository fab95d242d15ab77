//! Tile atlas configuration and mapping

use vstd::prelude::*;

verus! {

/// Available tile sprites in the atlas
#[derive(Debug, Clone, Copy, PartialEq, Eq, Structural)]
pub enum TileSprite {
    // Rocky terrain variants
    Rock1,
    Rock2,
    Rock3,
    // Standard soil variants
    Soil1,
    Soil2,
    Soil3,
    // Border tiles
    Border1,
    Border2,
    Border3,
    // Corner tiles
    OutsideCorner1,
    OutsideCorner2,
    InsideCorner1,
    InsideCorner2,
    // Rich/fertile soil variants
    RichSoil1,
    RichSoil2,
    // Blocker variants
    BlockerWater1,
    BlockerWater2,
    BlockerRock1,
    BlockerRock2,
    BlockerMoss1,
    BlockerMoss2,
}

/// The position of a sprite in the atlas (its row in the vertical strip).
pub open spec fn sprite_index(s: TileSprite) -> u32 {
    match s {
        TileSprite::Rock1 => 0,
        TileSprite::Rock2 => 1,
        TileSprite::Rock3 => 2,
        TileSprite::Soil1 => 3,
        TileSprite::Soil2 => 4,
        TileSprite::Soil3 => 5,
        TileSprite::Border1 => 6,
        TileSprite::Border2 => 7,
        TileSprite::Border3 => 8,
        TileSprite::OutsideCorner1 => 9,
        TileSprite::OutsideCorner2 => 10,
        TileSprite::InsideCorner1 => 11,
        TileSprite::InsideCorner2 => 12,
        TileSprite::RichSoil1 => 13,
        TileSprite::RichSoil2 => 14,
        TileSprite::BlockerWater1 => 15,
        TileSprite::BlockerWater2 => 16,
        TileSprite::BlockerRock1 => 17,
        TileSprite::BlockerRock2 => 18,
        TileSprite::BlockerMoss1 => 19,
        TileSprite::BlockerMoss2 => 20,
    }
}

impl TileSprite {
    /// Get the atlas index for this sprite
    pub fn index(&self) -> (r: u32)
        ensures
            r == sprite_index(*self),
    {
        match self {
            TileSprite::Rock1 => 0,
            TileSprite::Rock2 => 1,
            TileSprite::Rock3 => 2,
            TileSprite::Soil1 => 3,
            TileSprite::Soil2 => 4,
            TileSprite::Soil3 => 5,
            TileSprite::Border1 => 6,
            TileSprite::Border2 => 7,
            TileSprite::Border3 => 8,
            TileSprite::OutsideCorner1 => 9,
            TileSprite::OutsideCorner2 => 10,
            TileSprite::InsideCorner1 => 11,
            TileSprite::InsideCorner2 => 12,
            TileSprite::RichSoil1 => 13,
            TileSprite::RichSoil2 => 14,
            TileSprite::BlockerWater1 => 15,
            TileSprite::BlockerWater2 => 16,
            TileSprite::BlockerRock1 => 17,
            TileSprite::BlockerRock2 => 18,
            TileSprite::BlockerMoss1 => 19,
            TileSprite::BlockerMoss2 => 20,
        }
    }
}

/// Every sprite lies inside the atlas, and different sprites have different indices.
pub proof fn lemma_sprite_index_in_atlas_and_injective(a: TileSprite, b: TileSprite)
    ensures
        sprite_index(a) < default_total_tiles(),
        sprite_index(a) == sprite_index(b) ==> a == b,
{
}

/// Configuration for the tile atlas texture
pub struct TileAtlasConfig {
    pub tile_size: u32,
    pub tiles_per_row: u32,
    pub total_tiles: u32,
}

/// Number of tiles of the default atlas.
pub open spec fn default_total_tiles() -> u32 {
    21
}

impl Default for TileAtlasConfig {
    fn default() -> (r: Self)
        ensures
            r.tile_size == 16,
            r.tiles_per_row == 1,
            r.total_tiles == default_total_tiles(),
    {
        Self {
            tile_size: 16,
            tiles_per_row: 1,  // Vertical strip
            total_tiles: 21,
        }
    }
}

} // verus!
