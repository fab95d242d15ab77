//! Field rendering data: the tile sprite of each cell and the texture of tile
//! indices that the ground shader reads.
//!
//! COORDINATE SYSTEM NOTES:
//! - Grid coordinates: Y=0 at TOP, Y increases DOWNWARD
//! - Texture coordinates: Y=0 at BOTTOM, Y increases UPWARD

use vstd::prelude::*;

use crate::play_field::field::{in_field, PlayField};
use crate::play_field::position::GridPosition;
use crate::play_field::tile_atlas::{sprite_index, TileSprite};
use crate::play_field::tiles::TileType;

verus! {

/// Convert grid Y coordinate to texture Y coordinate
/// Grid Y=0 is at TOP, texture Y=0 is at BOTTOM
pub fn grid_y_to_texture_y(grid_y: u32, texture_height: u32) -> (r: u32)
    requires
        grid_y < texture_height,
    ensures
        r == texture_height - 1 - grid_y,
{
    texture_height - 1 - grid_y
}

/// The byte offset of the texel of grid cell `(x, y)` in an RGBA texture of the
/// given size, rows stored from the bottom up.
pub open spec fn spec_texture_index(x: int, y: int, w: int, h: int) -> int {
    ((h - 1 - y) * w + x) * 4
}

/// Convert grid position to texture pixel index for RGBA textures
pub fn grid_pos_to_texture_index(
    grid_x: u32,
    grid_y: u32,
    texture_width: u32,
    texture_height: u32,
) -> (r: usize)
    requires
        grid_y < texture_height,
        spec_texture_index(grid_x as int, grid_y as int, texture_width as int, texture_height as int)
            <= u32::MAX,
    ensures
        r == spec_texture_index(
            grid_x as int,
            grid_y as int,
            texture_width as int,
            texture_height as int,
        ),
{
    let texture_y = grid_y_to_texture_y(grid_y, texture_height);
    proof {
        assert(texture_y * texture_width <= (texture_y * texture_width + grid_x) * 4)
            by (nonlinear_arith)
            requires
                0 <= texture_y,
                0 <= texture_width,
                0 <= grid_x,
        ;
    }
    ((texture_y * texture_width + grid_x) * 4) as usize
}

/// The remainder of `a` by `m` as Rust's `%` computes it on signed integers: it has
/// the sign of `a`.
pub open spec fn truncated_rem(a: int, m: int) -> int {
    if a >= 0 {
        a % m
    } else {
        -((-a) % m)
    }
}

/// The sprite variant number of a tile type at `(x, y)`: a fixed mix of the
/// coordinates, so that neighbouring tiles of one type tend to differ.
pub open spec fn variant_mix(t: TileType, x: int, y: int) -> int {
    match t {
        TileType::Empty => x * 11 + y * 17,
        TileType::Fertile => x * 13 + y * 19,
        TileType::BlockedRock => x * 23 + y * 29,
        TileType::BlockedWater => x * 31 + y * 37,
        TileType::BlockedMoss => x * 17 + y * 41,
    }
}

/// Positions where the variant mix of a tile type fits in an `i32`.
pub open spec fn sprite_mix_fits(t: TileType, p: GridPosition) -> bool {
    let (x, y) = (p.x as int, p.y as int);
    let (a, b) = match t {
        TileType::Empty => (11int, 17int),
        TileType::Fertile => (13int, 19int),
        TileType::BlockedRock => (23int, 29int),
        TileType::BlockedWater => (31int, 37int),
        TileType::BlockedMoss => (17int, 41int),
    };
    &&& i32::MIN <= x * a <= i32::MAX
    &&& i32::MIN <= y * b <= i32::MAX
    &&& i32::MIN <= x * a + y * b <= i32::MAX
}

/// The sprite drawn for a tile type at a position: empty soil has three variants,
/// the other types two, picked by the variant mix of the position.
pub open spec fn spec_select_tile_sprite(t: TileType, p: GridPosition) -> TileSprite {
    let v = variant_mix(t, p.x as int, p.y as int);
    match t {
        TileType::Empty => {
            let r = truncated_rem(v, 3);
            if r == 0 {
                TileSprite::Soil1
            } else if r == 1 {
                TileSprite::Soil2
            } else {
                TileSprite::Soil3
            }
        },
        TileType::Fertile => if truncated_rem(v, 2) == 0 {
            TileSprite::RichSoil1
        } else {
            TileSprite::RichSoil2
        },
        TileType::BlockedRock => if truncated_rem(v, 2) == 0 {
            TileSprite::BlockerRock1
        } else {
            TileSprite::BlockerRock2
        },
        TileType::BlockedWater => if truncated_rem(v, 2) == 0 {
            TileSprite::BlockerWater1
        } else {
            TileSprite::BlockerWater2
        },
        TileType::BlockedMoss => if truncated_rem(v, 2) == 0 {
            TileSprite::BlockerMoss1
        } else {
            TileSprite::BlockerMoss2
        },
    }
}

/// Select tile sprite
pub fn select_tile_sprite(tile_type: TileType, position: GridPosition) -> (r: TileSprite)
    requires
        sprite_mix_fits(tile_type, position),
    ensures
        r == spec_select_tile_sprite(tile_type, position),
{
    match tile_type {
        TileType::Empty => {
            let variant = (position.x * 11 + position.y * 17) % 3;
            match variant {
                0 => TileSprite::Soil1,
                1 => TileSprite::Soil2,
                _ => TileSprite::Soil3,
            }
        },
        TileType::Fertile => {
            let variant = (position.x * 13 + position.y * 19) % 2;
            match variant {
                0 => TileSprite::RichSoil1,
                _ => TileSprite::RichSoil2,
            }
        },
        TileType::BlockedRock => {
            let variant = (position.x * 23 + position.y * 29) % 2;
            match variant {
                0 => TileSprite::BlockerRock1,
                _ => TileSprite::BlockerRock2,
            }
        },
        TileType::BlockedWater => {
            let variant = (position.x * 31 + position.y * 37) % 2;
            match variant {
                0 => TileSprite::BlockerWater1,
                _ => TileSprite::BlockerWater2,
            }
        },
        TileType::BlockedMoss => {
            let variant = (position.x * 17 + position.y * 41) % 2;
            match variant {
                0 => TileSprite::BlockerMoss1,
                _ => TileSprite::BlockerMoss2,
            }
        },
    }
}

/// Every tile type is drawn with a sprite of its own kind.
pub proof fn lemma_sprite_matches_tile(t: TileType, p: GridPosition)
    ensures
        ({
            let i = sprite_index(spec_select_tile_sprite(t, p));
            match t {
                TileType::Empty => 3 <= i <= 5,
                TileType::Fertile => 13 <= i <= 14,
                TileType::BlockedWater => 15 <= i <= 16,
                TileType::BlockedRock => 17 <= i <= 18,
                TileType::BlockedMoss => 19 <= i <= 20,
            }
        }),
{
}

/// The value stored for a sprite in the tile index texture: the atlas index scaled
/// from the 21 sprites of the atlas to the range of a byte, rounded down.
pub open spec fn spec_tile_index_value(sprite_index: u32) -> u8 {
    (sprite_index * 255 / 21) as u8
}

/// Scale an atlas index (of the 21 sprites) to the range of a byte, rounded down
pub fn tile_index_value(sprite_index: u32) -> (r: u8)
    requires
        sprite_index < 21,
    ensures
        r == spec_tile_index_value(sprite_index),
        r == sprite_index * 255 / 21,
{
    (sprite_index * 255 / 21) as u8
}

/// The tile type of a cell of a field whose tile list has one tile per cell.
pub open spec fn cell_tile(field: PlayField, x: int, y: int) -> TileType {
    field.tiles@[y * field.width + x]
}

/// The size of a field is small enough for the texture of tile indices: the
/// texture's bytes are counted in a `u32`, and every cell's variant mix fits in an
/// `i32`.
pub open spec fn texture_fits(field: PlayField) -> bool {
    &&& field.width >= 0
    &&& field.height >= 0
    &&& field.width * field.height * 4 <= u32::MAX
    &&& 41 * field.width + 41 * field.height <= i32::MAX
}

/// Create the texels of the texture of tile indices: four bytes (red, green, blue,
/// alpha) per cell, rows from the bottom of the field up; red holds the scaled atlas
/// index of the cell's sprite, green and blue are zero and alpha is opaque
pub fn create_tile_indices_data(play_field: &PlayField) -> (data: Vec<u8>)
    requires
        play_field.wf(),
        texture_fits(*play_field),
    ensures
        data@.len() == play_field.width * play_field.height * 4,
        forall|x: int, y: int|
            #![trigger cell_tile(*play_field, x, y)]
            in_field(play_field.width as int, play_field.height as int, x, y) ==> {
                let i = spec_texture_index(x, y, play_field.width as int, play_field.height as int);
                &&& data@[i] == spec_tile_index_value(
                    sprite_index(
                        spec_select_tile_sprite(
                            cell_tile(*play_field, x, y),
                            GridPosition { x: x as i32, y: y as i32 },
                        ),
                    ),
                )
                &&& data@[i + 1] == 0
                &&& data@[i + 2] == 0
                &&& data@[i + 3] == 255
            },
{
    let width = play_field.width as u32;
    let height = play_field.height as u32;
    proof {
        assert(width * height * 4 <= u32::MAX);
        assert(0 <= width * height) by (nonlinear_arith)
            requires
                0 <= width,
                0 <= height,
        ;
    }
    let n = (width * height * 4) as usize;
    let mut data: Vec<u8> = Vec::new();
    let mut k: usize = 0;
    while k < n
        invariant
            0 <= k <= n,
            data@.len() == k,
        decreases n - k,
    {
        data.push(0u8);
        k = k + 1;
    }
    let ghost w = width as int;
    let ghost h = height as int;
    let mut y: u32 = 0;
    while y < height
        invariant
            0 <= y <= height,
            w == width,
            h == height,
            width == play_field.width,
            height == play_field.height,
            play_field.wf(),
            texture_fits(*play_field),
            n == w * h * 4,
            data@.len() == n,
            forall|cx: int, cy: int|
                #![trigger cell_tile(*play_field, cx, cy)]
                0 <= cx < w && 0 <= cy < y ==> {
                    let i = spec_texture_index(cx, cy, w, h);
                    &&& data@[i] == spec_tile_index_value(
                        sprite_index(
                            spec_select_tile_sprite(
                                cell_tile(*play_field, cx, cy),
                                GridPosition { x: cx as i32, y: cy as i32 },
                            ),
                        ),
                    )
                    &&& data@[i + 1] == 0
                    &&& data@[i + 2] == 0
                    &&& data@[i + 3] == 255
                },
        decreases height - y,
    {
        let mut x: u32 = 0;
        while x < width
            invariant
                0 <= x <= width,
                0 <= y < height,
                w == width,
                h == height,
                width == play_field.width,
                height == play_field.height,
                play_field.wf(),
                texture_fits(*play_field),
                n == w * h * 4,
                data@.len() == n,
                forall|cx: int, cy: int|
                    #![trigger cell_tile(*play_field, cx, cy)]
                    0 <= cx < w && 0 <= cy < h && (cy < y || (cy == y && cx < x)) ==> {
                        let i = spec_texture_index(cx, cy, w, h);
                        &&& data@[i] == spec_tile_index_value(
                            sprite_index(
                                spec_select_tile_sprite(
                                    cell_tile(*play_field, cx, cy),
                                    GridPosition { x: cx as i32, y: cy as i32 },
                                ),
                            ),
                        )
                        &&& data@[i + 1] == 0
                        &&& data@[i + 2] == 0
                        &&& data@[i + 3] == 255
                    },
            decreases width - x,
        {
            let pos = GridPosition::new(x as i32, y as i32);
            let tile_type = match play_field.get_tile(pos) {
                Some(t) => t,
                None => TileType::Empty,
            };
            proof {
                assert(tile_type == cell_tile(*play_field, x as int, y as int));
                assert(sprite_mix_fits(tile_type, pos)) by {
                    assert(0 <= x * 41 <= 41 * w) by (nonlinear_arith)
                        requires
                            0 <= x <= w,
                    ;
                    assert(0 <= y * 41 <= 41 * h) by (nonlinear_arith)
                        requires
                            0 <= y <= h,
                    ;
                    assert(0 <= x * 11 <= x * 41 && 0 <= x * 13 <= x * 41 && 0 <= x * 23 <= x * 41
                        && 0 <= x * 31 <= x * 41 && 0 <= x * 17 <= x * 41) by (nonlinear_arith)
                        requires
                            0 <= x,
                    ;
                    assert(0 <= y * 17 <= y * 41 && 0 <= y * 19 <= y * 41 && 0 <= y * 29 <= y * 41
                        && 0 <= y * 37 <= y * 41) by (nonlinear_arith)
                        requires
                            0 <= y,
                    ;
                }
            }
            // Select sprite based on tile type
            let sprite = select_tile_sprite(tile_type, pos);
            let idx = sprite.index();
            // Store tile index in R channel
            // Our atlas has 21 sprites, so we'll normalize to 0-255 range
            let tile_value = tile_index_value(idx);
            proof {
                lemma_texel_in_bounds(x as int, y as int, w, h);
            }
            let pixel_index = grid_pos_to_texture_index(x, y, width, height);
            let ghost before = data@;
            data.set(pixel_index, tile_value);
            data.set(pixel_index + 1, 0);
            data.set(pixel_index + 2, 0);
            data.set(pixel_index + 3, 255);
            proof {
                assert forall|cx: int, cy: int|
                    #![trigger cell_tile(*play_field, cx, cy)]
                    0 <= cx < w && 0 <= cy < h && (cy < y || (cy == y && cx < x + 1)) implies {
                        let i = spec_texture_index(cx, cy, w, h);
                        &&& data@[i] == spec_tile_index_value(
                            sprite_index(
                                spec_select_tile_sprite(
                                    cell_tile(*play_field, cx, cy),
                                    GridPosition { x: cx as i32, y: cy as i32 },
                                ),
                            ),
                        )
                        &&& data@[i + 1] == 0
                        &&& data@[i + 2] == 0
                        &&& data@[i + 3] == 255
                    } by {
                    if !(cx == x && cy == y) {
                        lemma_texels_apart(cx, cy, x as int, y as int, w, h);
                        lemma_texel_in_bounds(cx, cy, w, h);
                    }
                }
            }
            x = x + 1;
        }
        y = y + 1;
    }
    data
}

/// The four bytes of a cell's texel lie in the texture.
proof fn lemma_texel_in_bounds(x: int, y: int, w: int, h: int)
    requires
        0 <= x < w,
        0 <= y < h,
    ensures
        0 <= spec_texture_index(x, y, w, h),
        spec_texture_index(x, y, w, h) + 3 < w * h * 4,
{
    assert(0 <= (h - 1 - y) * w) by (nonlinear_arith)
        requires
            0 <= h - 1 - y,
            0 <= w,
    ;
    assert((h - 1 - y) * w + x < h * w) by (nonlinear_arith)
        requires
            0 <= h - 1 - y < h,
            0 <= x < w,
    ;
    assert(h * w == w * h) by (nonlinear_arith);
}

/// The texels of two different cells do not overlap.
proof fn lemma_texels_apart(x1: int, y1: int, x2: int, y2: int, w: int, h: int)
    requires
        0 <= x1 < w,
        0 <= y1 < h,
        0 <= x2 < w,
        0 <= y2 < h,
        !(x1 == x2 && y1 == y2),
    ensures
        spec_texture_index(x1, y1, w, h) + 4 <= spec_texture_index(x2, y2, w, h)
            || spec_texture_index(x2, y2, w, h) + 4 <= spec_texture_index(x1, y1, w, h),
{
    let r1 = h - 1 - y1;
    let r2 = h - 1 - y2;
    if r1 < r2 {
        assert(r1 * w + w <= r2 * w) by (nonlinear_arith)
            requires
                r1 + 1 <= r2,
                0 <= w,
        ;
    } else if r2 < r1 {
        assert(r2 * w + w <= r1 * w) by (nonlinear_arith)
            requires
                r2 + 1 <= r1,
                0 <= w,
        ;
    }
}

} // verus!
