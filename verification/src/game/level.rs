//! Level definitions and configuration

use vstd::prelude::*;

use crate::game::game_flow::decimal_text;
use crate::game::resources::GameState;
use crate::play_field::field::{in_field, resized, PlayField};
use crate::mushrooms::definitions::MushroomType;
use crate::play_field::position::GridPosition;
use crate::play_field::tiles::TileType;

verus! {

/// Mushrooms that are pre-placed on the level
#[derive(Debug, Clone, Copy, PartialEq, Eq, Structural)]
pub struct StartingMushroom {
    pub x: i32,
    pub y: i32,
    pub mushroom_type: MushroomType,
}

/// A single level's configuration
#[derive(Debug)]
pub struct LevelDefinition {
    pub name: String,
    pub grid_width: i32,
    pub grid_height: i32,
    /// Spores to earn to complete the level, in whole spores
    pub target_score: u64,
    pub max_turns: u32,
    pub starting_mushrooms: Vec<StartingMushroom>,
    pub tile_configuration: Vec<(GridPosition, TileType)>,
}

/// The mathematical content of a level definition.
pub struct LevelDefinitionView {
    pub name: Seq<char>,
    pub grid_width: i32,
    pub grid_height: i32,
    pub target_score: u64,
    pub max_turns: u32,
    pub starting_mushrooms: Seq<StartingMushroom>,
    pub tile_configuration: Seq<(GridPosition, TileType)>,
}

impl View for LevelDefinition {
    type V = LevelDefinitionView;

    open spec fn view(&self) -> LevelDefinitionView {
        LevelDefinitionView {
            name: self.name@,
            grid_width: self.grid_width,
            grid_height: self.grid_height,
            target_score: self.target_score,
            max_turns: self.max_turns,
            starting_mushrooms: self.starting_mushrooms@,
            tile_configuration: self.tile_configuration@,
        }
    }
}

impl Clone for LevelDefinition {
    fn clone(&self) -> (r: Self)
        ensures
            r@ == self@,
    {
        let name = self.name.clone();
        let mut starting_mushrooms: Vec<StartingMushroom> = Vec::new();
        let mut i: usize = 0;
        while i < self.starting_mushrooms.len()
            invariant
                0 <= i <= self.starting_mushrooms@.len(),
                starting_mushrooms@ == self.starting_mushrooms@.take(i as int),
            decreases self.starting_mushrooms.len() - i,
        {
            starting_mushrooms.push(self.starting_mushrooms[i]);
            proof {
                assert(self.starting_mushrooms@.take(i + 1) =~= self.starting_mushrooms@.take(
                    i as int,
                ).push(self.starting_mushrooms@[i as int]));
            }
            i = i + 1;
        }
        let mut tile_configuration: Vec<(GridPosition, TileType)> = Vec::new();
        let mut j: usize = 0;
        while j < self.tile_configuration.len()
            invariant
                0 <= j <= self.tile_configuration@.len(),
                tile_configuration@ == self.tile_configuration@.take(j as int),
            decreases self.tile_configuration.len() - j,
        {
            tile_configuration.push(self.tile_configuration[j]);
            proof {
                assert(self.tile_configuration@.take(j + 1) =~= self.tile_configuration@.take(
                    j as int,
                ).push(self.tile_configuration@[j as int]));
            }
            j = j + 1;
        }
        proof {
            assert(starting_mushrooms@ =~= self.starting_mushrooms@);
            assert(tile_configuration@ =~= self.tile_configuration@);
        }
        LevelDefinition {
            name,
            grid_width: self.grid_width,
            grid_height: self.grid_height,
            target_score: self.target_score,
            max_turns: self.max_turns,
            starting_mushrooms,
            tile_configuration,
        }
    }
}

impl Default for LevelDefinition {
    fn default() -> (r: Self)
        ensures
            r@ == (LevelDefinitionView {
                name: "Level"@,
                grid_width: 8,
                grid_height: 8,
                target_score: 500,
                max_turns: 3,
                starting_mushrooms: Seq::empty(),
                tile_configuration: Seq::empty(),
            }),
    {
        let r = Self {
            name: "Level".to_string(),
            grid_width: 8,
            grid_height: 8,
            target_score: 500,
            max_turns: 3,
            starting_mushrooms: Vec::new(),
            tile_configuration: Vec::new(),
        };
        proof {
            assert(r.starting_mushrooms@ =~= Seq::<StartingMushroom>::empty());
            assert(r.tile_configuration@ =~= Seq::<(GridPosition, TileType)>::empty());
        }
        r
    }
}

/// The tiles that level 1 sets.
pub open spec fn spec_level1_tiles() -> Seq<(GridPosition, TileType)> {
    seq![(GridPosition { x: 1i32, y: 1i32 }, TileType::Fertile), (GridPosition { x: 2i32, y: 1i32 }, TileType::Fertile), (GridPosition { x: 1i32, y: 2i32 }, TileType::Fertile), (GridPosition { x: 9i32, y: 7i32 }, TileType::Fertile), (GridPosition { x: 10i32, y: 7i32 }, TileType::Fertile), (GridPosition { x: 10i32, y: 8i32 }, TileType::Fertile), (GridPosition { x: 7i32, y: 1i32 }, TileType::BlockedRock), (GridPosition { x: 8i32, y: 1i32 }, TileType::BlockedRock), (GridPosition { x: 9i32, y: 1i32 }, TileType::BlockedRock), (GridPosition { x: 7i32, y: 2i32 }, TileType::BlockedRock), (GridPosition { x: 8i32, y: 2i32 }, TileType::BlockedRock), (GridPosition { x: 9i32, y: 2i32 }, TileType::BlockedRock), (GridPosition { x: 8i32, y: 3i32 }, TileType::BlockedRock), (GridPosition { x: 3i32, y: 6i32 }, TileType::BlockedWater), (GridPosition { x: 4i32, y: 7i32 }, TileType::BlockedWater), (GridPosition { x: 3i32, y: 8i32 }, TileType::BlockedWater), (GridPosition { x: 0i32, y: 5i32 }, TileType::BlockedMoss), (GridPosition { x: 11i32, y: 4i32 }, TileType::BlockedMoss), (GridPosition { x: 5i32, y: 8i32 }, TileType::BlockedRock), (GridPosition { x: 2i32, y: 5i32 }, TileType::BlockedRock)]
}

/// The tiles that level 1 sets
fn level1_tiles() -> (tiles: Vec<(GridPosition, TileType)>)
    ensures
        tiles@ == spec_level1_tiles(),
{
    let mut tiles: Vec<(GridPosition, TileType)> = Vec::new();
    // Fertile patches
    tiles.push((GridPosition::new(1, 1), TileType::Fertile));
    tiles.push((GridPosition::new(2, 1), TileType::Fertile));
    tiles.push((GridPosition::new(1, 2), TileType::Fertile));
    tiles.push((GridPosition::new(9, 7), TileType::Fertile));
    tiles.push((GridPosition::new(10, 7), TileType::Fertile));
    tiles.push((GridPosition::new(10, 8), TileType::Fertile));
    // Rock formation (demonstrates corners and edges)
    tiles.push((GridPosition::new(7, 1), TileType::BlockedRock));
    tiles.push((GridPosition::new(8, 1), TileType::BlockedRock));
    tiles.push((GridPosition::new(9, 1), TileType::BlockedRock));
    tiles.push((GridPosition::new(7, 2), TileType::BlockedRock));
    tiles.push((GridPosition::new(8, 2), TileType::BlockedRock));
    tiles.push((GridPosition::new(9, 2), TileType::BlockedRock));
    tiles.push((GridPosition::new(8, 3), TileType::BlockedRock));
    // Water obstacles (single tiles)
    tiles.push((GridPosition::new(3, 6), TileType::BlockedWater));
    tiles.push((GridPosition::new(4, 7), TileType::BlockedWater));
    tiles.push((GridPosition::new(3, 8), TileType::BlockedWater));
    // Moss obstacles (single tiles)
    tiles.push((GridPosition::new(0, 5), TileType::BlockedMoss));
    tiles.push((GridPosition::new(11, 4), TileType::BlockedMoss));
    // Single rock blockers
    tiles.push((GridPosition::new(5, 8), TileType::BlockedRock));
    tiles.push((GridPosition::new(2, 5), TileType::BlockedRock));
    assert(tiles@ =~= spec_level1_tiles());
    tiles
}

/// The tiles that level 2 sets.
pub open spec fn spec_level2_tiles() -> Seq<(GridPosition, TileType)> {
    seq![(GridPosition { x: 0i32, y: 0i32 }, TileType::Fertile), (GridPosition { x: 7i32, y: 7i32 }, TileType::Fertile), (GridPosition { x: 4i32, y: 3i32 }, TileType::BlockedRock), (GridPosition { x: 4i32, y: 4i32 }, TileType::BlockedRock), (GridPosition { x: 3i32, y: 4i32 }, TileType::BlockedRock), (GridPosition { x: 5i32, y: 4i32 }, TileType::BlockedRock)]
}

/// The tiles that level 2 sets
fn level2_tiles() -> (tiles: Vec<(GridPosition, TileType)>)
    ensures
        tiles@ == spec_level2_tiles(),
{
    let mut tiles: Vec<(GridPosition, TileType)> = Vec::new();
    // Create interesting terrain
    tiles.push((GridPosition::new(0, 0), TileType::Fertile));
    tiles.push((GridPosition::new(7, 7), TileType::Fertile));
    // Rocky cross pattern
    tiles.push((GridPosition::new(4, 3), TileType::BlockedRock));
    tiles.push((GridPosition::new(4, 4), TileType::BlockedRock));
    tiles.push((GridPosition::new(3, 4), TileType::BlockedRock));
    tiles.push((GridPosition::new(5, 4), TileType::BlockedRock));
    assert(tiles@ =~= spec_level2_tiles());
    tiles
}

/// The tiles that level 3 sets.
pub open spec fn spec_level3_tiles() -> Seq<(GridPosition, TileType)> {
    seq![]
}

/// The tiles that level 3 sets
fn level3_tiles() -> (tiles: Vec<(GridPosition, TileType)>)
    ensures
        tiles@ == spec_level3_tiles(),
{
    let mut tiles: Vec<(GridPosition, TileType)> = Vec::new();

    assert(tiles@ =~= spec_level3_tiles());
    tiles
}

/// The tiles that level 4 sets.
pub open spec fn spec_level4_tiles() -> Seq<(GridPosition, TileType)> {
    seq![(GridPosition { x: 2i32, y: 0i32 }, TileType::BlockedRock), (GridPosition { x: 2i32, y: 1i32 }, TileType::BlockedRock), (GridPosition { x: 2i32, y: 10i32 }, TileType::BlockedRock), (GridPosition { x: 2i32, y: 11i32 }, TileType::BlockedRock), (GridPosition { x: 3i32, y: 0i32 }, TileType::BlockedRock), (GridPosition { x: 3i32, y: 1i32 }, TileType::BlockedRock), (GridPosition { x: 3i32, y: 10i32 }, TileType::BlockedRock), (GridPosition { x: 3i32, y: 11i32 }, TileType::BlockedRock)]
}

/// The tiles that level 4 sets
fn level4_tiles() -> (tiles: Vec<(GridPosition, TileType)>)
    ensures
        tiles@ == spec_level4_tiles(),
{
    let mut tiles: Vec<(GridPosition, TileType)> = Vec::new();
    // Vertical barriers
    tiles.push((GridPosition::new(2, 0), TileType::BlockedRock));
    tiles.push((GridPosition::new(2, 1), TileType::BlockedRock));
    tiles.push((GridPosition::new(2, 10), TileType::BlockedRock));
    tiles.push((GridPosition::new(2, 11), TileType::BlockedRock));
    tiles.push((GridPosition::new(3, 0), TileType::BlockedRock));
    tiles.push((GridPosition::new(3, 1), TileType::BlockedRock));
    tiles.push((GridPosition::new(3, 10), TileType::BlockedRock));
    tiles.push((GridPosition::new(3, 11), TileType::BlockedRock));
    assert(tiles@ =~= spec_level4_tiles());
    tiles
}

/// The tiles that level 5 sets.
pub open spec fn spec_level5_tiles() -> Seq<(GridPosition, TileType)> {
    seq![(GridPosition { x: 0i32, y: 2i32 }, TileType::BlockedRock), (GridPosition { x: 1i32, y: 2i32 }, TileType::BlockedRock), (GridPosition { x: 10i32, y: 2i32 }, TileType::BlockedRock), (GridPosition { x: 11i32, y: 2i32 }, TileType::BlockedRock), (GridPosition { x: 0i32, y: 3i32 }, TileType::BlockedRock), (GridPosition { x: 1i32, y: 3i32 }, TileType::BlockedRock), (GridPosition { x: 10i32, y: 3i32 }, TileType::BlockedRock), (GridPosition { x: 11i32, y: 3i32 }, TileType::BlockedRock)]
}

/// The tiles that level 5 sets
fn level5_tiles() -> (tiles: Vec<(GridPosition, TileType)>)
    ensures
        tiles@ == spec_level5_tiles(),
{
    let mut tiles: Vec<(GridPosition, TileType)> = Vec::new();
    // Horizontal barriers
    tiles.push((GridPosition::new(0, 2), TileType::BlockedRock));
    tiles.push((GridPosition::new(1, 2), TileType::BlockedRock));
    tiles.push((GridPosition::new(10, 2), TileType::BlockedRock));
    tiles.push((GridPosition::new(11, 2), TileType::BlockedRock));
    tiles.push((GridPosition::new(0, 3), TileType::BlockedRock));
    tiles.push((GridPosition::new(1, 3), TileType::BlockedRock));
    tiles.push((GridPosition::new(10, 3), TileType::BlockedRock));
    tiles.push((GridPosition::new(11, 3), TileType::BlockedRock));
    assert(tiles@ =~= spec_level5_tiles());
    tiles
}

/// The levels of the game, in order.
pub open spec fn spec_standard_levels() -> Seq<LevelDefinitionView> {
    seq![
        LevelDefinitionView {
            name: "Level 1"@,
            grid_width: 12,
            grid_height: 12,
            target_score: 100,
            max_turns: 5,
            starting_mushrooms: seq![StartingMushroom { x: 2i32, y: 2i32, mushroom_type: MushroomType::Pulse }],
            tile_configuration: spec_level1_tiles(),
        },
        LevelDefinitionView {
            name: "Level 2"@,
            grid_width: 8,
            grid_height: 8,
            target_score: 100,
            max_turns: 4,
            starting_mushrooms: Seq::empty(),
            tile_configuration: spec_level2_tiles(),
        },
        LevelDefinitionView {
            name: "Level 3"@,
            grid_width: 10,
            grid_height: 10,
            target_score: 200,
            max_turns: 6,
            starting_mushrooms: Seq::empty(),
            tile_configuration: spec_level3_tiles(),
        },
        LevelDefinitionView {
            name: "Level 4"@,
            grid_width: 6,
            grid_height: 12,
            target_score: 1000,
            max_turns: 5,
            starting_mushrooms: Seq::empty(),
            tile_configuration: spec_level4_tiles(),
        },
        LevelDefinitionView {
            name: "Level 5"@,
            grid_width: 12,
            grid_height: 6,
            target_score: 5000,
            max_turns: 5,
            starting_mushrooms: Seq::empty(),
            tile_configuration: spec_level5_tiles(),
        },
    ]
}

/// Whether every tile that a level sets lies on its field.
pub open spec fn tiles_on_field(d: LevelDefinitionView) -> bool {
    forall|i: int|
        0 <= i < d.tile_configuration.len() ==> in_field(
            d.grid_width as int,
            d.grid_height as int,
            #[trigger] d.tile_configuration[i].0.x as int,
            d.tile_configuration[i].0.y as int,
        )
}

/// The levels of the game: five levels named "Level 1" to "Level 5" in order, whose
/// target scores never drop from one level to the next (100, 100, 200, 1000, 5000 in
/// 5, 4, 6, 5 and 5 turns), on fields of 12x12, 8x8, 10x10, 6x12 and 12x6 cells. Only
/// the first starts with a mushroom, a Pulse at (2, 2). Every tile a level sets lies
/// on its field: 20 tiles in the first level (6 fertile, then rock, water, moss and
/// rock again), 6 in the second (2 fertile, 4 rock), none in the third, and 8 in
/// each of the last two, where the rock barriers of the fourth are symmetric top to
/// bottom and those of the fifth left to right.
pub proof fn lemma_standard_levels()
    ensures
        spec_standard_levels().len() == 5,
        forall|i: int|
            0 <= i < 5 ==> (#[trigger] spec_standard_levels()[i]).name == "Level "@ + decimal_text(
                (i + 1) as nat,
            ),
        forall|i: int|
            0 <= i < 4 ==> (#[trigger] spec_standard_levels()[i]).target_score
                <= spec_standard_levels()[i + 1].target_score,
        forall|i: int| 0 <= i < 5 ==> tiles_on_field(#[trigger] spec_standard_levels()[i]),
        spec_standard_levels()[0].target_score == 100 && spec_standard_levels()[0].max_turns == 5,
        spec_standard_levels()[1].target_score == 100 && spec_standard_levels()[1].max_turns == 4,
        spec_standard_levels()[2].target_score == 200 && spec_standard_levels()[2].max_turns == 6,
        spec_standard_levels()[3].target_score == 1000 && spec_standard_levels()[3].max_turns == 5,
        spec_standard_levels()[4].target_score == 5000 && spec_standard_levels()[4].max_turns == 5,
        spec_standard_levels()[0].grid_width == 12 && spec_standard_levels()[0].grid_height == 12,
        spec_standard_levels()[1].grid_width == 8 && spec_standard_levels()[1].grid_height == 8,
        spec_standard_levels()[2].grid_width == 10 && spec_standard_levels()[2].grid_height == 10,
        spec_standard_levels()[3].grid_width == 6 && spec_standard_levels()[3].grid_height == 12,
        spec_standard_levels()[4].grid_width == 12 && spec_standard_levels()[4].grid_height == 6,
        spec_standard_levels()[0].starting_mushrooms == seq![
            StartingMushroom { x: 2i32, y: 2i32, mushroom_type: MushroomType::Pulse },
        ],
        forall|i: int|
            1 <= i < 5 ==> (#[trigger] spec_standard_levels()[i]).starting_mushrooms.len() == 0,
        spec_standard_levels()[0].tile_configuration.len() == 20,
        forall|i: int|
            0 <= i < 20 ==> (#[trigger] spec_standard_levels()[0].tile_configuration[i]).1 == if i
                < 6 {
                TileType::Fertile
            } else if i < 13 || 18 <= i {
                TileType::BlockedRock
            } else if i < 16 {
                TileType::BlockedWater
            } else {
                TileType::BlockedMoss
            },
        forall|i: int|
            0 <= i < 6 ==> (#[trigger] spec_standard_levels()[1].tile_configuration[i]).1 == if i
                < 2 {
                TileType::Fertile
            } else {
                TileType::BlockedRock
            },
        spec_standard_levels()[1].tile_configuration.len() == 6,
        spec_standard_levels()[2].tile_configuration.len() == 0,
        spec_standard_levels()[3].tile_configuration.len() == 8,
        spec_standard_levels()[4].tile_configuration.len() == 8,
        forall|i: int|
            0 <= i < 8 ==> {
                let (p, t) = #[trigger] spec_standard_levels()[3].tile_configuration[i];
                &&& t == TileType::BlockedRock
                &&& spec_standard_levels()[3].tile_configuration.contains(
                    (GridPosition { x: p.x, y: (11 - p.y) as i32 }, t),
                )
            },
        forall|i: int|
            0 <= i < 8 ==> {
                let (p, t) = #[trigger] spec_standard_levels()[4].tile_configuration[i];
                &&& t == TileType::BlockedRock
                &&& spec_standard_levels()[4].tile_configuration.contains(
                    (GridPosition { x: (11 - p.x) as i32, y: p.y }, t),
                )
            },
{
    let levels = spec_standard_levels();
    reveal_strlit("Level ");
    reveal_strlit("Level 1");
    reveal_strlit("Level 2");
    reveal_strlit("Level 3");
    reveal_strlit("Level 4");
    reveal_strlit("Level 5");
    assert(levels[0].name =~= "Level "@ + decimal_text(1));
    assert(levels[1].name =~= "Level "@ + decimal_text(2));
    assert(levels[2].name =~= "Level "@ + decimal_text(3));
    assert(levels[3].name =~= "Level "@ + decimal_text(4));
    assert(levels[4].name =~= "Level "@ + decimal_text(5));
    let t4 = levels[3].tile_configuration;
    assert forall|i: int| 0 <= i < 8 implies {
        let (p, t) = #[trigger] t4[i];
        &&& t == TileType::BlockedRock
        &&& t4.contains((GridPosition { x: p.x, y: (11 - p.y) as i32 }, t))
    } by {
        if i == 0 { assert(t4[3] == (GridPosition { x: 2i32, y: 11i32 }, TileType::BlockedRock)); }
        if i == 1 { assert(t4[2] == (GridPosition { x: 2i32, y: 10i32 }, TileType::BlockedRock)); }
        if i == 2 { assert(t4[1] == (GridPosition { x: 2i32, y: 1i32 }, TileType::BlockedRock)); }
        if i == 3 { assert(t4[0] == (GridPosition { x: 2i32, y: 0i32 }, TileType::BlockedRock)); }
        if i == 4 { assert(t4[7] == (GridPosition { x: 3i32, y: 11i32 }, TileType::BlockedRock)); }
        if i == 5 { assert(t4[6] == (GridPosition { x: 3i32, y: 10i32 }, TileType::BlockedRock)); }
        if i == 6 { assert(t4[5] == (GridPosition { x: 3i32, y: 1i32 }, TileType::BlockedRock)); }
        if i == 7 { assert(t4[4] == (GridPosition { x: 3i32, y: 0i32 }, TileType::BlockedRock)); }
    }
    let t5 = levels[4].tile_configuration;
    assert forall|i: int| 0 <= i < 8 implies {
        let (p, t) = #[trigger] t5[i];
        &&& t == TileType::BlockedRock
        &&& t5.contains((GridPosition { x: (11 - p.x) as i32, y: p.y }, t))
    } by {
        if i == 0 { assert(t5[3] == (GridPosition { x: 11i32, y: 2i32 }, TileType::BlockedRock)); }
        if i == 1 { assert(t5[2] == (GridPosition { x: 10i32, y: 2i32 }, TileType::BlockedRock)); }
        if i == 2 { assert(t5[1] == (GridPosition { x: 1i32, y: 2i32 }, TileType::BlockedRock)); }
        if i == 3 { assert(t5[0] == (GridPosition { x: 0i32, y: 2i32 }, TileType::BlockedRock)); }
        if i == 4 { assert(t5[7] == (GridPosition { x: 11i32, y: 3i32 }, TileType::BlockedRock)); }
        if i == 5 { assert(t5[6] == (GridPosition { x: 10i32, y: 3i32 }, TileType::BlockedRock)); }
        if i == 6 { assert(t5[5] == (GridPosition { x: 1i32, y: 3i32 }, TileType::BlockedRock)); }
        if i == 7 { assert(t5[4] == (GridPosition { x: 0i32, y: 3i32 }, TileType::BlockedRock)); }
    }
    assert forall|i: int| 0 <= i < 5 implies tiles_on_field(#[trigger] levels[i]) by {
        let d = levels[i];
        assert forall|k: int| 0 <= k < d.tile_configuration.len() implies in_field(
            d.grid_width as int,
            d.grid_height as int,
            #[trigger] d.tile_configuration[k].0.x as int,
            d.tile_configuration[k].0.y as int,
        ) by {
            if i == 0 {
                assert(0 <= k < 20);
            }
        }
    }
}

/// A level whose field can be laid out: its size is not negative and the number of
/// its cells fits in an `i32`.
pub open spec fn level_fits(d: LevelDefinitionView) -> bool {
    0 <= d.grid_width && 0 <= d.grid_height && d.grid_width * d.grid_height <= i32::MAX
}

/// Collection of all level definitions
pub struct LevelDefinitions {
    pub levels: Vec<LevelDefinition>,
}

impl LevelDefinitions {
    /// Every level's field can be laid out.
    pub open spec fn wf(&self) -> bool {
        forall|i: int| 0 <= i < self.levels@.len() ==> level_fits(#[trigger] self.levels@[i]@)
    }

    /// Get a level by index, returns None if out of bounds
    pub fn get_level(&self, index: usize) -> (r: Option<&LevelDefinition>)
        ensures
            match r {
                Some(d) => index < self.levels@.len() && *d == self.levels@[index as int],
                None => index >= self.levels@.len(),
            },
    {
        if index < self.levels.len() {
            Some(&self.levels[index])
        } else {
            None
        }
    }
}

impl Default for LevelDefinitions {
    fn default() -> (r: Self)
        ensures
            r.levels@.map_values(|d: LevelDefinition| d@) == spec_standard_levels(),
            r.wf(),
    {
        let mut levels: Vec<LevelDefinition> = Vec::new();
    // Level 1 - Larger demo grid with variety of tile types
    let mut starting_mushrooms: Vec<StartingMushroom> = Vec::new();
    starting_mushrooms.push(StartingMushroom { x: 2, y: 2, mushroom_type: MushroomType::Pulse });
    levels.push(
        LevelDefinition {
            name: "Level 1".to_string(),
            grid_width: 12,
            grid_height: 12,
            target_score: 100,
            max_turns: 5,
            starting_mushrooms,
            tile_configuration: level1_tiles(),
        },
    );
    // Level 2 - Chain intro?
    let starting_mushrooms: Vec<StartingMushroom> = Vec::new();
    levels.push(
        LevelDefinition {
            name: "Level 2".to_string(),
            grid_width: 8,
            grid_height: 8,
            target_score: 100,
            max_turns: 4,
            starting_mushrooms,
            tile_configuration: level2_tiles(),
        },
    );
    // Level 3 - Larger grid
    let starting_mushrooms: Vec<StartingMushroom> = Vec::new();
    levels.push(
        LevelDefinition {
            name: "Level 3".to_string(),
            grid_width: 10,
            grid_height: 10,
            target_score: 200,
            max_turns: 6,
            starting_mushrooms,
            tile_configuration: level3_tiles(),
        },
    );
    // Level 4 - Vertical?
    let starting_mushrooms: Vec<StartingMushroom> = Vec::new();
    levels.push(
        LevelDefinition {
            name: "Level 4".to_string(),
            grid_width: 6,
            grid_height: 12,
            target_score: 1000,
            max_turns: 5,
            starting_mushrooms,
            tile_configuration: level4_tiles(),
        },
    );
    // Level 5 - Horizontal?
    let starting_mushrooms: Vec<StartingMushroom> = Vec::new();
    levels.push(
        LevelDefinition {
            name: "Level 5".to_string(),
            grid_width: 12,
            grid_height: 6,
            target_score: 5000,
            max_turns: 5,
            starting_mushrooms,
            tile_configuration: level5_tiles(),
        },
    );
        proof {
            assert(levels@.map_values(|d: LevelDefinition| d@) =~= spec_standard_levels());
            assert forall|i: int| 0 <= i < levels@.len() implies level_fits(
                #[trigger] levels@[i]@,
            ) by {
                assert(levels@[i]@ == levels@.map_values(|d: LevelDefinition| d@)[i]);
                let t = spec_standard_levels();
                if i == 0 {
                    assert(level_fits(t[0]));
                } else if i == 1 {
                    assert(level_fits(t[1]));
                } else if i == 2 {
                    assert(level_fits(t[2]));
                } else if i == 3 {
                    assert(level_fits(t[3]));
                } else {
                    assert(level_fits(t[4]));
                }
            }
        }
        LevelDefinitions { levels }
    }
}

/// Load a specific level's configuration: the play field takes the level's size,
/// and the level's definition is handed back; `None` if there is no such level
pub fn load_level_config<S>(
    level_index: usize,
    definitions: &LevelDefinitions,
    game_state: &mut GameState<S>,
) -> (r: Option<LevelDefinition>)
    requires
        definitions.wf(),
        old(game_state).play_field.wf(),
    ensures
        final(game_state).play_field.wf(),
        match r {
            Some(d) => {
                &&& level_index < definitions.levels@.len()
                &&& d@ == definitions.levels@[level_index as int]@
                &&& resized(
                    old(game_state).play_field,
                    final(game_state).play_field,
                    d.grid_width,
                    d.grid_height,
                )
            },
            None => level_index >= definitions.levels@.len()
                && *final(game_state) == *old(game_state),
        },
        final(game_state).spores == old(game_state).spores,
        final(game_state).total_spores_earned == old(game_state).total_spores_earned,
        final(game_state).total_activations == old(game_state).total_activations,
        final(game_state).chain_activations == old(game_state).chain_activations,
{
    if let Some(level_def) = definitions.get_level(level_index) {
        proof {
            assert(level_fits(definitions.levels@[level_index as int]@));
        }
        // Resize the play field
        game_state.play_field.resize(level_def.grid_width, level_def.grid_height);
        Some(level_def.clone())
    } else {
        None
    }
}

/// The starting mushrooms of a level that stand on the field, in order, each with
/// its cell and type.
pub open spec fn spec_starting_spawns(field: PlayField, starting: Seq<StartingMushroom>) -> Seq<
    (GridPosition, MushroomType),
>
    decreases starting.len(),
{
    if starting.len() == 0 {
        Seq::empty()
    } else {
        let before = spec_starting_spawns(field, starting.drop_last());
        let s = starting.last();
        let p = GridPosition { x: s.x, y: s.y };
        if field.spec_contains(p) {
            before.push((p, s.mushroom_type))
        } else {
            before
        }
    }
}

/// The starting mushrooms to spawn when a level is set up: those whose position is
/// within the bounds of the field, in the order of the level definition
pub fn starting_mushroom_spawns(level_def: &LevelDefinition, play_field: &PlayField) -> (r: Vec<
    (GridPosition, MushroomType),
>)
    ensures
        r@ == spec_starting_spawns(*play_field, level_def.starting_mushrooms@),
{
    let mut r: Vec<(GridPosition, MushroomType)> = Vec::new();
    let mut i: usize = 0;
    while i < level_def.starting_mushrooms.len()
        invariant
            0 <= i <= level_def.starting_mushrooms@.len(),
            r@ == spec_starting_spawns(*play_field, level_def.starting_mushrooms@.take(i as int)),
        decreases level_def.starting_mushrooms.len() - i,
    {
        let starting_mushroom = level_def.starting_mushrooms[i];
        proof {
            assert(level_def.starting_mushrooms@.take(i + 1).drop_last()
                =~= level_def.starting_mushrooms@.take(i as int));
        }
        let position = GridPosition::new(starting_mushroom.x, starting_mushroom.y);
        // Validate position is within bounds
        if play_field.contains(position) {
            r.push((position, starting_mushroom.mushroom_type));
        }
        i = i + 1;
    }
    proof {
        assert(level_def.starting_mushrooms@.take(level_def.starting_mushrooms@.len() as int)
            =~= level_def.starting_mushrooms@);
    }
    r
}

/// The cells of a field, row by row from `y = 0`, each row from `x = 0`: the cells
/// that get a clickable grid cell when the level is set up
pub fn grid_cell_positions(play_field: &PlayField) -> (r: Vec<GridPosition>)
    requires
        play_field.wf(),
    ensures
        r@.len() == if play_field.width > 0 && play_field.height > 0 {
            play_field.width * play_field.height
        } else {
            0
        },
        forall|x: int, y: int|
            in_field(play_field.width as int, play_field.height as int, x, y) ==> r@[y
                * play_field.width + x] == (GridPosition { x: x as i32, y: y as i32 }),
{
    let w = play_field.width;
    let h = play_field.height;
    let mut r: Vec<GridPosition> = Vec::new();
    let mut y: i32 = 0;
    if w <= 0 || h <= 0 {
        return r;
    }
    while y < h
        invariant
            w == play_field.width,
            h == play_field.height,
            0 < w,
            0 < h,
            0 <= y <= h,
            r@.len() == y * w,
            forall|cx: int, cy: int|
                0 <= cx < w && 0 <= cy < y ==> #[trigger] r@[cy * w + cx] == (GridPosition {
                    x: cx as i32,
                    y: cy as i32,
                }),
        decreases h - y,
    {
        let mut x: i32 = 0;
        while x < w
            invariant
                w == play_field.width,
                h == play_field.height,
                0 < w,
                0 <= y < h,
                0 <= x <= w,
                r@.len() == y * w + x,
                forall|cx: int, cy: int|
                    0 <= cx < w && 0 <= cy < h && (cy < y || (cy == y && cx < x)) ==> #[trigger] r@[cy
                        * w + cx] == (GridPosition { x: cx as i32, y: cy as i32 }),
            decreases w - x,
        {
            let ghost before = r@;
            r.push(GridPosition::new(x, y));
            proof {
                assert forall|cx: int, cy: int|
                    0 <= cx < w && 0 <= cy < h && (cy < y || (cy == y && cx < x + 1)) implies #[trigger] r@[cy
                        * w + cx] == (GridPosition { x: cx as i32, y: cy as i32 }) by {
                    if cy < y {
                        assert(cy * w + cx < y * w) by (nonlinear_arith)
                            requires
                                cy + 1 <= y,
                                0 <= cx < w,
                        ;
                    }
                }
            }
            x = x + 1;
        }
        proof {
            assert((y + 1) * w == y * w + w) by (nonlinear_arith);
            assert forall|cx: int, cy: int|
                0 <= cx < w && 0 <= cy < y + 1 implies #[trigger] r@[cy * w + cx] == (GridPosition {
                    x: cx as i32,
                    y: cy as i32,
                }) by {}
        }
        y = y + 1;
    }
    proof {
        assert(h * w == w * h) by (nonlinear_arith);
    }
    r
}

} // verus!
