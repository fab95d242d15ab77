//! Common connection patterns

use vstd::prelude::*;

use crate::mushrooms::definitions::GridOffset;
use crate::mushrooms::{offset_coords, quarter_turn, MushroomDirection, spec_rotated};

verus! {

/// Cardinal directions (N, E, S, W)
pub open spec fn spec_cardinal() -> Seq<GridOffset> {
    seq![GridOffset { x: 0i32, y: 1i32 }, GridOffset { x: 1i32, y: 0i32 }, GridOffset { x: 0i32, y: -1i32 }, GridOffset { x: -1i32, y: 0i32 }]
}

/// Cardinal directions (N, E, S, W)
pub fn cardinal() -> (r: Vec<GridOffset>)
    ensures
        r@ == spec_cardinal(),
{
    let mut r = Vec::new();
    r.push(GridOffset::new(0, 1));
    r.push(GridOffset::new(1, 0));
    r.push(GridOffset::new(0, -1));
    r.push(GridOffset::new(-1, 0));
    assert(r@ =~= spec_cardinal());
    r
}

/// Diagonal directions (NE, SE, SW, NW)
pub open spec fn spec_diagonal() -> Seq<GridOffset> {
    seq![GridOffset { x: 1i32, y: 1i32 }, GridOffset { x: 1i32, y: -1i32 }, GridOffset { x: -1i32, y: -1i32 }, GridOffset { x: -1i32, y: 1i32 }]
}

/// Diagonal directions (NE, SE, SW, NW)
pub fn diagonal() -> (r: Vec<GridOffset>)
    ensures
        r@ == spec_diagonal(),
{
    let mut r = Vec::new();
    r.push(GridOffset::new(1, 1));
    r.push(GridOffset::new(1, -1));
    r.push(GridOffset::new(-1, -1));
    r.push(GridOffset::new(-1, 1));
    assert(r@ =~= spec_diagonal());
    r
}

/// All 8 directions, clockwise from north
pub open spec fn spec_all_directions() -> Seq<GridOffset> {
    seq![GridOffset { x: 0i32, y: 1i32 }, GridOffset { x: 1i32, y: 1i32 }, GridOffset { x: 1i32, y: 0i32 }, GridOffset { x: 1i32, y: -1i32 }, GridOffset { x: 0i32, y: -1i32 }, GridOffset { x: -1i32, y: -1i32 }, GridOffset { x: -1i32, y: 0i32 }, GridOffset { x: -1i32, y: 1i32 }]
}

/// All 8 directions, clockwise from north
pub fn all_directions() -> (r: Vec<GridOffset>)
    ensures
        r@ == spec_all_directions(),
{
    let mut r = Vec::new();
    r.push(GridOffset::new(0, 1));
    r.push(GridOffset::new(1, 1));
    r.push(GridOffset::new(1, 0));
    r.push(GridOffset::new(1, -1));
    r.push(GridOffset::new(0, -1));
    r.push(GridOffset::new(-1, -1));
    r.push(GridOffset::new(-1, 0));
    r.push(GridOffset::new(-1, 1));
    assert(r@ =~= spec_all_directions());
    r
}

/// Sideways (East / West)
pub open spec fn spec_sideways() -> Seq<GridOffset> {
    seq![GridOffset { x: 1i32, y: 0i32 }, GridOffset { x: -1i32, y: 0i32 }]
}

/// Sideways (East / West)
pub fn sideways() -> (r: Vec<GridOffset>)
    ensures
        r@ == spec_sideways(),
{
    let mut r = Vec::new();
    r.push(GridOffset::new(1, 0));
    r.push(GridOffset::new(-1, 0));
    assert(r@ =~= spec_sideways());
    r
}

/// Fork (NE / NW)
pub open spec fn spec_fork() -> Seq<GridOffset> {
    seq![GridOffset { x: 1i32, y: 1i32 }, GridOffset { x: -1i32, y: 1i32 }]
}

/// Fork (NE / NW)
pub fn fork() -> (r: Vec<GridOffset>)
    ensures
        r@ == spec_fork(),
{
    let mut r = Vec::new();
    r.push(GridOffset::new(1, 1));
    r.push(GridOffset::new(-1, 1));
    assert(r@ =~= spec_fork());
    r
}

/// Threeway in a T shape (N / E / W)
pub open spec fn spec_threeway() -> Seq<GridOffset> {
    seq![GridOffset { x: 0i32, y: 1i32 }, GridOffset { x: 1i32, y: 0i32 }, GridOffset { x: -1i32, y: 0i32 }]
}

/// Threeway in a T shape (N / E / W)
pub fn threeway() -> (r: Vec<GridOffset>)
    ensures
        r@ == spec_threeway(),
{
    let mut r = Vec::new();
    r.push(GridOffset::new(0, 1));
    r.push(GridOffset::new(1, 0));
    r.push(GridOffset::new(-1, 0));
    assert(r@ =~= spec_threeway());
    r
}

/// Diagonal line (NE / SW)
pub open spec fn spec_diagonal_line() -> Seq<GridOffset> {
    seq![GridOffset { x: 1i32, y: 1i32 }, GridOffset { x: -1i32, y: -1i32 }]
}

/// Diagonal line (NE / SW)
pub fn diagonal_line() -> (r: Vec<GridOffset>)
    ensures
        r@ == spec_diagonal_line(),
{
    let mut r = Vec::new();
    r.push(GridOffset::new(1, 1));
    r.push(GridOffset::new(-1, -1));
    assert(r@ =~= spec_diagonal_line());
    r
}

/// Single direction, facing up by default
pub open spec fn spec_forward() -> Seq<GridOffset> {
    seq![GridOffset { x: 0i32, y: 1i32 }]
}

/// Single direction, facing up by default
pub fn forward() -> (r: Vec<GridOffset>)
    ensures
        r@ == spec_forward(),
{
    let mut r = Vec::new();
    r.push(GridOffset::new(0, 1));
    assert(r@ =~= spec_forward());
    r
}

/// Single direction, skipping one tile
pub open spec fn spec_skip_forward() -> Seq<GridOffset> {
    seq![GridOffset { x: 0i32, y: 2i32 }]
}

/// Single direction, skipping one tile
pub fn skip_forward() -> (r: Vec<GridOffset>)
    ensures
        r@ == spec_skip_forward(),
{
    let mut r = Vec::new();
    r.push(GridOffset::new(0, 2));
    assert(r@ =~= spec_skip_forward());
    r
}

/// Single knight move: two right, one up (at the default facing)
pub open spec fn spec_knight_forward() -> Seq<GridOffset> {
    seq![GridOffset { x: 2i32, y: 1i32 }]
}

/// Single knight move: two right, one up (at the default facing)
pub fn knight_forward() -> (r: Vec<GridOffset>)
    ensures
        r@ == spec_knight_forward(),
{
    let mut r = Vec::new();
    r.push(GridOffset::new(2, 1));
    assert(r@ =~= spec_knight_forward());
    r
}

/// The shapes of the connection patterns, at the default facing (up is north, `y`
/// grows northwards, `x` eastwards):
/// - the cardinal pattern starts north and turns a quarter clockwise at each step
///   (north, east, south, west); the diagonal one does the same from north-east;
/// - all directions alternate the cardinal and the diagonal ones, clockwise from
///   north;
/// - sideways is east and its opposite, west; the fork is north-east and its mirror
///   image, north-west; the diagonal line is north-east and its opposite;
/// - the threeway T is the cardinal directions without the back one: north, east,
///   west;
/// - forward is one cell north, the skip two cells north, the knight's move two
///   east and one north.
pub proof fn lemma_pattern_shapes()
    ensures
        spec_cardinal().len() == 4,
        spec_cardinal()[0] == (GridOffset { x: 0i32, y: 1i32 }),
        forall|i: int|
            0 <= i < 3 ==> offset_coords(#[trigger] spec_cardinal()[i + 1]) == quarter_turn(
                offset_coords(spec_cardinal()[i]),
            ),
        spec_diagonal().len() == 4,
        spec_diagonal()[0] == (GridOffset { x: 1i32, y: 1i32 }),
        forall|i: int|
            0 <= i < 3 ==> offset_coords(#[trigger] spec_diagonal()[i + 1]) == quarter_turn(
                offset_coords(spec_diagonal()[i]),
            ),
        spec_all_directions().len() == 8,
        forall|i: int|
            0 <= i < 4 ==> #[trigger] spec_all_directions()[2 * i] == spec_cardinal()[i]
                && spec_all_directions()[2 * i + 1] == spec_diagonal()[i],
        spec_sideways() == seq![GridOffset { x: 1i32, y: 0i32 }, GridOffset { x: -1i32, y: 0i32 }],
        spec_fork() == seq![GridOffset { x: 1i32, y: 1i32 }, GridOffset { x: -1i32, y: 1i32 }],
        spec_diagonal_line() == seq![GridOffset { x: 1i32, y: 1i32 }, GridOffset { x: -1i32, y: -1i32 }],
        spec_threeway() == seq![spec_cardinal()[0], spec_cardinal()[1], spec_cardinal()[3]],
        spec_threeway() == seq![
            GridOffset { x: 0i32, y: 1i32 },
            GridOffset { x: 1i32, y: 0i32 },
            GridOffset { x: -1i32, y: 0i32 },
        ],
        spec_forward() == seq![GridOffset { x: 0i32, y: 1i32 }],
        spec_skip_forward() == seq![GridOffset { x: 0i32, y: 2i32 }],
        spec_knight_forward() == seq![GridOffset { x: 2i32, y: 1i32 }],
{
    assert(spec_cardinal() =~= seq![
        GridOffset { x: 0i32, y: 1i32 },
        GridOffset { x: 1i32, y: 0i32 },
        GridOffset { x: 0i32, y: -1i32 },
        GridOffset { x: -1i32, y: 0i32 },
    ]);
    assert(spec_threeway() =~= seq![spec_cardinal()[0], spec_cardinal()[1], spec_cardinal()[3]]);
    assert forall|i: int| 0 <= i < 4 implies #[trigger] spec_all_directions()[2 * i]
        == spec_cardinal()[i] && spec_all_directions()[2 * i + 1] == spec_diagonal()[i] by {
        assert(0 <= 2 * i < 8);
    }
}

/// A threeway mushroom reaches the cells in front of it and on both its sides, and
/// never the one behind it: facing north, a threeway at `(x, y)` reaches
/// `(x, y + 1)`, `(x + 1, y)` and `(x - 1, y)`; whatever its facing, the cell behind
/// it is not among its targets.
pub proof fn lemma_threeway_reaches_front_and_sides(d: MushroomDirection)
    ensures
        spec_rotated((0, 1), MushroomDirection::Up) == offset_coords(spec_threeway()[0]),
        spec_rotated((1, 0), MushroomDirection::Up) == offset_coords(spec_threeway()[1]),
        spec_rotated((-1, 0), MushroomDirection::Up) == offset_coords(spec_threeway()[2]),
        spec_threeway().len() == 3,
        forall|i: int|
            0 <= i < 3 ==> spec_rotated(offset_coords(#[trigger] spec_threeway()[i]), d)
                != spec_rotated((0, -1), d),
{
    lemma_pattern_shapes();
}

} // verus!
