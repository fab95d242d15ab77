//! Mushrooms: facing directions, rotation of connection points, definitions
//! and the chain activation system.

use vstd::prelude::*;

use crate::mushrooms::definitions::{GridOffset, MushroomType};
use crate::play_field::position::GridPosition;

pub mod chain_activation;
pub mod connection_patterns;
pub mod converter_system;
pub mod definitions;
pub mod interaction;

verus! {

/// Marker component for mushroom entities, holding the mushroom's type
#[derive(Clone, Copy, Debug, PartialEq, Eq, Structural)]
pub struct Mushroom(pub MushroomType);

/// Direction component for mushrooms
#[derive(Clone, Copy, Debug, PartialEq, Eq, Structural)]
pub enum MushroomDirection {
    Up,
    Right,
    Down,
    Left,
}

impl Default for MushroomDirection {
    fn default() -> (r: Self)
        ensures
            r == MushroomDirection::Up,
    {
        MushroomDirection::Up
    }
}

/// The direction a quarter turn clockwise from `d`.
pub open spec fn spec_rotate_clockwise(d: MushroomDirection) -> MushroomDirection {
    match d {
        MushroomDirection::Up => MushroomDirection::Right,
        MushroomDirection::Right => MushroomDirection::Down,
        MushroomDirection::Down => MushroomDirection::Left,
        MushroomDirection::Left => MushroomDirection::Up,
    }
}

impl MushroomDirection {
    pub fn rotate_clockwise(&self) -> (r: MushroomDirection)
        ensures
            r == spec_rotate_clockwise(*self),
    {
        match self {
            MushroomDirection::Up => MushroomDirection::Right,
            MushroomDirection::Right => MushroomDirection::Down,
            MushroomDirection::Down => MushroomDirection::Left,
            MushroomDirection::Left => MushroomDirection::Up,
        }
    }
}

/// Offsets that a mushroom facing `d` can turn without overflow: the coordinates
/// that the turn negates are not `i32::MIN`.
pub open spec fn rotatable(p: GridOffset, d: MushroomDirection) -> bool {
    match d {
        MushroomDirection::Up => true,
        MushroomDirection::Right => p.x != i32::MIN,
        MushroomDirection::Down => p.x != i32::MIN && p.y != i32::MIN,
        MushroomDirection::Left => p.y != i32::MIN,
    }
}

/// The offset `(x, y)` turned a quarter clockwise: `(y, -x)`.
pub open spec fn quarter_turn(p: (int, int)) -> (int, int) {
    (p.1, -p.0)
}

/// The offset `p` as seen by a mushroom facing `d` (the default facing is `Up`).
pub open spec fn spec_rotated(p: (int, int), d: MushroomDirection) -> (int, int) {
    match d {
        MushroomDirection::Up => p,
        MushroomDirection::Right => (p.1, -p.0),
        MushroomDirection::Down => (-p.0, -p.1),
        MushroomDirection::Left => (-p.1, p.0),
    }
}

/// The coordinates of an offset as a pair of integers.
pub open spec fn offset_coords(p: GridOffset) -> (int, int) {
    (p.x as int, p.y as int)
}

/// Rotate a connection point based on mushroom direction
pub fn rotate_connection_point(point: &GridOffset, direction: &MushroomDirection) -> (r:
    GridOffset)
    requires
        rotatable(*point, *direction),
    ensures
        offset_coords(r) == spec_rotated(offset_coords(*point), *direction),
{
    match direction {
        MushroomDirection::Up => {
            // No rotation needed, this is the default
            GridOffset::new(point.x, point.y)
        },
        MushroomDirection::Right => {
            // Rotate 90 degrees clockwise: (x, y) -> (y, -x)
            GridOffset::new(point.y, -point.x)
        },
        MushroomDirection::Down => {
            // Rotate 180 degrees: (x, y) -> (-x, -y)
            GridOffset::new(-point.x, -point.y)
        },
        MushroomDirection::Left => {
            // Rotate 270 degrees clockwise: (x, y) -> (-y, x)
            GridOffset::new(-point.y, point.x)
        },
    }
}

/// Positions at least two cells away from the limits of `i32`, so that every
/// connection point at most two cells away names a cell.
pub open spec fn within_reach_limits(p: GridPosition) -> bool {
    i32::MIN + 2 <= p.x <= i32::MAX - 2 && i32::MIN + 2 <= p.y <= i32::MAX - 2
}

/// The connection point `cp` turned by the facing `direction`, if there is one.
pub open spec fn facing_offset(cp: GridOffset, direction: Option<MushroomDirection>) -> (int, int) {
    match direction {
        Some(d) => spec_rotated(offset_coords(cp), d),
        None => offset_coords(cp),
    }
}

/// The cell that connection point `cp` of a mushroom at `pos` with facing `direction`
/// points at.
pub open spec fn facing_target(
    pos: GridPosition,
    direction: Option<MushroomDirection>,
    cp: GridOffset,
) -> GridPosition {
    let off = facing_offset(cp, direction);
    GridPosition { x: (pos.x + off.0) as i32, y: (pos.y + off.1) as i32 }
}

/// Whether connection point `cp` of a mushroom at `pos` with facing `direction`
/// names a cell: the turn and the sum stay within `i32`.
pub open spec fn target_fits(pos: GridPosition, direction: Option<MushroomDirection>, cp: GridOffset) -> bool {
    let off = facing_offset(cp, direction);
    &&& (direction matches Some(d) ==> rotatable(cp, d))
    &&& i32::MIN <= pos.x + off.0 <= i32::MAX
    &&& i32::MIN <= pos.y + off.1 <= i32::MAX
}

/// The cell a connection point of a mushroom points at: the point is turned by the
/// mushroom's facing if it has one, and added to the mushroom's position
pub fn connection_target_position(
    pos: GridPosition,
    direction: Option<MushroomDirection>,
    connection_point: &GridOffset,
) -> (r: GridPosition)
    requires
        target_fits(pos, direction, *connection_point),
    ensures
        r == facing_target(pos, direction, *connection_point),
{
    match direction {
        Some(dir) => {
            let rotated = rotate_connection_point(connection_point, &dir);
            GridPosition::new(pos.x + rotated.x, pos.y + rotated.y)
        },
        None => GridPosition::new(pos.x + connection_point.x, pos.y + connection_point.y),
    }
}

/// Rotating the facing a quarter turn clockwise turns every connection point a
/// quarter turn clockwise; four quarter turns give back the first facing.
pub proof fn lemma_rotation_follows_direction(p: (int, int), d: MushroomDirection)
    ensures
        spec_rotated(p, spec_rotate_clockwise(d)) == quarter_turn(spec_rotated(p, d)),
        spec_rotate_clockwise(
            spec_rotate_clockwise(spec_rotate_clockwise(spec_rotate_clockwise(d))),
        ) == d,
        spec_rotated(p, MushroomDirection::Up) == p,
{
}

/// Rotation keeps the distance to the mushroom: the squared length and the
/// Chebyshev distance of a connection point do not depend on the facing.
pub proof fn lemma_rotation_preserves_length(p: (int, int), d: MushroomDirection)
    ensures
        ({
            let q = spec_rotated(p, d);
            &&& q.0 * q.0 + q.1 * q.1 == p.0 * p.0 + p.1 * p.1
            &&& vstd::math::max(vstd::math::abs(q.0) as int, vstd::math::abs(q.1) as int)
                == vstd::math::max(vstd::math::abs(p.0) as int, vstd::math::abs(p.1) as int)
        }),
{
    assert((-p.0) * (-p.0) == p.0 * p.0) by (nonlinear_arith);
    assert((-p.1) * (-p.1) == p.1 * p.1) by (nonlinear_arith);
}

} // verus!
