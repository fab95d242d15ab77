//! Keeping the spatial index in step with the entities that have a grid position

use vstd::prelude::*;

use crate::game::resources::GameState;
use crate::play_field::field::{position_key, PlayField};
use crate::play_field::position::GridPosition;

verus! {

/// An entity got a grid position: it is entered in the play field's index if the
/// position lies on the field (replacing whatever stood there). Returns whether it
/// was entered
pub fn on_add_grid_position(play_field: &mut PlayField, entity: u64, position: GridPosition) -> (r:
    bool)
    ensures
        r == old(play_field).spec_contains(position),
        final(play_field).entity_map() == if r {
            old(play_field).entity_map().insert(position_key(position), entity)
        } else {
            old(play_field).entity_map()
        },
        final(play_field).tiles == old(play_field).tiles,
        final(play_field).connections == old(play_field).connections,
        final(play_field).width == old(play_field).width,
        final(play_field).height == old(play_field).height,
{
    // Check if position is within bounds
    if !play_field.contains(position) {
        return false;
    }
    play_field.insert(position, entity);
    true
}

/// An entity lost its grid position (or was despawned): it is taken out of the
/// play field's index. The cell is cleared only when that entity is the one entered
/// there; a cell that another entity holds keeps it. Returns whether the entry was
/// removed
pub fn on_remove_grid_position(play_field: &mut PlayField, entity: u64, position: GridPosition) -> (r:
    bool)
    ensures
        r == (old(play_field).spec_get(position) == Some(entity)),
        r ==> final(play_field).entity_map() == old(play_field).entity_map().remove(
            position_key(position),
        ),
        !r ==> final(play_field).entity_map() == old(play_field).entity_map(),
        final(play_field).tiles == old(play_field).tiles,
        final(play_field).connections == old(play_field).connections,
        final(play_field).width == old(play_field).width,
        final(play_field).height == old(play_field).height,
{
    match play_field.get(position) {
        Some(occupant) => {
            if occupant == entity {
                play_field.remove(position);
                true
            } else {
                false
            }
        },
        None => false,
    }
}

/// Helper function to find entities at a specific position
pub fn find_entity_at<S>(position: GridPosition, game_state: &GameState<S>) -> (r: Option<u64>)
    ensures
        r == game_state.play_field.spec_get(position),
{
    game_state.play_field.get(position)
}

} // verus!
