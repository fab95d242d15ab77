//! Clicks on the grid: planting, removing and starting chains, depending on the
//! phase of the turn.

use vstd::prelude::*;

use crate::game::game_flow::TurnPhase;
use crate::game::resources::GameState;
use crate::mushrooms::chain_activation::{chain_started_from, ChainManager};
use crate::mushrooms::definitions::{spec_is_met, MushroomDefinitions, MushroomType};
use crate::mushrooms::MushroomDirection;
use crate::play_field::field::position_key;
use crate::play_field::position::GridPosition;
use crate::play_field::tiles::spec_allows_mushroom;

verus! {

/// The pointer button of a click.
#[derive(Debug, Clone, Copy, PartialEq, Eq, Structural)]
pub enum ClickButton {
    Primary,
    Secondary,
    Middle,
}

/// What a click on the grid led to.
#[derive(Debug, Clone, Copy, PartialEq, Eq, Structural)]
pub enum ClickOutcome {
    /// Nothing happens
    Ignored,
    /// The mushroom entity was removed from the field and is to be despawned
    Removed(u64),
    /// A mushroom is to be spawned
    Spawn { position: GridPosition, mushroom_type: MushroomType, direction: MushroomDirection },
    /// A chain started with this id
    ChainStarted(u32),
    /// A chain was already started this turn
    ChainRefused,
}

/// Whether the selected type is unlocked for a player with the given progress.
pub open spec fn unlocked_for(
    definitions: MushroomDefinitions,
    t: MushroomType,
    spores: u64,
    chains: u64,
    level: usize,
) -> bool {
    match definitions.spec_get(t) {
        Some(d) => spec_is_met(d.unlock_requirement, spores, chains, level),
        None => false,
    }
}

/// Handle clicks during planting phase: a secondary click removes the mushroom in
/// the cell; a primary click on a free cell under the preview plants the selected
/// type with the preview's direction, if the tile allows mushrooms and the type is
/// unlocked (for a player who has earned `earned_whole_spores` whole spores)
pub fn handle_planting_click<S>(
    position: GridPosition,
    button: ClickButton,
    selected_type: MushroomType,
    hovered: Option<GridPosition>,
    preview_direction: MushroomDirection,
    definitions: &MushroomDefinitions,
    game_state: &mut GameState<S>,
    earned_whole_spores: u64,
    current_level: usize,
) -> (r: ClickOutcome)
    requires
        old(game_state).play_field.wf(),
    ensures
        ({
            let f = old(game_state).play_field;
            if button == ClickButton::Secondary {
                match f.spec_get(position) {
                    Some(e) => r == ClickOutcome::Removed(e) && final(game_state).play_field.entity_map() == f.entity_map().remove(position_key(position)),
                    None => r == ClickOutcome::Ignored && *final(game_state) == *old(game_state),
                }
            } else {
                &&& *final(game_state) == *old(game_state)
                &&& r == if button == ClickButton::Primary && f.spec_get(position) is None
                    && hovered == Some(position) && f.spec_contains(position)
                    && spec_allows_mushroom(f.tile_at(position)) && unlocked_for(
                    *definitions,
                    selected_type,
                    earned_whole_spores,
                    old(game_state).chain_activations,
                    current_level,
                ) {
                    ClickOutcome::Spawn {
                        position,
                        mushroom_type: selected_type,
                        direction: preview_direction,
                    }
                } else {
                    ClickOutcome::Ignored
                }
            }
        }),
        final(game_state).play_field.tiles == old(game_state).play_field.tiles,
        final(game_state).play_field.width == old(game_state).play_field.width,
        final(game_state).play_field.height == old(game_state).play_field.height,
        final(game_state).play_field.connections == old(game_state).play_field.connections,
        final(game_state).spores == old(game_state).spores,
        final(game_state).total_spores_earned == old(game_state).total_spores_earned,
        final(game_state).total_activations == old(game_state).total_activations,
        final(game_state).chain_activations == old(game_state).chain_activations,
{
    // Right-click to delete
    if button == ClickButton::Secondary {
        if let Some(entity) = game_state.play_field.get(position) {
            game_state.play_field.remove(position);
            return ClickOutcome::Removed(entity);
        }
        return ClickOutcome::Ignored;
    }
    // Only handle left clicks from here
    if button != ClickButton::Primary {
        return ClickOutcome::Ignored;
    }
    // Check for existing mushroom
    if game_state.play_field.get(position).is_some() {
        return ClickOutcome::Ignored;
    }
    // Only place if we have a valid preview at this position
    if hovered != Some(position) {
        return ClickOutcome::Ignored;
    }
    // Validate placement position
    if !game_state.play_field.contains(position) {
        return ClickOutcome::Ignored;
    }
    // Check tile type
    if let Some(tile_type) = game_state.play_field.get_tile(position) {
        if !tile_type.allows_mushroom() {
            return ClickOutcome::Ignored;
        }
    }
    // Check if mushroom type is unlocked
    if !definitions.is_unlocked(
        selected_type,
        earned_whole_spores,
        game_state.chain_activations,
        current_level,
    ) {
        return ClickOutcome::Ignored;
    }
    // Spawn new mushroom with the preview's rotation
    ClickOutcome::Spawn { position, mushroom_type: selected_type, direction: preview_direction }
}

/// Handle clicks during chain phase: a primary click on a mushroom tries to start the
/// turn's chain from it
pub fn handle_chain_click<E, S>(
    position: GridPosition,
    button: ClickButton,
    chain_manager: &mut ChainManager<E, S>,
    game_state: &GameState<S>,
    full_energy: E,
    no_spores: S,
) -> (r: ClickOutcome)
    requires
        old(chain_manager).wf(),
        !old(chain_manager).chain_started_this_turn ==> old(chain_manager).next_chain_id
            < u32::MAX,
    ensures
        final(chain_manager).wf(),
        ({
            let started = button == ClickButton::Primary && game_state.play_field.spec_get(
                position,
            ) is Some;
            &&& !started ==> r == ClickOutcome::Ignored && *final(chain_manager) == *old(chain_manager)
            &&& started && old(chain_manager).chain_started_this_turn ==> r
                == ClickOutcome::ChainRefused && *final(chain_manager) == *old(chain_manager)
            &&& started && !old(chain_manager).chain_started_this_turn ==> r
                == ClickOutcome::ChainStarted(old(chain_manager).next_chain_id) && chain_started_from(
                *old(chain_manager),
                *final(chain_manager),
                game_state.play_field.spec_get(position)->0,
                full_energy,
                no_spores,
            )
        }),
{
    if button != ClickButton::Primary {
        return ClickOutcome::Ignored;
    }
    if let Some(entity) = game_state.play_field.get(position) {
        // Try to start a chain from this mushroom
        match chain_manager.start_chain(entity, position, full_energy, no_spores) {
            Some(chain_id) => ClickOutcome::ChainStarted(chain_id),
            None => ClickOutcome::ChainRefused,
        }
    } else {
        ClickOutcome::Ignored
    }
}

/// Whether a click at `position` reaches the handlers: it must hit the field while
/// a turn phase runs, in the planting or chain phase.
pub open spec fn click_handled<S>(
    game_state: GameState<S>,
    position: GridPosition,
    phase: Option<TurnPhase>,
) -> bool {
    game_state.play_field.spec_contains(position) && (phase == Some(TurnPhase::Planting) || phase
        == Some(TurnPhase::Chain))
}

/// Which handler a grid click goes to: clicks off the field or outside a turn phase
/// are ignored; in the planting phase they plant or remove, in the chain phase they
/// start a chain, in the other phases nothing happens
pub fn route_grid_click<S>(
    position: GridPosition,
    phase: Option<TurnPhase>,
    game_state: &GameState<S>,
) -> (r: Option<TurnPhase>)
    ensures
        r == if click_handled(*game_state, position, phase) {
            phase
        } else {
            None::<TurnPhase>
        },
{
    if !game_state.play_field.contains(position) {
        return None;
    }
    match phase {
        Some(TurnPhase::Planting) => Some(TurnPhase::Planting),
        Some(TurnPhase::Chain) => Some(TurnPhase::Chain),
        _ => None,
    }
}

/// The direction a spawned mushroom faces: the one the spawn asked for, or else the
/// preview's
pub fn spawn_direction(
    requested: Option<MushroomDirection>,
    preview_direction: MushroomDirection,
) -> (r: MushroomDirection)
    ensures
        r == match requested {
            Some(d) => d,
            None => preview_direction,
        },
{
    match requested {
        Some(d) => d,
        None => preview_direction,
    }
}

/// The index of a mushroom's front view in the sprite sheet: two views per row
pub fn sprite_atlas_index(sprite_row: usize) -> (r: usize)
    requires
        sprite_row * 2 <= usize::MAX,
    ensures
        r == sprite_row * 2,
{
    sprite_row * 2
}

} // verus!
