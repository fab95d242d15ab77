//! What the gameplay interface shows: the phase text, the phase button, the
//! phase advance that the button makes, and the texts of the level-complete screen.

use vstd::prelude::*;

use crate::game::game_flow::{spec_next_phase, LevelCompleteAction, LevelState, TurnData, TurnPhase};

verus! {

/// The text of the turn phase display
pub fn turn_phase_text(level_state: LevelState, current_phase: Option<TurnPhase>) -> (r: &'static str)
    ensures
        r@ == match level_state {
            LevelState::Playing => match current_phase {
                Some(TurnPhase::Draw) => "DRAW PHASE - Draw mushrooms from your bag"@,
                Some(TurnPhase::Planting) => "PLANTING PHASE - Place mushrooms on the grid"@,
                Some(TurnPhase::Chain) => "CHAIN PHASE - Click a mushroom to start the reaction"@,
                Some(TurnPhase::Score) => "SCORE PHASE - Checking results..."@,
                None => "Waiting..."@,
            },
            LevelState::Failed => "LEVEL COMPLETE (FAILURE)!"@,
            LevelState::Success => "LEVEL COMPLETE (SUCCESS)!"@,
            LevelState::NotPlaying => "Not in game"@,
        },
{
    match level_state {
        LevelState::Playing => match current_phase {
            Some(TurnPhase::Draw) => "DRAW PHASE - Draw mushrooms from your bag",
            Some(TurnPhase::Planting) => "PLANTING PHASE - Place mushrooms on the grid",
            Some(TurnPhase::Chain) => "CHAIN PHASE - Click a mushroom to start the reaction",
            Some(TurnPhase::Score) => "SCORE PHASE - Checking results...",
            None => "Waiting...",
        },
        LevelState::Failed => "LEVEL COMPLETE (FAILURE)!",
        LevelState::Success => "LEVEL COMPLETE (SUCCESS)!",
        LevelState::NotPlaying => "Not in game",
    }
}

/// The title of the level-complete screen
pub fn level_complete_title(success: bool) -> (r: &'static str)
    ensures
        r@ == if success {
            "LEVEL COMPLETE!"@
        } else {
            "LEVEL FAILED!"@
        },
{
    if success {
        "LEVEL COMPLETE!"
    } else {
        "LEVEL FAILED!"
    }
}

/// The label of a button of the level-complete screen
pub fn level_complete_button_label(action: LevelCompleteAction) -> (r: &'static str)
    ensures
        r@ == match action {
            LevelCompleteAction::RetryLevel => "Retry Level"@,
            LevelCompleteAction::NextLevel => "Next Level"@,
            LevelCompleteAction::MainMenu => "Main Menu"@,
        },
{
    match action {
        LevelCompleteAction::RetryLevel => "Retry Level",
        LevelCompleteAction::NextLevel => "Next Level",
        LevelCompleteAction::MainMenu => "Main Menu",
    }
}

/// The label of the phase advance button in a phase
pub fn phase_button_label(phase: TurnPhase) -> (r: &'static str)
    ensures
        r@ == match phase {
            TurnPhase::Draw => "Start Planting"@,
            TurnPhase::Planting => "Start Chain Phase"@,
            TurnPhase::Chain => "End Turn"@,
            TurnPhase::Score => "Next Turn"@,
        },
{
    match phase {
        TurnPhase::Draw => "Start Planting",
        TurnPhase::Planting => "Start Chain Phase",
        TurnPhase::Chain => "End Turn",
        TurnPhase::Score => "Next Turn",
    }
}

/// The phase advance button shows only while a level is being played
pub fn phase_button_visible(level_state: LevelState) -> (r: bool)
    ensures
        r == (level_state == LevelState::Playing),
{
    level_state == LevelState::Playing
}

/// The phase advance button was clicked: the phase moves on, and moving on from
/// scoring starts the next turn. Returns the phase to switch to, if a phase runs
pub fn advance_phase_on_click<S>(current_phase: Option<TurnPhase>, turn_data: &mut TurnData<S>) -> (r:
    Option<TurnPhase>)
    requires
        current_phase == Some(TurnPhase::Score) ==> old(turn_data).current_turn < u32::MAX,
    ensures
        r == match current_phase {
            Some(p) => Some(spec_next_phase(p)),
            None => None,
        },
        final(turn_data).current_turn == old(turn_data).current_turn + if current_phase == Some(
            TurnPhase::Score,
        ) {
            1int
        } else {
            0int
        },
        final(turn_data).mushrooms_drawn_this_turn == old(turn_data).mushrooms_drawn_this_turn,
        final(turn_data).activations_this_chain == old(turn_data).activations_this_chain,
        final(turn_data).spores_this_chain == old(turn_data).spores_this_chain,
{
    match current_phase {
        Some(phase) => {
            let next = match phase {
                TurnPhase::Draw => TurnPhase::Planting,
                TurnPhase::Planting => TurnPhase::Chain,
                TurnPhase::Chain => TurnPhase::Score,
                TurnPhase::Score => {
                    turn_data.current_turn += 1;
                    TurnPhase::Draw
                },
            };
            Some(next)
        },
        None => None,
    }
}

} // verus!
