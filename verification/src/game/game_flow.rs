//! Turn-based gameplay state management

use vstd::prelude::*;

use crate::game::level::{load_level_config, LevelDefinitions};
use crate::game::resources::GameState;
use crate::play_field::field::resized;

verus! {

/// High-level state of the current level
#[derive(Clone, Copy, Debug, PartialEq, Eq, Structural, Hash)]
pub enum LevelState {
    NotPlaying,
    Playing,
    Success,
    Failed,
}

impl Default for LevelState {
    fn default() -> (r: Self)
        ensures
            r == LevelState::NotPlaying,
    {
        LevelState::NotPlaying
    }
}

/// Turn phases - these substates only exist when in LevelState::Playing
#[derive(Clone, Copy, Debug, PartialEq, Eq, Structural, Hash)]
pub enum TurnPhase {
    Draw,
    Planting,
    Chain,
    Score,
}

impl Default for TurnPhase {
    fn default() -> (r: Self)
        ensures
            r == TurnPhase::Draw,
    {
        TurnPhase::Draw
    }
}

/// Data about the current turn
#[derive(Debug)]
pub struct TurnData<S> {
    pub current_turn: u32,
    pub mushrooms_drawn_this_turn: u32,
    pub activations_this_chain: u32,
    pub spores_this_chain: S,
}

impl<S> TurnData<S> {
    /// Turn data before any turn: all counters at zero
    pub fn new(no_spores: S) -> (r: Self)
        ensures
            r.current_turn == 0,
            r.mushrooms_drawn_this_turn == 0,
            r.activations_this_chain == 0,
            r.spores_this_chain == no_spores,
    {
        TurnData {
            current_turn: 0,
            mushrooms_drawn_this_turn: 0,
            activations_this_chain: 0,
            spores_this_chain: no_spores,
        }
    }
}

/// Current level configuration
#[derive(Debug)]
pub struct CurrentLevel<S> {
    pub level_index: usize,
    /// Spores to earn to complete the level, in whole spores
    pub target_score: u64,
    pub max_turns: u32,
    pub total_spores_earned: S,
}

impl<S> CurrentLevel<S> {
    /// No level loaded: the first level, no target, no turns
    pub fn new(no_spores: S) -> (r: Self)
        ensures
            r.level_index == 0,
            r.target_score == 0,
            r.max_turns == 0,
            r.total_spores_earned == no_spores,
    {
        CurrentLevel { level_index: 0, target_score: 0, max_turns: 0, total_spores_earned: no_spores }
    }
}

/// Actions available when a level is complete
#[derive(Clone, Copy, Debug, PartialEq, Eq, Structural)]
pub enum LevelCompleteAction {
    NextLevel,
    RetryLevel,
    MainMenu,
}

/// The buttons of the level-complete screen, in order: retry, the next level only
/// after a success, and the main menu.
pub fn level_complete_buttons(success: bool) -> (r: Vec<LevelCompleteAction>)
    ensures
        r@ == if success {
            seq![
                LevelCompleteAction::RetryLevel,
                LevelCompleteAction::NextLevel,
                LevelCompleteAction::MainMenu,
            ]
        } else {
            seq![LevelCompleteAction::RetryLevel, LevelCompleteAction::MainMenu]
        },
{
    let mut buttons: Vec<LevelCompleteAction> = Vec::new();
    buttons.push(LevelCompleteAction::RetryLevel);
    if success {
        buttons.push(LevelCompleteAction::NextLevel);
    }
    buttons.push(LevelCompleteAction::MainMenu);
    proof {
        if success {
            assert(buttons@ =~= seq![
                LevelCompleteAction::RetryLevel,
                LevelCompleteAction::NextLevel,
                LevelCompleteAction::MainMenu,
            ]);
        } else {
            assert(buttons@ =~= seq![LevelCompleteAction::RetryLevel, LevelCompleteAction::MainMenu]);
        }
    }
    buttons
}

/// The phase that follows `p` in a turn; after scoring a new turn starts with drawing.
pub open spec fn spec_next_phase(p: TurnPhase) -> TurnPhase {
    match p {
        TurnPhase::Draw => TurnPhase::Planting,
        TurnPhase::Planting => TurnPhase::Chain,
        TurnPhase::Chain => TurnPhase::Score,
        TurnPhase::Score => TurnPhase::Draw,
    }
}

/// Advance the turn phase by hand (with the space key): only while a level is being
/// played and a phase is running. Moving on from scoring starts the next turn.
/// Returns the phase to switch to, if any
pub fn manual_phase_advance<S>(
    space_just_pressed: bool,
    level_state: LevelState,
    current_phase: Option<TurnPhase>,
    turn_data: &mut TurnData<S>,
) -> (r: Option<TurnPhase>)
    requires
        space_just_pressed && level_state == LevelState::Playing && current_phase == Some(
            TurnPhase::Score,
        ) ==> old(turn_data).current_turn < u32::MAX,
    ensures
        r == if space_just_pressed && level_state == LevelState::Playing
            && current_phase is Some {
            Some(spec_next_phase(current_phase->0))
        } else {
            None::<TurnPhase>
        },
        final(turn_data).current_turn == old(turn_data).current_turn + if r is Some
            && current_phase == Some(TurnPhase::Score) {
            1int
        } else {
            0int
        },
        final(turn_data).mushrooms_drawn_this_turn == old(turn_data).mushrooms_drawn_this_turn,
        final(turn_data).activations_this_chain == old(turn_data).activations_this_chain,
        final(turn_data).spores_this_chain == old(turn_data).spores_this_chain,
{
    if !space_just_pressed {
        return None;
    }
    if level_state != LevelState::Playing {
        return None;
    }
    let phase = match current_phase {
        Some(p) => p,
        None => {
            return None;
        },
    };
    let next = match phase {
        TurnPhase::Draw => TurnPhase::Planting,
        TurnPhase::Planting => TurnPhase::Chain,
        TurnPhase::Chain => TurnPhase::Score,
        TurnPhase::Score => {
            turn_data.current_turn += 1;
            TurnPhase::Draw
        },
    };
    Some(next)
}

/// A turn runs through its phases in order: drawing, planting, the chain reaction,
/// scoring, and then drawing again.
pub proof fn lemma_phase_order()
    ensures
        spec_next_phase(TurnPhase::Draw) == TurnPhase::Planting,
        spec_next_phase(TurnPhase::Planting) == TurnPhase::Chain,
        spec_next_phase(TurnPhase::Chain) == TurnPhase::Score,
        spec_next_phase(TurnPhase::Score) == TurnPhase::Draw,
{
}

/// The first level starts the player with 25 spores, every later level with 50:
/// two levels start alike unless exactly one of them is the first.
pub proof fn lemma_starting_spores(i: usize, j: usize)
    ensures
        spec_starting_spores(0) == 25,
        i != 0 ==> spec_starting_spores(i) == 50,
        (spec_starting_spores(i) == spec_starting_spores(j)) == ((i == 0) == (j == 0)),
{
}

/// Four phase advances lead back to the same phase, and exactly one of them (the one
/// from scoring) starts a new turn.
pub proof fn lemma_phase_cycle(p: TurnPhase)
    ensures
        spec_next_phase(spec_next_phase(spec_next_phase(spec_next_phase(p)))) == p,
        (p == TurnPhase::Score) as int + (spec_next_phase(p) == TurnPhase::Score) as int + (
        spec_next_phase(spec_next_phase(p)) == TurnPhase::Score) as int + (spec_next_phase(
            spec_next_phase(spec_next_phase(p)),
        ) == TurnPhase::Score) as int == 1,
{
}

/// How many mushrooms the player draws in a turn: six in the first turn, four after.
pub open spec fn spec_draw_amount(current_turn: u32) -> u32 {
    if current_turn == 1 {
        6
    } else {
        4
    }
}

/// How many mushrooms the player draws in a turn
pub fn draw_amount(current_turn: u32) -> (r: u32)
    ensures
        r == spec_draw_amount(current_turn),
        current_turn == 1 ==> r == 6,
        current_turn != 1 ==> r == 4,
{
    if current_turn == 1 {
        6
    } else {
        4
    }
}

/// The first turn of a level draws six mushrooms, every later turn four: the
/// amounts of two turns differ only when one of them is the first.
pub proof fn lemma_draw_amounts(t: u32, u: u32)
    ensures
        spec_draw_amount(1) == 6,
        t != 1 ==> spec_draw_amount(t) == 4,
        (spec_draw_amount(t) != spec_draw_amount(u)) == ((t == 1) != (u == 1)),
{
}

/// Draw phase - player draws mushrooms from bag
pub fn enter_draw_phase<S>(turn_data: &mut TurnData<S>)
    ensures
        final(turn_data).mushrooms_drawn_this_turn == spec_draw_amount(old(turn_data).current_turn),
        final(turn_data).mushrooms_drawn_this_turn == if old(turn_data).current_turn == 1 {
            6u32
        } else {
            4u32
        },
        final(turn_data).current_turn == old(turn_data).current_turn,
        final(turn_data).activations_this_chain == old(turn_data).activations_this_chain,
        final(turn_data).spores_this_chain == old(turn_data).spores_this_chain,
{
    let amount = draw_amount(turn_data.current_turn);
    turn_data.mushrooms_drawn_this_turn = amount;
}

/// Chain phase - reset the chain counters
pub fn enter_chain_phase<S>(turn_data: &mut TurnData<S>, no_spores: S)
    ensures
        final(turn_data).activations_this_chain == 0,
        final(turn_data).spores_this_chain == no_spores,
        final(turn_data).current_turn == old(turn_data).current_turn,
        final(turn_data).mushrooms_drawn_this_turn == old(turn_data).mushrooms_drawn_this_turn,
{
    turn_data.activations_this_chain = 0;
    turn_data.spores_this_chain = no_spores;
}

/// The outcome of the score phase for a player who has earned `earned_whole_spores`
/// whole spores in the level: success once the target is reached, failure once the
/// last turn is over, and otherwise the game goes on.
pub open spec fn spec_score_outcome(
    earned_whole_spores: u64,
    target_score: u64,
    current_turn: u32,
    max_turns: u32,
) -> Option<LevelState> {
    if earned_whole_spores >= target_score {
        Some(LevelState::Success)
    } else if current_turn >= max_turns {
        Some(LevelState::Failed)
    } else {
        None
    }
}

/// Score phase: decide whether the level is won, lost, or goes on to the next turn
pub fn score_outcome(
    earned_whole_spores: u64,
    target_score: u64,
    current_turn: u32,
    max_turns: u32,
) -> (r: Option<LevelState>)
    ensures
        r == spec_score_outcome(earned_whole_spores, target_score, current_turn, max_turns),
{
    if earned_whole_spores >= target_score {
        return Some(LevelState::Success);
    }
    if current_turn >= max_turns {
        return Some(LevelState::Failed);
    }
    None
}

/// Reaching the target wins whatever the turn; a level that has not reached its
/// target is lost exactly when its turns are used up; and earning more never turns a
/// win into anything else.
pub proof fn lemma_score_outcome(
    earned: u64,
    more: u64,
    target_score: u64,
    current_turn: u32,
    max_turns: u32,
)
    requires
        earned <= more,
    ensures
        earned >= target_score ==> spec_score_outcome(earned, target_score, current_turn, max_turns)
            == Some(LevelState::Success),
        earned < target_score ==> (spec_score_outcome(earned, target_score, current_turn, max_turns)
            == Some(LevelState::Failed) <==> current_turn >= max_turns),
        spec_score_outcome(earned, target_score, current_turn, max_turns) == Some(
            LevelState::Success,
        ) ==> spec_score_outcome(more, target_score, current_turn, max_turns) == Some(
            LevelState::Success,
        ),
{
}

/// The character of a decimal digit.
pub open spec fn digit_char(d: nat) -> char {
    if d == 0 {
        '0'
    } else if d == 1 {
        '1'
    } else if d == 2 {
        '2'
    } else if d == 3 {
        '3'
    } else if d == 4 {
        '4'
    } else if d == 5 {
        '5'
    } else if d == 6 {
        '6'
    } else if d == 7 {
        '7'
    } else if d == 8 {
        '8'
    } else {
        '9'
    }
}

/// A number written in decimal, without leading zeros.
pub open spec fn decimal_text(n: nat) -> Seq<char>
    decreases n,
{
    if n < 10 {
        seq![digit_char(n)]
    } else {
        decimal_text(n / 10).push(digit_char(n % 10))
    }
}

/// The message of a level that could not be loaded: "Failed to load level "
/// followed by the level's index.
pub open spec fn level_load_error_text(level_index: usize) -> Seq<char> {
    seq!['F', 'a', 'i', 'l', 'e', 'd', ' ', 't', 'o', ' ', 'l', 'o', 'a', 'd', ' ', 'l', 'e', 'v', 'e', 'l', ' '] + decimal_text(level_index as nat)
}

/// The text of one decimal digit.
fn digit_text(d: usize) -> (r: &'static str)
    requires
        d < 10,
    ensures
        r@ == seq![digit_char(d as nat)],
{
    if d == 0 {
        proof {
            reveal_strlit("0");
        }
        "0"
    } else if d == 1 {
        proof {
            reveal_strlit("1");
        }
        "1"
    } else if d == 2 {
        proof {
            reveal_strlit("2");
        }
        "2"
    } else if d == 3 {
        proof {
            reveal_strlit("3");
        }
        "3"
    } else if d == 4 {
        proof {
            reveal_strlit("4");
        }
        "4"
    } else if d == 5 {
        proof {
            reveal_strlit("5");
        }
        "5"
    } else if d == 6 {
        proof {
            reveal_strlit("6");
        }
        "6"
    } else if d == 7 {
        proof {
            reveal_strlit("7");
        }
        "7"
    } else if d == 8 {
        proof {
            reveal_strlit("8");
        }
        "8"
    } else {
        proof {
            reveal_strlit("9");
        }
        "9"
    }
}

/// Append `n`, written in decimal without leading zeros, to `text`.
fn append_decimal(text: &mut String, n: usize)
    ensures
        final(text)@ == old(text)@ + decimal_text(n as nat),
    decreases n,
{
    if n >= 10 {
        append_decimal(text, n / 10);
    }
    let ghost before = text@;
    text.append(digit_text(n % 10));
    proof {
        if n >= 10 {
            assert(before + seq![digit_char((n % 10) as nat)] =~= old(text)@ + decimal_text(
                (n / 10) as nat,
            ).push(digit_char((n % 10) as nat)));
        } else {
            assert(n % 10 == n);
        }
    }
}

/// The message "Failed to load level {level_index}".
fn level_load_error(level_index: usize) -> (r: String)
    ensures
        r@ == level_load_error_text(level_index),
{
    let mut message = String::from_str("Failed to load level ");
    proof {
        reveal_strlit("Failed to load level ");
    }
    append_decimal(&mut message, level_index);
    proof {
        assert(message@ =~= level_load_error_text(level_index));
    }
    message
}

/// The state after level `i` of `defs` was loaded into a game whose state was
/// `before`: the level is the current one with nothing earned yet, the first turn
/// starts with its counters at zero, the play field has the level's size, and the
/// player has the starting spores (`first` in the first level, `later` after).
pub open spec fn level_loaded<S>(
    defs: LevelDefinitions,
    i: usize,
    current_level: CurrentLevel<S>,
    turn_data: TurnData<S>,
    before: GameState<S>,
    after: GameState<S>,
    no_spores: S,
    first: S,
    later: S,
) -> bool {
    let d = defs.levels@[i as int];
    &&& i < defs.levels@.len()
    &&& current_level.level_index == i
    &&& current_level.target_score == d.target_score
    &&& current_level.max_turns == d.max_turns
    &&& current_level.total_spores_earned == no_spores
    &&& turn_data.current_turn == 1
    &&& turn_data.mushrooms_drawn_this_turn == 0
    &&& turn_data.activations_this_chain == 0
    &&& turn_data.spores_this_chain == no_spores
    &&& after.spores == if i == 0 {
        first
    } else {
        later
    }
    &&& resized(before.play_field, after.play_field, d.grid_width, d.grid_height)
    &&& after.total_spores_earned == before.total_spores_earned
    &&& after.total_activations == before.total_activations
    &&& after.chain_activations == before.chain_activations
}

/// Load a specific level by index: the play field takes the level's size, the level
/// becomes the current one with nothing earned yet, the first turn starts, and the
/// player gets the starting spores (`first_level_spores` in the first level,
/// `later_level_spores` after). Returns the level's name, or an error if there is no
/// such level; then nothing changes
pub fn load_level<S: Copy>(
    level_index: usize,
    level_definitions: &LevelDefinitions,
    current_level: &mut CurrentLevel<S>,
    turn_data: &mut TurnData<S>,
    game_state: &mut GameState<S>,
    no_spores: S,
    first_level_spores: S,
    later_level_spores: S,
) -> (r: Result<String, String>)
    requires
        level_definitions.wf(),
        old(game_state).play_field.wf(),
    ensures
        final(game_state).play_field.wf(),
        r is Ok <==> level_index < level_definitions.levels@.len(),
        match r {
            Ok(name) => {
                &&& name@ == level_definitions.levels@[level_index as int].name@
                &&& level_loaded(
                    *level_definitions,
                    level_index,
                    *final(current_level),
                    *final(turn_data),
                    *old(game_state),
                    *final(game_state),
                    no_spores,
                    first_level_spores,
                    later_level_spores,
                )
            },
            Err(message) => {
                &&& message@ == level_load_error_text(level_index)
                &&& *final(current_level) == *old(current_level)
                &&& *final(turn_data) == *old(turn_data)
                &&& *final(game_state) == *old(game_state)
            },
        },
{
    match load_level_config(level_index, level_definitions, game_state) {
        Some(level_def) => {
            let level_name = level_def.name;
            *current_level = CurrentLevel {
                level_index,
                target_score: level_def.target_score,
                max_turns: level_def.max_turns,
                total_spores_earned: no_spores,
            };
            *turn_data = TurnData {
                current_turn: 1,
                mushrooms_drawn_this_turn: 0,
                activations_this_chain: 0,
                spores_this_chain: no_spores,
            };
            // Starting spores - irrelevant later when we switch to bag system
            game_state.spores = if level_index == 0 {
                first_level_spores
            } else {
                later_level_spores
            };
            Ok(level_name)
        },
        None => Err(level_load_error(level_index)),
    }
}

/// What the game does after the player picked an action on a finished level.
#[derive(Clone, Copy, Debug, PartialEq, Eq, Structural)]
pub enum LevelCompleteStep {
    /// A level was loaded: play it
    Play,
    /// Go back to the title screen
    ToTitle,
    /// Nothing to do
    Stay,
}

/// Handle the action picked on a finished level: retry loads the same level again,
/// next loads the following one (or goes back to the title screen when there is
/// none), and the main menu goes back to the title screen
pub fn handle_level_complete_action<S: Copy>(
    action: LevelCompleteAction,
    level_definitions: &LevelDefinitions,
    current_level: &mut CurrentLevel<S>,
    turn_data: &mut TurnData<S>,
    game_state: &mut GameState<S>,
    no_spores: S,
    first_level_spores: S,
    later_level_spores: S,
) -> (r: LevelCompleteStep)
    requires
        level_definitions.wf(),
        old(game_state).play_field.wf(),
        action == LevelCompleteAction::NextLevel ==> old(current_level).level_index < usize::MAX,
    ensures
        final(game_state).play_field.wf(),
        ({
            let n = level_definitions.levels@.len();
            let i = old(current_level).level_index;
            let unchanged = *final(current_level) == *old(current_level) && *final(turn_data)
                == *old(turn_data) && *final(game_state) == *old(game_state);
            let loads = |k: usize|
                level_loaded(
                    *level_definitions,
                    k,
                    *final(current_level),
                    *final(turn_data),
                    *old(game_state),
                    *final(game_state),
                    no_spores,
                    first_level_spores,
                    later_level_spores,
                );
            match action {
                LevelCompleteAction::RetryLevel => if i < n {
                    r == LevelCompleteStep::Play && loads(i)
                } else {
                    r == LevelCompleteStep::Stay && unchanged
                },
                LevelCompleteAction::NextLevel => if i + 1 < n {
                    r == LevelCompleteStep::Play && loads((i + 1) as usize)
                } else {
                    r == LevelCompleteStep::ToTitle && unchanged
                },
                LevelCompleteAction::MainMenu => r == LevelCompleteStep::ToTitle && unchanged,
            }
        }),
{
    match action {
        LevelCompleteAction::RetryLevel => {
            let index = current_level.level_index;
            let loaded = load_level(
                index,
                level_definitions,
                current_level,
                turn_data,
                game_state,
                no_spores,
                first_level_spores,
                later_level_spores,
            );
            if loaded.is_ok() {
                LevelCompleteStep::Play
            } else {
                LevelCompleteStep::Stay
            }
        },
        LevelCompleteAction::NextLevel => {
            let next_index = current_level.level_index + 1;
            match load_level(
                next_index,
                level_definitions,
                current_level,
                turn_data,
                game_state,
                no_spores,
                first_level_spores,
                later_level_spores,
            ) {
                Ok(_) => LevelCompleteStep::Play,
                Err(_) => LevelCompleteStep::ToTitle,
            }
        },
        LevelCompleteAction::MainMenu => LevelCompleteStep::ToTitle,
    }
}

/// Clean up when leaving gameplay: turn data and level back to their defaults, the
/// spores back to the starting amount and the activation counters to zero. Returns
/// the level state to switch to
pub fn cleanup_gameplay_state<S: Copy>(
    turn_data: &mut TurnData<S>,
    current_level: &mut CurrentLevel<S>,
    game_state: &mut GameState<S>,
    no_spores: S,
    starting_spores: S,
) -> (r: LevelState)
    ensures
        r == LevelState::NotPlaying,
        final(turn_data).current_turn == 0,
        final(turn_data).mushrooms_drawn_this_turn == 0,
        final(turn_data).activations_this_chain == 0,
        final(turn_data).spores_this_chain == no_spores,
        final(current_level).level_index == 0,
        final(current_level).target_score == 0,
        final(current_level).max_turns == 0,
        final(current_level).total_spores_earned == no_spores,
        final(game_state).spores == starting_spores,
        final(game_state).total_activations == 0,
        final(game_state).chain_activations == 0,
        final(game_state).total_spores_earned == old(game_state).total_spores_earned,
        final(game_state).play_field == old(game_state).play_field,
{
    *turn_data = TurnData::new(no_spores);
    *current_level = CurrentLevel::new(no_spores);
    // Reset to starting spores
    game_state.spores = starting_spores;
    game_state.total_activations = 0;
    game_state.chain_activations = 0;
    LevelState::NotPlaying
}

/// Spores the player starts a level with, in whole spores: 25 in the first level and
/// 50 in the others.
pub open spec fn spec_starting_spores(level_index: usize) -> u32 {
    if level_index == 0 {
        25
    } else {
        50
    }
}

/// Spores the player starts a level with, in whole spores
pub fn starting_spores(level_index: usize) -> (r: u32)
    ensures
        r == spec_starting_spores(level_index),
        level_index == 0 ==> r == 25,
        level_index != 0 ==> r == 50,
{
    if level_index == 0 {
        25
    } else {
        50
    }
}

} // verus!
