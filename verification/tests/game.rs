use mushroom_chain::game::event_queue::{EventQueue, ScheduledEvent};
use mushroom_chain::game::game_flow::{
    cleanup_gameplay_state, draw_amount, enter_chain_phase, enter_draw_phase,
    handle_level_complete_action, level_complete_buttons, load_level, manual_phase_advance, score_outcome,
    starting_spores, CurrentLevel, LevelCompleteAction, LevelCompleteStep, LevelState, TurnData,
    TurnPhase,
};
use mushroom_chain::game::level::{
    grid_cell_positions, load_level_config, starting_mushroom_spawns, LevelDefinition,
    LevelDefinitions,
};
use mushroom_chain::play_field::field::PlayField;
use mushroom_chain::game::resources::GameState;
use mushroom_chain::game::ui::{
    advance_phase_on_click, level_complete_button_label, level_complete_title, phase_button_label,
    phase_button_visible, turn_phase_text,
};
use mushroom_chain::mushrooms::chain_activation::OnceTimer;
use mushroom_chain::mushrooms::definitions::MushroomType;
use mushroom_chain::play_field::position::GridPosition;
use mushroom_chain::play_field::tiles::TileType;

#[test]
fn defaults() {
    assert_eq!(LevelState::default(), LevelState::NotPlaying);
    assert_eq!(TurnPhase::default(), TurnPhase::Draw);
    let t: TurnData<f64> = TurnData::new(0.0);
    assert_eq!(t.current_turn, 0);
    let c: CurrentLevel<f64> = CurrentLevel::new(0.0);
    assert_eq!((c.level_index, c.target_score, c.max_turns), (0, 0, 0));
    let g: GameState<f64> = GameState::new(0.0);
    assert_eq!((g.play_field.width, g.play_field.height), (6, 6));
}

#[test]
fn phases_cycle_and_turns_count() {
    let mut t: TurnData<f64> = TurnData::new(0.0);
    t.current_turn = 1;
    let mut phase = TurnPhase::Draw;
    for _ in 0..4 {
        phase = manual_phase_advance(true, LevelState::Playing, Some(phase), &mut t).unwrap();
    }
    assert_eq!(phase, TurnPhase::Draw);
    assert_eq!(t.current_turn, 2);
    assert_eq!(manual_phase_advance(false, LevelState::Playing, Some(TurnPhase::Score), &mut t), None);
    assert_eq!(manual_phase_advance(true, LevelState::Success, Some(TurnPhase::Score), &mut t), None);
    assert_eq!(manual_phase_advance(true, LevelState::Playing, None, &mut t), None);
    assert_eq!(t.current_turn, 2);
    assert_eq!(advance_phase_on_click(Some(TurnPhase::Chain), &mut t), Some(TurnPhase::Score));
    assert_eq!(advance_phase_on_click(Some(TurnPhase::Score), &mut t), Some(TurnPhase::Draw));
    assert_eq!(t.current_turn, 3);
    assert_eq!(advance_phase_on_click(None, &mut t), None);
}

#[test]
fn draw_and_chain_phases() {
    assert_eq!(draw_amount(1), 6);
    assert_eq!(draw_amount(2), 4);
    assert_eq!(draw_amount(0), 4);
    let mut t: TurnData<f64> = TurnData::new(0.0);
    t.current_turn = 1;
    enter_draw_phase(&mut t);
    assert_eq!(t.mushrooms_drawn_this_turn, 6);
    t.activations_this_chain = 9;
    t.spores_this_chain = 12.0;
    enter_chain_phase(&mut t, 0.0);
    assert_eq!(t.activations_this_chain, 0);
    assert_eq!(t.spores_this_chain, 0.0);
}

#[test]
fn score_outcomes() {
    assert_eq!(score_outcome(100, 100, 1, 5), Some(LevelState::Success));
    assert_eq!(score_outcome(150, 100, 5, 5), Some(LevelState::Success));
    assert_eq!(score_outcome(99, 100, 5, 5), Some(LevelState::Failed));
    assert_eq!(score_outcome(99, 100, 4, 5), None);
}

#[test]
fn level_table() {
    let levels = LevelDefinitions::default();
    assert_eq!(levels.levels.len(), 5);
    let first = levels.get_level(0).unwrap();
    assert_eq!(first.name, "Level 1");
    assert_eq!((first.grid_width, first.grid_height, first.target_score, first.max_turns), (12, 12, 100, 5));
    assert_eq!(first.starting_mushrooms.len(), 1);
    assert_eq!(first.starting_mushrooms[0].mushroom_type, MushroomType::Pulse);
    assert_eq!(first.tile_configuration.len(), 20);
    assert_eq!(first.tile_configuration[6], (GridPosition::new(7, 1), TileType::BlockedRock));
    let fifth = levels.get_level(4).unwrap();
    assert_eq!((fifth.grid_width, fifth.grid_height, fifth.target_score), (12, 6, 5000));
    assert!(levels.get_level(5).is_none());
    let d = LevelDefinition::default();
    assert_eq!((d.name.as_str(), d.grid_width, d.target_score, d.max_turns), ("Level", 8, 500, 3));
    let copy = first.clone();
    assert_eq!(copy.tile_configuration, first.tile_configuration);
}

#[test]
fn loading_levels() {
    let levels = LevelDefinitions::default();
    let mut gs: GameState<f64> = GameState::new(0.0);
    let cfg = load_level_config(3, &levels, &mut gs).unwrap();
    assert_eq!(cfg.name, "Level 4");
    assert_eq!((gs.play_field.width, gs.play_field.height), (6, 12));
    assert!(load_level_config(9, &levels, &mut gs).is_none());

    let mut cur: CurrentLevel<f64> = CurrentLevel::new(0.0);
    let mut turn: TurnData<f64> = TurnData::new(0.0);
    assert_eq!(starting_spores(0), 25);
    assert_eq!(starting_spores(3), 50);
    let name = load_level(1, &levels, &mut cur, &mut turn, &mut gs, 0.0, 25.0, 50.0).unwrap();
    assert_eq!(name, "Level 2");
    assert_eq!((cur.level_index, cur.target_score, cur.max_turns), (1, 100, 4));
    assert_eq!(turn.current_turn, 1);
    assert_eq!(gs.spores, 50.0);
    assert_eq!((gs.play_field.width, gs.play_field.height), (8, 8));
    load_level(0, &levels, &mut cur, &mut turn, &mut gs, 0.0, 25.0, 50.0).unwrap();
    assert_eq!(gs.spores, 25.0);
    let err = load_level(7, &levels, &mut cur, &mut turn, &mut gs, 0.0, 25.0, 50.0).unwrap_err();
    assert_eq!(err, "Failed to load level 7");
    let err = load_level(1024, &levels, &mut cur, &mut turn, &mut gs, 0.0, 25.0, 50.0).unwrap_err();
    assert_eq!(err, "Failed to load level 1024");
    assert_eq!(cur.level_index, 0);
}

#[test]
fn level_complete_screen_buttons() {
    assert_eq!(
        level_complete_buttons(true),
        vec![LevelCompleteAction::RetryLevel, LevelCompleteAction::NextLevel, LevelCompleteAction::MainMenu]
    );
    assert_eq!(
        level_complete_buttons(false),
        vec![LevelCompleteAction::RetryLevel, LevelCompleteAction::MainMenu]
    );
}

#[test]
fn level_complete_actions() {
    let levels = LevelDefinitions::default();
    let mut gs: GameState<f64> = GameState::new(0.0);
    let mut cur: CurrentLevel<f64> = CurrentLevel::new(0.0);
    let mut turn: TurnData<f64> = TurnData::new(0.0);
    load_level(3, &levels, &mut cur, &mut turn, &mut gs, 0.0, 25.0, 50.0).unwrap();
    turn.current_turn = 4;
    let step = handle_level_complete_action(LevelCompleteAction::RetryLevel, &levels, &mut cur, &mut turn, &mut gs, 0.0, 25.0, 50.0);
    assert_eq!(step, LevelCompleteStep::Play);
    assert_eq!((cur.level_index, turn.current_turn), (3, 1));
    let step = handle_level_complete_action(LevelCompleteAction::NextLevel, &levels, &mut cur, &mut turn, &mut gs, 0.0, 25.0, 50.0);
    assert_eq!(step, LevelCompleteStep::Play);
    assert_eq!(cur.level_index, 4);
    let step = handle_level_complete_action(LevelCompleteAction::NextLevel, &levels, &mut cur, &mut turn, &mut gs, 0.0, 25.0, 50.0);
    assert_eq!(step, LevelCompleteStep::ToTitle);
    assert_eq!(cur.level_index, 4);
    let step = handle_level_complete_action(LevelCompleteAction::MainMenu, &levels, &mut cur, &mut turn, &mut gs, 0.0, 25.0, 50.0);
    assert_eq!(step, LevelCompleteStep::ToTitle);
    cur.level_index = 99;
    let step = handle_level_complete_action(LevelCompleteAction::RetryLevel, &levels, &mut cur, &mut turn, &mut gs, 0.0, 25.0, 50.0);
    assert_eq!(step, LevelCompleteStep::Stay);
    assert_eq!(cur.level_index, 99);
}

#[test]
fn cleanup_and_activation_counts() {
    let mut gs: GameState<f64> = GameState::new(0.0);
    gs.record_activation(false);
    gs.record_activation(true);
    assert_eq!((gs.total_activations, gs.chain_activations), (2, 1));
    let mut cur: CurrentLevel<f64> = CurrentLevel::new(0.0);
    cur.level_index = 3;
    let mut turn: TurnData<f64> = TurnData::new(0.0);
    turn.current_turn = 4;
    let state = cleanup_gameplay_state(&mut turn, &mut cur, &mut gs, 0.0, 25.0);
    assert_eq!(state, LevelState::NotPlaying);
    assert_eq!((turn.current_turn, cur.level_index), (0, 0));
    assert_eq!(gs.spores, 25.0);
    assert_eq!((gs.total_activations, gs.chain_activations), (0, 0));
}

#[test]
fn scheduled_events_fire_once() {
    let mut q: EventQueue<u32> = EventQueue::default();
    q.scheduled.push(ScheduledEvent { event: 1, delay: OnceTimer::from_micros(100) });
    q.scheduled.push(ScheduledEvent { event: 2, delay: OnceTimer::from_micros(10) });
    q.scheduled.push(ScheduledEvent { event: 3, delay: OnceTimer::from_micros(50) });
    q.process_scheduled_events(60);
    assert_eq!(q.immediate.iter().copied().collect::<Vec<_>>(), vec![2, 3]);
    assert_eq!(q.scheduled.len(), 1);
    q.process_scheduled_events(60);
    assert_eq!(q.immediate.iter().copied().collect::<Vec<_>>(), vec![2, 3, 1]);
    assert!(q.scheduled.is_empty());
}

#[test]
fn interface_texts() {
    assert_eq!(turn_phase_text(LevelState::Playing, Some(TurnPhase::Chain)), "CHAIN PHASE - Click a mushroom to start the reaction");
    assert_eq!(turn_phase_text(LevelState::Playing, None), "Waiting...");
    assert_eq!(turn_phase_text(LevelState::Failed, None), "LEVEL COMPLETE (FAILURE)!");
    assert_eq!(turn_phase_text(LevelState::NotPlaying, Some(TurnPhase::Draw)), "Not in game");
    assert_eq!(phase_button_label(TurnPhase::Score), "Next Turn");
    assert_eq!(phase_button_label(TurnPhase::Draw), "Start Planting");
    assert!(phase_button_visible(LevelState::Playing));
    assert!(!phase_button_visible(LevelState::Success));
}

#[test]
fn level_setup_lists() {
    let levels = LevelDefinitions::default();
    let first = levels.get_level(0).unwrap();
    let big = PlayField::new(12, 12);
    assert_eq!(starting_mushroom_spawns(first, &big), vec![(GridPosition::new(2, 2), MushroomType::Pulse)]);
    let small = PlayField::new(2, 2);
    assert!(starting_mushroom_spawns(first, &small).is_empty());
    let cells = grid_cell_positions(&PlayField::new(3, 2));
    let xy: Vec<(i32, i32)> = cells.iter().map(|p| (p.x, p.y)).collect();
    assert_eq!(xy, vec![(0, 0), (1, 0), (2, 0), (0, 1), (1, 1), (2, 1)]);
    assert!(grid_cell_positions(&PlayField::new(0, 5)).is_empty());
}

#[test]
fn level_complete_screen_texts() {
    assert_eq!(level_complete_title(true), "LEVEL COMPLETE!");
    assert_eq!(level_complete_title(false), "LEVEL FAILED!");
    assert_eq!(level_complete_button_label(LevelCompleteAction::RetryLevel), "Retry Level");
    assert_eq!(level_complete_button_label(LevelCompleteAction::NextLevel), "Next Level");
    assert_eq!(level_complete_button_label(LevelCompleteAction::MainMenu), "Main Menu");
}
