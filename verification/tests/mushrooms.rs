use mushroom_chain::game::game_flow::TurnPhase;
use mushroom_chain::game::resources::GameState;
use mushroom_chain::mushrooms::chain_activation::{
    activate_mushroom, connected_targets, delete_targets, propagation_delay_us,
    reset_mushroom_states, targets_fit, ActivationOutcome, ChainManager, EnergyPacket,
    MushroomActivationState, OnceTimer, PendingActivation,
};
use mushroom_chain::mushrooms::connection_patterns;
use mushroom_chain::mushrooms::converter_system::{
    find_convertible_tiles, process_end_of_turn_conversions, ConversionRule, ConverterOnField,
};
use mushroom_chain::mushrooms::definitions::{
    initialize_definitions, ActivationBehavior, GridOffset, MushroomDefinition, MushroomDefinitions, MushroomType,
    UnlockRequirement, MUSHROOM_TYPE_COUNT,
};
use mushroom_chain::mushrooms::interaction::{
    handle_chain_click, handle_planting_click, route_grid_click, spawn_direction,
    sprite_atlas_index, ClickButton, ClickOutcome,
};
use mushroom_chain::mushrooms::{
    connection_target_position, rotate_connection_point, MushroomDirection,
};
use mushroom_chain::play_field::field::PlayField;
use mushroom_chain::play_field::position::GridPosition;
use mushroom_chain::play_field::tiles::TileType;

fn pos(x: i32, y: i32) -> GridPosition {
    GridPosition::new(x, y)
}

fn offset(x: i32, y: i32) -> GridOffset {
    GridOffset::new(x, y)
}

fn defs() -> MushroomDefinitions {
    let mut d = MushroomDefinitions::default();
    initialize_definitions(&mut d);
    d
}

#[test]
fn four_quarter_turns_come_back() {
    let mut d = MushroomDirection::default();
    assert_eq!(d, MushroomDirection::Up);
    for expected in [MushroomDirection::Right, MushroomDirection::Down, MushroomDirection::Left, MushroomDirection::Up] {
        d = d.rotate_clockwise();
        assert_eq!(d, expected);
    }
}

#[test]
fn rotation_of_connection_points() {
    let p = offset(2, 1);
    let r = rotate_connection_point(&p, &MushroomDirection::Up);
    assert_eq!((r.x, r.y), (2, 1));
    let r = rotate_connection_point(&p, &MushroomDirection::Right);
    assert_eq!((r.x, r.y), (1, -2));
    let r = rotate_connection_point(&p, &MushroomDirection::Down);
    assert_eq!((r.x, r.y), (-2, -1));
    let r = rotate_connection_point(&p, &MushroomDirection::Left);
    assert_eq!((r.x, r.y), (-1, 2));
    // turning the facing turns the point a quarter further
    let once = rotate_connection_point(&p, &MushroomDirection::Right);
    let twice = rotate_connection_point(&once, &MushroomDirection::Right);
    let r = rotate_connection_point(&p, &MushroomDirection::Down);
    assert_eq!((twice.x, twice.y), (r.x, r.y));
    let t = connection_target_position(pos(5, 5), Some(MushroomDirection::Left), &p);
    assert_eq!((t.x, t.y), (4, 7));
    let t = connection_target_position(pos(5, 5), None, &p);
    assert_eq!((t.x, t.y), (7, 6));
}

#[test]
fn connection_patterns_lists() {
    let c = connection_patterns::cardinal();
    assert_eq!(c.len(), 4);
    assert_eq!((c[1].x, c[1].y), (1, 0));
    assert_eq!(connection_patterns::all_directions().len(), 8);
    let k = connection_patterns::knight_forward();
    assert_eq!((k[0].x, k[0].y), (2, 1));
}

#[test]
fn mushroom_type_indices() {
    assert_eq!(MUSHROOM_TYPE_COUNT, 18);
    assert_eq!(MushroomType::Basic.type_index(), 0);
    assert_eq!(MushroomType::Test.type_index(), 17);
    for i in 0..MUSHROOM_TYPE_COUNT {
        assert_eq!(MushroomType::from_type_index(i).type_index(), i);
    }
}

#[test]
fn standard_definitions() {
    let d = defs();
    let basic = d.get(MushroomType::Basic).unwrap();
    assert_eq!(basic.name, "Button");
    assert_eq!(basic.base_production, 10);
    assert_eq!(basic.cooldown_ms, 100);
    assert_eq!(basic.max_uses_per_turn, 5);
    assert!(basic.connection_points.is_empty());
    let fork = d.get(MushroomType::Fork).unwrap();
    assert_eq!(fork.activation_behavior, ActivationBehavior::Amplifier { boost_percent: 300 });
    let conv = d.get(MushroomType::Converter).unwrap();
    assert_eq!(conv.activation_behavior, ActivationBehavior::Converter { convert_to: TileType::Fertile });
    assert!(d.get(MushroomType::Test).is_none());
    assert_eq!(d.all_types().len(), 17);
    assert!(!d.all_types().contains(&MushroomType::Test));
    assert!(MushroomDefinitions::default().get(MushroomType::Basic).is_none());
}

#[test]
fn unlock_requirements() {
    let r = UnlockRequirement::All(vec![
        UnlockRequirement::TotalSpores(100),
        UnlockRequirement::Any(vec![UnlockRequirement::ReachLevel(2), UnlockRequirement::ChainActivations(5)]),
    ]);
    assert!(!r.is_met(99, 5, 0));
    assert!(r.is_met(100, 5, 0));
    assert!(r.is_met(100, 0, 2));
    assert!(!r.is_met(100, 4, 1));
    // more progress never locks a type again
    assert!(r.is_met(1000, 50, 9));
    assert!(UnlockRequirement::Unconditional.is_met(0, 0, 0));
    assert!(UnlockRequirement::All(vec![]).is_met(0, 0, 0));
    assert!(!UnlockRequirement::Any(vec![]).is_met(0, 0, 0));
    let d = defs();
    assert!(d.is_unlocked(MushroomType::Knight, 0, 0, 0));
    assert!(!d.is_unlocked(MushroomType::Test, 1000, 1000, 10));
}

#[test]
fn timers_finish_once() {
    let mut t = OnceTimer::from_micros(100);
    assert!(!t.finished());
    t.tick(40);
    assert!(!t.finished());
    assert_eq!(t.elapsed_us, 40);
    t.tick(70);
    assert!(t.finished());
    assert_eq!(t.elapsed_us, 100);
    t.tick(5);
    assert_eq!(t.elapsed_us, 100);
    let mut zero = OnceTimer::from_micros(0);
    assert!(!zero.finished());
    zero.tick(0);
    assert!(zero.finished());
}

#[test]
fn propagation_delays() {
    assert_eq!(propagation_delay_us(0), 200_000);
    assert_eq!(propagation_delay_us(3), 350_000);
    assert_eq!(propagation_delay_us(usize::MAX), u64::MAX);
}

#[test]
fn one_chain_per_turn() {
    let mut cm: ChainManager<f32, f64> = ChainManager::default();
    assert!(!cm.has_active_chains());
    assert_eq!(cm.start_chain(7, pos(1, 1), 1.0, 0.0), Some(0));
    assert_eq!(cm.start_chain(8, pos(2, 2), 1.0, 0.0), None);
    assert_eq!(cm.chains.len(), 1);
    assert_eq!(cm.current_chain, Some(0));
    assert!(cm.has_active_chains());
    assert_eq!(cm.activation_queue.len(), 1);
    assert_eq!(cm.activation_queue[0].entity, 7);
    assert_eq!(cm.activation_queue[0].energy_packet.energy, 1.0);
    assert!(cm.get_chain(0).is_some());
    assert!(cm.get_chain(1).is_none());
    cm.reset_turn();
    assert!(!cm.has_active_chains());
    assert_eq!(cm.start_chain(8, pos(2, 2), 1.0, 0.0), Some(1));
    assert_eq!(cm.next_chain_id, 2);
}

#[test]
fn ready_activations_leave_the_queue_in_order() {
    let mut cm: ChainManager<f32, f64> = ChainManager::default();
    cm.start_chain(1, pos(0, 0), 1.0, 0.0);
    cm.queue_activation(2, EnergyPacket { energy: 0.5, source_entity: 2, path: vec![1] }, 300, 0);
    cm.queue_activation(3, EnergyPacket { energy: 0.5, source_entity: 3, path: vec![1] }, 100, 0);
    let ready = cm.take_ready_activations(150);
    assert_eq!(ready.iter().map(|a| a.entity).collect::<Vec<_>>(), vec![1, 3]);
    assert_eq!(cm.activation_queue.len(), 1);
    assert_eq!(cm.activation_queue[0].delay.elapsed_us, 150);
    cm.complete_finished_chains();
    assert!(cm.chains[0].active);
    let ready = cm.take_ready_activations(150);
    assert_eq!(ready.len(), 1);
    cm.complete_finished_chains();
    assert!(!cm.chains[0].active);
    assert!(!cm.has_active_chains());
}

#[test]
fn chain_records_can_be_updated() {
    let mut cm: ChainManager<f32, f64> = ChainManager::default();
    cm.start_chain(1, pos(0, 0), 1.0, 0.0);
    if let Some(chain) = cm.get_chain_mut(0) {
        chain.total_spores += 12.5;
    }
    assert_eq!(cm.chains[0].total_spores, 12.5);
    assert!(cm.get_chain_mut(5).is_none());
}

#[test]
fn propagation_queues_one_activation_per_target() {
    let mut cm: ChainManager<f32, f64> = ChainManager::default();
    let targets = vec![(10, pos(1, 0)), (11, pos(0, 1))];
    cm.queue_propagation(&targets, 4, &vec![2, 3], 0.25, 6);
    assert_eq!(cm.activation_queue.len(), 2);
    let a = &cm.activation_queue[1];
    assert_eq!(a.entity, 11);
    assert_eq!(a.energy_packet.source_entity, 11);
    assert_eq!(a.energy_packet.path, vec![2, 3, 4]);
    assert_eq!(a.energy_packet.energy, 0.25);
    assert_eq!(a.delay.duration_us, 250_000);
    assert_eq!(a.chain_id, 6);
}

#[test]
fn activation_state_limits_uses_and_cooldown() {
    let mut s: MushroomActivationState<f32> = MushroomActivationState::new(0.0);
    assert_eq!(s.remaining_uses(2), 2);
    assert!(s.try_activate(2.0, 2, 100));
    assert_eq!(s.remaining_uses(2), 1);
    assert_eq!(s.remaining_uses(0), 0);
    assert_eq!(s.activations_this_turn, 1);
    assert_eq!(s.last_activation_energy, 2.0);
    assert!(!s.try_activate(1.0, 2, 100));
    s.update_cooldown(50_000);
    assert!(s.cooldown_timer.is_some());
    s.update_cooldown(50_000);
    assert!(s.cooldown_timer.is_none());
    assert!(s.try_activate(1.0, 2, 100));
    s.update_cooldown(200_000);
    assert!(!s.try_activate(1.0, 2, 100));
    s.reset_for_chain_phase(0.0);
    assert!(s.try_activate(1.0, 2, 100));
    let mut states = vec![s, MushroomActivationState::new(3.0)];
    let mut cm: ChainManager<f32, f64> = ChainManager::default();
    cm.start_chain(1, pos(0, 0), 1.0, 0.0);
    reset_mushroom_states(&mut states, &mut cm, 0.0);
    assert!(states.iter().all(|s| s.activations_this_turn == 0 && s.cooldown_timer.is_none()));
    assert!(cm.chains.is_empty() && !cm.chain_started_this_turn);
}

#[test]
fn targets_and_deletion() {
    let mut field = PlayField::new(5, 5);
    field.insert(pos(2, 3), 20);
    field.insert(pos(3, 2), 30);
    let points = connection_patterns::cardinal();
    let targets = connected_targets(&field, pos(2, 2), Some(MushroomDirection::Up), &points);
    assert_eq!(targets, vec![(20, pos(2, 3)), (30, pos(3, 2))]);
    let turned = connected_targets(&field, pos(2, 2), Some(MushroomDirection::Right), &points);
    assert_eq!(turned.len(), 2);
    assert_eq!(turned[0], (30, pos(3, 2)));
    assert_eq!(turned[1], (20, pos(2, 3)));
    assert_eq!(delete_targets(&mut field, &targets), 2);
    assert_eq!(field.get(pos(2, 3)), None);
    assert_eq!(field.get(pos(3, 2)), None);
}

#[test]
fn convertible_tiles_in_a_square() {
    let mut field = PlayField::new(4, 4);
    field.set_tile(pos(1, 1), TileType::Fertile);
    field.set_tile(pos(0, 1), TileType::BlockedRock);
    let all = find_convertible_tiles(pos(0, 0), TileType::Fertile, None, 1, &field);
    assert_eq!(all, vec![pos(1, 0), pos(0, 1)]);
    let only_empty = vec![TileType::Empty];
    let some = find_convertible_tiles(pos(0, 0), TileType::Fertile, Some(&only_empty), 1, &field);
    assert_eq!(some, vec![pos(1, 0)]);
    assert!(find_convertible_tiles(pos(0, 0), TileType::Fertile, None, -1, &field).is_empty());
    assert!(find_convertible_tiles(pos(0, 0), TileType::Fertile, None, 0, &field).is_empty());
}

#[test]
fn converters_convert_up_to_their_count() {
    let mut field = PlayField::new(3, 3);
    let converters = vec![
        ConverterOnField {
            position: pos(1, 1),
            activations_this_turn: 1,
            rule: ConversionRule {
                convert_to: TileType::Fertile,
                convert_count: 2,
                can_convert_from: None,
                search_radius: 1,
            },
        },
        ConverterOnField {
            position: pos(0, 0),
            activations_this_turn: 0,
            rule: ConversionRule {
                convert_to: TileType::BlockedRock,
                convert_count: 5,
                can_convert_from: None,
                search_radius: 1,
            },
        },
    ];
    let done = process_end_of_turn_conversions(&mut field, &converters);
    assert_eq!(done.len(), 2);
    assert_ne!(done[0].0, done[1].0);
    let mut fertile = 0;
    for y in 0..3 {
        for x in 0..3 {
            if field.get_tile(pos(x, y)) == Some(TileType::Fertile) {
                fertile += 1;
                assert!(done.iter().any(|c| c.0 == pos(x, y)));
            }
        }
    }
    assert_eq!(fertile, 2);
    assert_eq!(field.get_tile(pos(1, 1)), Some(TileType::Empty));
}

#[test]
fn planting_clicks() {
    let d = defs();
    let mut gs: GameState<f64> = GameState::new(0.0);
    let here = pos(1, 1);
    let planted = handle_planting_click(here, ClickButton::Primary, MushroomType::Pulse, Some(here), MushroomDirection::Left, &d, &mut gs, 0, 0);
    assert_eq!(planted, ClickOutcome::Spawn { position: here, mushroom_type: MushroomType::Pulse, direction: MushroomDirection::Left });
    // not under the preview
    let other = handle_planting_click(here, ClickButton::Primary, MushroomType::Pulse, Some(pos(0, 0)), MushroomDirection::Up, &d, &mut gs, 0, 0);
    assert_eq!(other, ClickOutcome::Ignored);
    // a type without a definition is locked
    let locked = handle_planting_click(here, ClickButton::Primary, MushroomType::Test, Some(here), MushroomDirection::Up, &d, &mut gs, 0, 0);
    assert_eq!(locked, ClickOutcome::Ignored);
    gs.play_field.set_tile(pos(2, 2), TileType::BlockedWater);
    let blocked = handle_planting_click(pos(2, 2), ClickButton::Primary, MushroomType::Pulse, Some(pos(2, 2)), MushroomDirection::Up, &d, &mut gs, 0, 0);
    assert_eq!(blocked, ClickOutcome::Ignored);
    gs.play_field.insert(here, 9);
    let occupied = handle_planting_click(here, ClickButton::Primary, MushroomType::Pulse, Some(here), MushroomDirection::Up, &d, &mut gs, 0, 0);
    assert_eq!(occupied, ClickOutcome::Ignored);
    let removed = handle_planting_click(here, ClickButton::Secondary, MushroomType::Pulse, None, MushroomDirection::Up, &d, &mut gs, 0, 0);
    assert_eq!(removed, ClickOutcome::Removed(9));
    assert_eq!(gs.play_field.get(here), None);
    let middle = handle_planting_click(here, ClickButton::Middle, MushroomType::Pulse, Some(here), MushroomDirection::Up, &d, &mut gs, 0, 0);
    assert_eq!(middle, ClickOutcome::Ignored);
}

#[test]
fn chain_clicks() {
    let mut gs: GameState<f64> = GameState::new(0.0);
    gs.play_field.insert(pos(1, 1), 5);
    let mut cm: ChainManager<f32, f64> = ChainManager::default();
    assert_eq!(handle_chain_click(pos(0, 0), ClickButton::Primary, &mut cm, &gs, 1.0, 0.0), ClickOutcome::Ignored);
    assert_eq!(handle_chain_click(pos(1, 1), ClickButton::Secondary, &mut cm, &gs, 1.0, 0.0), ClickOutcome::Ignored);
    assert_eq!(handle_chain_click(pos(1, 1), ClickButton::Primary, &mut cm, &gs, 1.0, 0.0), ClickOutcome::ChainStarted(0));
    assert_eq!(handle_chain_click(pos(1, 1), ClickButton::Primary, &mut cm, &gs, 1.0, 0.0), ClickOutcome::ChainRefused);
    assert_eq!(cm.chains[0].starter, 5);
    // the click queued the starter's own activation with full energy and no delay
    assert_eq!(cm.activation_queue.len(), 1);
    let queued = &cm.activation_queue[0];
    assert_eq!(queued.entity, 5);
    assert_eq!(queued.energy_packet.energy, 1.0);
    assert_eq!(queued.energy_packet.source_entity, 5);
    assert!(queued.energy_packet.path.is_empty());
    assert_eq!(queued.chain_id, 0);
    assert_eq!(cm.current_chain, Some(0));
    assert_eq!(cm.next_chain_id, 1);
    assert!(cm.chains[0].active);
    assert!(cm.chains[0].activations.is_empty());
    assert_eq!(cm.chains[0].total_spores, 0.0);
    // a refused click queues nothing more
    assert_eq!(cm.activation_queue.len(), 1);
    let ready = cm.take_ready_activations(0);
    assert_eq!(ready.len(), 1);
}

#[test]
fn activations_are_recorded_in_their_chain() {
    let mut cm: ChainManager<f32, f64> = ChainManager::default();
    cm.start_chain(3, pos(0, 0), 1.0, 0.0);
    let activation = PendingActivation {
        entity: 4,
        energy_packet: EnergyPacket { energy: 0.5, source_entity: 3, path: vec![3] },
        delay: OnceTimer::from_micros(0),
        chain_id: 0,
    };
    assert!(cm.record_activation(&activation, pos(1, 0)));
    let record = &cm.chains[0].activations[0];
    assert_eq!(record.entity, 4);
    assert_eq!(record.position, pos(1, 0));
    assert_eq!(record.energy, 0.5);
    assert_eq!(record.depth, 1);
    assert_eq!(record.parent, Some(3));
    let stray = PendingActivation { chain_id: 9, ..activation };
    assert!(!cm.record_activation(&stray, pos(1, 0)));
    assert_eq!(cm.chains[0].activations.len(), 1);
}

#[test]
fn only_amplifiers_and_converters_pass_energy_on() {
    assert!(!ActivationBehavior::Basic.propagates());
    assert!(ActivationBehavior::Amplifier { boost_percent: 150 }.propagates());
    assert!(ActivationBehavior::Converter { convert_to: TileType::Fertile }.propagates());
    assert!(!ActivationBehavior::Deleter.propagates());
    assert!(ActivationBehavior::Deleter.deletes());
    assert!(!ActivationBehavior::Basic.deletes());
}

#[test]
fn uses_never_exceed_the_limit() {
    let mut s: MushroomActivationState<f32> = MushroomActivationState::new(0.0);
    let mut successes = 0;
    for _ in 0..10 {
        if s.try_activate(1.0, 3, 0) {
            successes += 1;
        }
        s.update_cooldown(1);
        assert!(s.activations_this_turn <= 3);
    }
    assert_eq!(successes, 3);
}

#[test]
fn connection_points_must_name_cells() {
    let points = [offset(1, 0), offset(0, -2)];
    assert!(targets_fit(pos(5, 5), Some(MushroomDirection::Left), &points));
    assert!(!targets_fit(pos(i32::MAX, 5), None, &points));
    assert!(!targets_fit(pos(i32::MAX, 5), Some(MushroomDirection::Down), &[offset(-1, 0)]));
    assert!(targets_fit(pos(i32::MAX, 5), Some(MushroomDirection::Down), &[offset(1, 0)]));
    assert!(!targets_fit(pos(0, 0), Some(MushroomDirection::Right), &[offset(i32::MIN, 0)]));
    assert!(targets_fit(pos(0, 0), Some(MushroomDirection::Up), &[offset(i32::MIN, 0)]));
}

#[test]
fn click_routing_and_spawning() {
    let gs: GameState<f64> = GameState::new(0.0);
    assert_eq!(route_grid_click(pos(1, 1), Some(TurnPhase::Planting), &gs), Some(TurnPhase::Planting));
    assert_eq!(route_grid_click(pos(1, 1), Some(TurnPhase::Chain), &gs), Some(TurnPhase::Chain));
    assert_eq!(route_grid_click(pos(1, 1), Some(TurnPhase::Score), &gs), None);
    assert_eq!(route_grid_click(pos(1, 1), None, &gs), None);
    assert_eq!(route_grid_click(pos(6, 1), Some(TurnPhase::Planting), &gs), None);
    assert_eq!(spawn_direction(Some(MushroomDirection::Down), MushroomDirection::Up), MushroomDirection::Down);
    assert_eq!(spawn_direction(None, MushroomDirection::Left), MushroomDirection::Left);
    assert_eq!(sprite_atlas_index(12), 24);
}

#[test]
fn rotation_keeps_the_distance() {
    for (x, y) in [(2, 1), (0, 2), (-1, -2)] {
        for d in [MushroomDirection::Up, MushroomDirection::Right, MushroomDirection::Down, MushroomDirection::Left] {
            let r = rotate_connection_point(&offset(x, y), &d);
            assert_eq!(r.x * r.x + r.y * r.y, x * x + y * y);
            assert_eq!(r.x.abs().max(r.y.abs()), x.abs().max(y.abs()));
        }
    }
}

#[test]
fn standard_connection_points_reach_two_cells() {
    let d = defs();
    for t in d.all_types() {
        for p in &d.get(t).unwrap().connection_points {
            assert!(p.x.abs() <= 2 && p.y.abs() <= 2);
        }
    }
}

fn definition(behavior: ActivationBehavior, points: Vec<GridOffset>) -> MushroomDefinition {
    MushroomDefinition {
        name: "Test".to_string(),
        description: String::new(),
        base_production: 1,
        cooldown_ms: 0,
        max_uses_per_turn: 1,
        sprite_row: 0,
        activation_behavior: behavior,
        unlock_requirement: UnlockRequirement::Unconditional,
        connection_points: points,
    }
}

fn arriving(entity: u64, chain_id: u32) -> PendingActivation<f32> {
    PendingActivation {
        entity,
        energy_packet: EnergyPacket { energy: 1.0, source_entity: entity, path: vec![] },
        delay: OnceTimer::from_micros(0),
        chain_id,
    }
}

#[test]
fn an_amplifier_activates_once_and_passes_energy_on() {
    let mut field = PlayField::new(5, 5);
    field.insert(pos(2, 2), 1);
    field.insert(pos(2, 3), 2);
    let mut cm: ChainManager<f32, f64> = ChainManager::default();
    cm.start_chain(1, pos(2, 2), 1.0, 0.0);
    let d = definition(ActivationBehavior::Amplifier { boost_percent: 150 }, vec![offset(0, 1), offset(1, 0)]);
    let mut state: MushroomActivationState<f32> = MushroomActivationState::new(0.0);
    let a = arriving(1, 0);
    match activate_mushroom(&a, &mut state, pos(2, 2), Some(MushroomDirection::Up), &d, &mut field, &mut cm) {
        ActivationOutcome::Activated { targets, destroyed, propagates } => {
            assert_eq!(targets, vec![(2, pos(2, 3))]);
            assert_eq!(destroyed, 0);
            assert!(propagates);
        }
        ActivationOutcome::Refused => panic!("the mushroom should activate"),
    }
    assert_eq!(state.activations_this_turn, 1);
    assert_eq!(cm.chains[0].activations.len(), 1);
    assert_eq!(field.get(pos(2, 3)), Some(2));
    // its one use is spent
    assert!(matches!(
        activate_mushroom(&a, &mut state, pos(2, 2), Some(MushroomDirection::Up), &d, &mut field, &mut cm),
        ActivationOutcome::Refused
    ));
    assert_eq!(state.activations_this_turn, 1);
    assert_eq!(cm.chains[0].activations.len(), 1);
}

#[test]
fn a_deleter_destroys_its_targets_and_stops() {
    let mut field = PlayField::new(5, 5);
    field.insert(pos(2, 2), 1);
    field.insert(pos(2, 3), 2);
    field.insert(pos(3, 2), 3);
    let mut cm: ChainManager<f32, f64> = ChainManager::default();
    let d = definition(ActivationBehavior::Deleter, vec![offset(0, 1), offset(1, 0), offset(-1, 0)]);
    let mut state: MushroomActivationState<f32> = MushroomActivationState::new(0.0);
    match activate_mushroom(&arriving(1, 0), &mut state, pos(2, 2), None, &d, &mut field, &mut cm) {
        ActivationOutcome::Activated { targets, destroyed, propagates } => {
            assert_eq!(targets, vec![(2, pos(2, 3)), (3, pos(3, 2))]);
            assert_eq!(destroyed, 2);
            assert!(!propagates);
        }
        ActivationOutcome::Refused => panic!("the mushroom should activate"),
    }
    assert_eq!(field.get(pos(2, 3)), None);
    assert_eq!(field.get(pos(3, 2)), None);
    assert_eq!(field.get(pos(2, 2)), Some(1));
}

#[test]
fn a_basic_mushroom_only_produces_spores() {
    let mut field = PlayField::new(5, 5);
    field.insert(pos(2, 2), 1);
    field.insert(pos(2, 3), 2);
    let mut cm: ChainManager<f32, f64> = ChainManager::default();
    let d = definition(ActivationBehavior::Basic, vec![offset(0, 1)]);
    let mut state: MushroomActivationState<f32> = MushroomActivationState::new(0.0);
    match activate_mushroom(&arriving(1, 0), &mut state, pos(2, 2), None, &d, &mut field, &mut cm) {
        ActivationOutcome::Activated { targets, destroyed, propagates } => {
            assert_eq!(targets, vec![(2, pos(2, 3))]);
            assert_eq!(destroyed, 0);
            assert!(!propagates);
        }
        ActivationOutcome::Refused => panic!("the mushroom should activate"),
    }
    assert_eq!(field.get(pos(2, 3)), Some(2));
}
