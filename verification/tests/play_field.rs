use mushroom_chain::mushrooms::definitions::{initialize_definitions, MushroomDefinitions, MushroomType};
use mushroom_chain::mushrooms::{Mushroom, MushroomDirection};
use mushroom_chain::play_field::field::PlayField;
use mushroom_chain::play_field::field_renderer::{
    create_tile_indices_data, grid_pos_to_texture_index, grid_y_to_texture_y, select_tile_sprite,
    tile_index_value,
};
use mushroom_chain::play_field::mycelium::{
    bresenham_line, build_playfield_connections, find_mycelium_path, ConnectionBuilder,
    PlacedMushroom,
};
use mushroom_chain::play_field::observers::{
    find_entity_at, on_add_grid_position, on_remove_grid_position,
};
use mushroom_chain::play_field::placement_preview::{
    cleanup_preview, is_valid_placement_position, preview_highlights, preview_slot_highlights,
    update_existing_mushroom_connections, update_placement_preview, update_preview_connections,
    HighlightKind, HoveredCell, PreviewAction, PreviewConnections, PreviewState,
};
use mushroom_chain::play_field::position::GridPosition;
use mushroom_chain::play_field::tile_atlas::{TileAtlasConfig, TileSprite};
use mushroom_chain::play_field::tiles::TileType;
use mushroom_chain::game::resources::GameState;

fn pos(x: i32, y: i32) -> GridPosition {
    GridPosition::new(x, y)
}

fn coords(v: &[GridPosition]) -> Vec<(i32, i32)> {
    v.iter().map(|p| (p.x, p.y)).collect()
}

#[test]
fn tile_sprite_indices_follow_the_atlas() {
    assert_eq!(TileSprite::Rock1.index(), 0);
    assert_eq!(TileSprite::Soil1.index(), 3);
    assert_eq!(TileSprite::RichSoil2.index(), 14);
    assert_eq!(TileSprite::BlockerMoss2.index(), 20);
    let config = TileAtlasConfig::default();
    assert_eq!(config.tile_size, 16);
    assert_eq!(config.tiles_per_row, 1);
    assert_eq!(config.total_tiles, 21);
}

#[test]
fn tile_rules() {
    assert_eq!(TileType::default(), TileType::Empty);
    assert_eq!(TileType::Empty.production_multiplier(), 100);
    assert_eq!(TileType::Fertile.production_multiplier(), 125);
    assert_eq!(TileType::BlockedRock.production_multiplier(), 0);
    assert!(TileType::Fertile.allows_mushroom());
    assert!(!TileType::BlockedWater.allows_mushroom());
    assert!(TileType::BlockedMoss.allows_mycelium());
    assert!(!TileType::BlockedRock.allows_mycelium());
    assert_eq!(TileType::Fertile.mycelium_strength_modifier(), 100);
    assert_eq!(TileType::BlockedMoss.mycelium_strength_modifier(), 0);
}

#[test]
fn adjacent_positions() {
    let p = pos(3, 5);
    assert_eq!(
        coords(&p.adjacent()),
        vec![(2, 5), (4, 5), (3, 4), (3, 6), (2, 4), (4, 4), (4, 6), (2, 6)]
    );
    assert_eq!(coords(&p.adjacent_cardinal()), vec![(2, 5), (4, 5), (3, 4), (3, 6)]);
    assert_eq!(coords(&p.adjacent_diagonal()), vec![(2, 4), (4, 4), (4, 6), (2, 6)]);
}

#[test]
fn index_reads_back_what_was_written() {
    let mut field = PlayField::new(4, 3);
    assert_eq!(field.get(pos(1, 1)), None);
    assert_eq!(field.insert(pos(1, 1), 42), None);
    assert_eq!(field.get(pos(1, 1)), Some(42));
    assert_eq!(field.get(pos(1, 2)), None);
    assert_eq!(field.insert(pos(1, 1), 7), Some(42));
    assert_eq!(field.get(pos(1, 1)), Some(7));
    assert_eq!(field.remove(pos(1, 1)), Some(7));
    assert_eq!(field.get(pos(1, 1)), None);
    assert_eq!(field.remove(pos(1, 1)), None);
}

#[test]
fn tiles_read_back_what_was_written() {
    let mut field = PlayField::new(4, 3);
    assert!(field.contains(pos(3, 2)));
    assert!(!field.contains(pos(4, 0)));
    assert!(!field.contains(pos(-1, 0)));
    assert_eq!(field.get_tile(pos(2, 1)), Some(TileType::Empty));
    field.set_tile(pos(2, 1), TileType::Fertile);
    assert_eq!(field.get_tile(pos(2, 1)), Some(TileType::Fertile));
    assert_eq!(field.get_tile(pos(1, 2)), Some(TileType::Empty));
    field.set_tile(pos(9, 9), TileType::BlockedRock);
    assert_eq!(field.get_tile(pos(9, 9)), None);
}

#[test]
fn level_tiles_replace_the_old_ones_and_later_entries_win() {
    let mut field = PlayField::new(3, 3);
    field.set_tile(pos(0, 0), TileType::BlockedWater);
    field.set_tiles_from_level(&[
        (pos(1, 1), TileType::BlockedRock),
        (pos(1, 1), TileType::Fertile),
        (pos(5, 5), TileType::BlockedMoss),
    ]);
    assert_eq!(field.get_tile(pos(0, 0)), Some(TileType::Empty));
    assert_eq!(field.get_tile(pos(1, 1)), Some(TileType::Fertile));
}

#[test]
fn resize_keeps_the_overlapping_tiles() {
    let mut field = PlayField::new(3, 2);
    field.set_tile(pos(2, 1), TileType::BlockedRock);
    field.set_tile(pos(0, 0), TileType::Fertile);
    field.insert(pos(2, 1), 9);
    field.resize(5, 4);
    assert_eq!(field.width, 5);
    assert_eq!(field.height, 4);
    assert_eq!(field.get_tile(pos(2, 1)), Some(TileType::BlockedRock));
    assert_eq!(field.get_tile(pos(0, 0)), Some(TileType::Fertile));
    assert_eq!(field.get_tile(pos(4, 3)), Some(TileType::Empty));
    assert_eq!(field.get(pos(2, 1)), Some(9));
    field.resize(2, 2);
    assert_eq!(field.get_tile(pos(0, 0)), Some(TileType::Fertile));
    assert_eq!(field.get_tile(pos(2, 1)), None);
}

#[test]
fn connections_are_added_and_cleared() {
    let mut field = PlayField::new(4, 4);
    field.add_connection(pos(0, 0), pos(1, 1), 1, 2, 100, vec![pos(0, 0), pos(1, 1)]);
    let all = field.get_all_connections();
    assert_eq!(all.len(), 1);
    assert_eq!(all[0].to_entity, 2);
    assert!(!all[0].active);
    field.clear_connections();
    assert!(field.get_all_connections().is_empty());
}

#[test]
fn a_line_has_one_cell_per_step_of_its_longer_side() {
    for (from, to) in [((0, 0), (5, 2)), ((1, 1), (1, -3)), ((-2, 4), (3, -1)), ((0, 0), (-2, -7)), ((3, 3), (3, 3))] {
        let line = bresenham_line(pos(from.0, from.1), pos(to.0, to.1));
        let dx = (to.0 - from.0).abs();
        let dy = (to.1 - from.1).abs();
        assert_eq!(line.len() as i32, dx.max(dy) + 1);
    }
}

#[test]
fn bresenham_lines() {
    assert_eq!(coords(&bresenham_line(pos(0, 0), pos(3, 1))), vec![(0, 0), (1, 0), (2, 1), (3, 1)]);
    assert_eq!(coords(&bresenham_line(pos(2, 2), pos(2, 2))), vec![(2, 2)]);
    assert_eq!(coords(&bresenham_line(pos(0, 0), pos(0, -2))), vec![(0, 0), (0, -1), (0, -2)]);
    assert_eq!(coords(&bresenham_line(pos(0, 0), pos(-2, -2))), vec![(0, 0), (-1, -1), (-2, -2)]);
    assert_eq!(coords(&bresenham_line(pos(0, 0), pos(1, 2))), vec![(0, 0), (0, 1), (1, 2)]);
}

#[test]
fn every_line_runs_between_its_ends_by_neighbour_steps() {
    for (a, b) in [((0, 0), (5, 2)), ((3, -1), (-4, 6)), ((7, 7), (7, 0)), ((-2, 3), (9, 3))] {
        let line = bresenham_line(pos(a.0, a.1), pos(b.0, b.1));
        assert_eq!((line[0].x, line[0].y), a);
        let last = line[line.len() - 1];
        assert_eq!((last.x, last.y), b);
        for w in line.windows(2) {
            let (dx, dy) = (w[1].x - w[0].x, w[1].y - w[0].y);
            assert!(dx.abs() <= 1 && dy.abs() <= 1 && (dx, dy) != (0, 0));
        }
    }
}

#[test]
fn mycelium_path_needs_passable_tiles() {
    let mut field = PlayField::new(5, 5);
    let found = find_mycelium_path(pos(0, 0), pos(2, 0), &field).unwrap();
    assert_eq!(coords(&found.0), vec![(0, 0), (1, 0), (2, 0)]);
    assert_eq!(found.1, 100);
    field.set_tile(pos(1, 0), TileType::BlockedRock);
    assert!(find_mycelium_path(pos(0, 0), pos(2, 0), &field).is_none());
    field.set_tile(pos(1, 0), TileType::BlockedMoss);
    assert!(find_mycelium_path(pos(0, 0), pos(2, 0), &field).is_none());
    field.set_tile(pos(1, 0), TileType::Fertile);
    assert_eq!(find_mycelium_path(pos(0, 0), pos(2, 0), &field).unwrap().1, 100);
    let off_field = find_mycelium_path(pos(4, 4), pos(6, 4), &field).unwrap();
    assert_eq!(coords(&off_field.0), vec![(4, 4), (5, 4), (6, 4)]);
}

fn placed(entity: u64, x: i32, y: i32, t: MushroomType, d: Option<MushroomDirection>) -> PlacedMushroom {
    PlacedMushroom { entity, position: pos(x, y), mushroom: Mushroom(t), direction: d }
}

#[test]
fn connections_follow_connection_points_and_facing() {
    let mut defs = MushroomDefinitions::default();
    initialize_definitions(&mut defs);
    let mut field = PlayField::new(6, 6);
    // A pulse facing up connects to the cell above it (y + 1)
    field.insert(pos(2, 2), 1);
    field.insert(pos(2, 3), 2);
    let list = vec![
        placed(1, 2, 2, MushroomType::Pulse, Some(MushroomDirection::Up)),
        placed(2, 2, 3, MushroomType::Basic, Some(MushroomDirection::Up)),
    ];
    build_playfield_connections(&mut field, &list, &defs);
    let cs = field.get_all_connections();
    assert_eq!(cs.len(), 1);
    assert_eq!((cs[0].from_entity, cs[0].to_entity), (1, 2));
    assert_eq!(coords(&cs[0].path), vec![(2, 2), (2, 3)]);
    assert_eq!(cs[0].strength_percent, 100);

    // Turned right, the pulse points at (3, 2), where nothing stands
    let turned = vec![
        placed(1, 2, 2, MushroomType::Pulse, Some(MushroomDirection::Right)),
        placed(2, 2, 3, MushroomType::Basic, None),
    ];
    build_playfield_connections(&mut field, &turned, &defs);
    assert!(field.get_all_connections().is_empty());

    // An entity that is not a listed mushroom is not connected to
    let only_source = vec![placed(1, 2, 2, MushroomType::Pulse, None)];
    build_playfield_connections(&mut field, &only_source, &defs);
    assert!(field.get_all_connections().is_empty());

    // Blocked ground stops the mycelium
    field.set_tile(pos(2, 3), TileType::BlockedWater);
    build_playfield_connections(&mut field, &list, &defs);
    assert!(field.get_all_connections().is_empty());
}

#[test]
fn connection_rebuild_decision() {
    let mut builder = ConnectionBuilder::default();
    assert!(!builder.needs_rebuild(false, false, false));
    assert!(builder.needs_rebuild(false, true, false));
    builder.dirty = true;
    assert!(builder.needs_rebuild(false, false, false));
}

#[test]
fn texture_coordinates_flip_rows() {
    assert_eq!(grid_y_to_texture_y(0, 4), 3);
    assert_eq!(grid_y_to_texture_y(3, 4), 0);
    assert_eq!(grid_pos_to_texture_index(0, 0, 2, 2), 8);
    assert_eq!(grid_pos_to_texture_index(1, 1, 2, 2), 4);
}

#[test]
fn tile_sprites_vary_with_position() {
    assert_eq!(select_tile_sprite(TileType::Empty, pos(0, 0)), TileSprite::Soil1);
    assert_eq!(select_tile_sprite(TileType::Empty, pos(1, 0)), TileSprite::Soil3);
    assert_eq!(select_tile_sprite(TileType::Empty, pos(0, 1)), TileSprite::Soil3);
    assert_eq!(select_tile_sprite(TileType::Empty, pos(2, 0)), TileSprite::Soil2);
    assert_eq!(select_tile_sprite(TileType::Fertile, pos(1, 0)), TileSprite::RichSoil2);
    assert_eq!(select_tile_sprite(TileType::BlockedRock, pos(1, 1)), TileSprite::BlockerRock1);
    assert_eq!(select_tile_sprite(TileType::BlockedWater, pos(0, 1)), TileSprite::BlockerWater2);
    assert_eq!(select_tile_sprite(TileType::BlockedMoss, pos(2, 2)), TileSprite::BlockerMoss1);
    // Rust's remainder keeps the sign: -11 % 3 == -2
    assert_eq!(select_tile_sprite(TileType::Empty, pos(-1, 0)), TileSprite::Soil3);
    assert_eq!(select_tile_sprite(TileType::Fertile, pos(-1, 0)), TileSprite::RichSoil2);
}

#[test]
fn tile_index_values_scale_to_a_byte() {
    for i in 0..21u32 {
        let float_value = ((i as f32 / 21.0) * 255.0) as u8;
        assert_eq!(tile_index_value(i), float_value);
    }
    assert_eq!(tile_index_value(7), 85);
    assert_eq!(tile_index_value(20), 242);
}

#[test]
fn tile_indices_texture() {
    let mut field = PlayField::new(2, 2);
    field.set_tile(pos(1, 0), TileType::BlockedRock);
    let data = create_tile_indices_data(&field);
    assert_eq!(data.len(), 16);
    // cell (1, 0) is in the top row of the grid, the last row of the texture
    let i = grid_pos_to_texture_index(1, 0, 2, 2);
    let sprite = select_tile_sprite(TileType::BlockedRock, pos(1, 0));
    assert_eq!(data[i], tile_index_value(sprite.index()));
    assert_eq!(&data[i + 1..i + 4], &[0, 0, 255]);
    let j = grid_pos_to_texture_index(0, 1, 2, 2);
    assert_eq!(data[j], tile_index_value(TileSprite::Soil3.index()));
}

#[test]
fn placement_needs_a_free_cell_that_allows_mushrooms() {
    let mut field = PlayField::new(3, 3);
    assert!(is_valid_placement_position(&pos(1, 1), &field));
    assert!(!is_valid_placement_position(&pos(3, 1), &field));
    field.insert(pos(1, 1), 5);
    assert!(!is_valid_placement_position(&pos(1, 1), &field));
    field.set_tile(pos(0, 0), TileType::BlockedMoss);
    assert!(!is_valid_placement_position(&pos(0, 0), &field));
    field.set_tile(pos(0, 0), TileType::Fertile);
    assert!(is_valid_placement_position(&pos(0, 0), &field));
}

#[test]
fn preview_follows_the_cursor() {
    let field = PlayField::new(3, 3);
    assert_eq!(update_placement_preview(Some(pos(1, 1)), false, true, &field), PreviewAction::Spawn(pos(1, 1)));
    assert_eq!(update_placement_preview(Some(pos(1, 1)), true, true, &field), PreviewAction::Move(pos(1, 1)));
    assert_eq!(update_placement_preview(Some(pos(1, 1)), false, false, &field), PreviewAction::Nothing);
    assert_eq!(update_placement_preview(Some(pos(7, 1)), true, true, &field), PreviewAction::Hide);
    assert_eq!(update_placement_preview(None, true, true, &field), PreviewAction::Hide);
    assert_eq!(update_placement_preview(None, false, true, &field), PreviewAction::Nothing);
}

#[test]
fn hover_and_rotation() {
    let mut hovered = HoveredCell { position: None };
    let change = hovered.hover_over(pos(1, 2)).unwrap();
    assert_eq!(change.old_position, None);
    assert_eq!(change.new_position, Some(pos(1, 2)));
    assert!(hovered.hover_over(pos(1, 2)).is_none());
    let out = hovered.hover_out();
    assert_eq!(out.old_position, Some(pos(1, 2)));
    assert_eq!(hovered.position, None);

    let mut state = PreviewState::default();
    assert!(!state.handle_preview_rotation(true, true));
    state.preview_entity = Some(3);
    assert!(state.handle_preview_rotation(true, true));
    assert_eq!(state.direction, MushroomDirection::Right);
    assert!(!state.handle_preview_rotation(false, true));
    assert!(!state.handle_preview_rotation(true, false));
    assert_eq!(state.direction, MushroomDirection::Right);
}

#[test]
fn preview_connections_and_highlights() {
    let mut defs = MushroomDefinitions::default();
    initialize_definitions(&mut defs);
    let mut field = PlayField::new(5, 5);
    // Cardinal connections from (2, 2): (2, 3), (3, 2), (2, 1), (1, 2)
    field.insert(pos(3, 2), 8);
    field.set_tile(pos(2, 1), TileType::BlockedRock);
    let mut preview = PreviewConnections::default();
    update_preview_connections(
        &mut preview,
        Some(pos(2, 2)),
        MushroomDirection::Up,
        MushroomType::FourwayAmplifier,
        &defs,
        &field,
    );
    assert_eq!(preview.preview_position, Some(pos(2, 2)));
    assert_eq!(coords(&preview.connected_positions), vec![(3, 2)]);
    assert_eq!(coords(&preview.empty_connection_points), vec![(2, 3), (1, 2)]);

    let all = preview_highlights(&preview);
    assert_eq!(all.len(), 4);
    assert_eq!(all[0], (pos(2, 2), HighlightKind::PreviewPosition));
    assert_eq!(all[1], (pos(3, 2), HighlightKind::Connected));
    assert_eq!(all[3].1, HighlightKind::EmptyPoint);
    assert_eq!(HighlightKind::ExistingTarget.marker(), -4);

    // Over an occupied cell there is no preview
    update_preview_connections(
        &mut preview,
        Some(pos(3, 2)),
        MushroomDirection::Up,
        MushroomType::FourwayAmplifier,
        &defs,
        &field,
    );
    assert_eq!(preview.preview_position, None);
    assert!(preview.connected_positions.is_empty());
}

#[test]
fn existing_mushrooms_show_open_targets() {
    let mut defs = MushroomDefinitions::default();
    initialize_definitions(&mut defs);
    let mut field = PlayField::new(5, 5);
    field.insert(pos(2, 2), 1);
    let list = vec![placed(1, 2, 2, MushroomType::Pulse, Some(MushroomDirection::Down))];
    let mut preview = PreviewConnections::default();
    update_existing_mushroom_connections(&mut preview, &list, &defs, &field);
    assert_eq!(coords(&preview.existing_connection_targets), vec![(2, 1)]);
}

#[test]
fn preview_slots_are_limited() {
    let mut preview = PreviewConnections::default();
    preview.preview_position = Some(pos(0, 0));
    for i in 0..7 {
        preview.connected_positions.push(pos(i, 1));
        preview.empty_connection_points.push(pos(i, 2));
        preview.existing_connection_targets.push(pos(i, 3));
    }
    let slots = preview_slot_highlights(&preview);
    assert_eq!(slots.len(), 12);
    assert_eq!(slots[0].1, HighlightKind::PreviewPosition);
    assert_eq!(slots[5], (pos(4, 1), HighlightKind::Connected));
    assert_eq!(slots[6], (pos(0, 2), HighlightKind::EmptyPoint));
    assert_eq!(slots[10], (pos(0, 3), HighlightKind::ExistingTarget));
    assert_eq!(preview_highlights(&preview).len(), 22);

    let mut state = PreviewState { direction: MushroomDirection::Left, preview_entity: Some(4) };
    let mut hovered = HoveredCell { position: Some(pos(1, 1)) };
    assert_eq!(cleanup_preview(&mut state, &mut preview, &mut hovered), Some(4));
    assert_eq!(state.direction, MushroomDirection::Up);
    assert!(preview_highlights(&preview).is_empty());
    assert_eq!(hovered.position, None);
}

#[test]
fn grid_positions_enter_and_leave_the_index() {
    let mut field = PlayField::new(3, 3);
    assert!(on_add_grid_position(&mut field, 4, pos(1, 1)));
    assert!(!on_add_grid_position(&mut field, 5, pos(3, 3)));
    assert_eq!(field.get(pos(3, 3)), None);
    // another entity's slot is kept
    assert!(!on_remove_grid_position(&mut field, 9, pos(1, 1)));
    assert_eq!(field.get(pos(1, 1)), Some(4));
    assert!(on_remove_grid_position(&mut field, 4, pos(1, 1)));
    assert_eq!(field.get(pos(1, 1)), None);
    assert!(!on_remove_grid_position(&mut field, 4, pos(1, 1)));
    let mut state: GameState<f64> = GameState::new(0.0);
    state.play_field.insert(pos(2, 2), 11);
    assert_eq!(find_entity_at(pos(2, 2), &state), Some(11));
    assert_eq!(find_entity_at(pos(0, 0), &state), None);
}

#[test]
fn tile_rules_agree() {
    for t in [TileType::Empty, TileType::Fertile, TileType::BlockedRock, TileType::BlockedWater, TileType::BlockedMoss] {
        assert_eq!(t.allows_mushroom(), t.production_multiplier() > 0);
        assert_eq!(t.allows_mushroom(), t.mycelium_strength_modifier() > 0);
        assert!(!t.allows_mushroom() || t.allows_mycelium());
        assert!(t.production_multiplier() >= t.mycelium_strength_modifier());
    }
}

#[test]
fn sprites_have_distinct_indices_and_match_their_tiles() {
    let all = [
        TileSprite::Rock1, TileSprite::Rock2, TileSprite::Rock3, TileSprite::Soil1,
        TileSprite::Soil2, TileSprite::Soil3, TileSprite::Border1, TileSprite::Border2,
        TileSprite::Border3, TileSprite::OutsideCorner1, TileSprite::OutsideCorner2,
        TileSprite::InsideCorner1, TileSprite::InsideCorner2, TileSprite::RichSoil1,
        TileSprite::RichSoil2, TileSprite::BlockerWater1, TileSprite::BlockerWater2,
        TileSprite::BlockerRock1, TileSprite::BlockerRock2, TileSprite::BlockerMoss1,
        TileSprite::BlockerMoss2,
    ];
    let mut seen: Vec<u32> = all.iter().map(|s| s.index()).collect();
    seen.sort();
    seen.dedup();
    assert_eq!(seen.len(), 21);
    assert!(seen.iter().all(|i| *i < 21));
    for x in -3..4 {
        for y in -3..4 {
            let i = select_tile_sprite(TileType::Empty, pos(x, y)).index();
            assert!((3..=5).contains(&i));
            let i = select_tile_sprite(TileType::Fertile, pos(x, y)).index();
            assert!((13..=14).contains(&i));
            let i = select_tile_sprite(TileType::BlockedMoss, pos(x, y)).index();
            assert!((19..=20).contains(&i));
        }
    }
}

#[test]
fn rebuilding_connections_gives_the_same_ones() {
    let mut defs = MushroomDefinitions::default();
    initialize_definitions(&mut defs);
    let mut field = PlayField::new(6, 6);
    field.insert(pos(1, 1), 1);
    field.insert(pos(2, 2), 2);
    field.insert(pos(1, 2), 3);
    let list = vec![
        placed(1, 1, 1, MushroomType::Surround, None),
        placed(2, 2, 2, MushroomType::Basic, None),
        placed(3, 1, 2, MushroomType::Pulse, Some(MushroomDirection::Down)),
    ];
    build_playfield_connections(&mut field, &list, &defs);
    let first: Vec<(u64, u64, Vec<(i32, i32)>)> = field
        .get_all_connections()
        .iter()
        .map(|c| (c.from_entity, c.to_entity, coords(&c.path)))
        .collect();
    build_playfield_connections(&mut field, &list, &defs);
    let second: Vec<(u64, u64, Vec<(i32, i32)>)> = field
        .get_all_connections()
        .iter()
        .map(|c| (c.from_entity, c.to_entity, coords(&c.path)))
        .collect();
    assert_eq!(first, second);
    assert_eq!(first.iter().map(|c| (c.0, c.1)).collect::<Vec<_>>(), vec![(1, 3), (1, 2), (3, 1)]);
}
