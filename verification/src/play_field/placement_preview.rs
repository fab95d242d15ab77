//! Placement preview: where a mushroom may be placed, which cells it would connect
//! to, and the cells the ground shader highlights while the player plants.

use vstd::prelude::*;

use crate::mushrooms::definitions::{short_reach, GridOffset, MushroomDefinitions, MushroomType};
use crate::mushrooms::{
    connection_target_position, facing_target, spec_rotate_clockwise, within_reach_limits,
    MushroomDirection,
};
use crate::play_field::field::PlayField;
use crate::play_field::mycelium::PlacedMushroom;
use crate::play_field::position::GridPosition;
use crate::play_field::tiles::spec_allows_mushroom;

verus! {

/// Resource tracking the currently hovered grid cell
#[derive(Debug)]
pub struct HoveredCell {
    pub position: Option<GridPosition>,
}

/// Event fired when the hovered cell changes
#[derive(Debug, Clone, Copy, PartialEq, Eq, Structural)]
pub struct CellHoverChanged {
    pub old_position: Option<GridPosition>,
    pub new_position: Option<GridPosition>,
}

impl HoveredCell {
    /// The cursor left a grid cell: nothing is hovered any more
    pub fn hover_out(&mut self) -> (r: CellHoverChanged)
        ensures
            r == (CellHoverChanged { old_position: old(self).position, new_position: None }),
            final(self).position is None,
    {
        let old_position = self.position;
        self.position = None;
        CellHoverChanged { old_position, new_position: None }
    }

    /// The cursor entered the cell at `position`; reports a change only if another
    /// cell (or none) was hovered before
    pub fn hover_over(&mut self, position: GridPosition) -> (r: Option<CellHoverChanged>)
        ensures
            final(self).position == Some(position),
            r == if old(self).position == Some(position) {
                None
            } else {
                Some(
                    CellHoverChanged {
                        old_position: old(self).position,
                        new_position: Some(position),
                    },
                )
            },
    {
        if self.position != Some(position) {
            let old_position = self.position;
            self.position = Some(position);
            Some(CellHoverChanged { old_position, new_position: Some(position) })
        } else {
            None
        }
    }
}

/// State of the placement preview
#[derive(Debug)]
pub struct PreviewState {
    /// Current direction of the preview
    pub direction: MushroomDirection,
    /// Entity of the preview mushroom
    pub preview_entity: Option<u64>,
}

impl Default for PreviewState {
    fn default() -> (r: Self)
        ensures
            r.direction == MushroomDirection::Up,
            r.preview_entity is None,
    {
        PreviewState { direction: MushroomDirection::Up, preview_entity: None }
    }
}

impl PreviewState {
    /// Handle rotation input for the preview: the key turns the preview a quarter
    /// clockwise, but only while a cell is hovered and a preview is shown. Returns
    /// whether it turned
    pub fn handle_preview_rotation(&mut self, hovering: bool, rotate_pressed: bool) -> (r: bool)
        ensures
            r == (hovering && old(self).preview_entity is Some && rotate_pressed),
            final(self).direction == if r {
                spec_rotate_clockwise(old(self).direction)
            } else {
                old(self).direction
            },
            final(self).preview_entity == old(self).preview_entity,
    {
        if !hovering || self.preview_entity.is_none() {
            return false;
        }
        if rotate_pressed {
            self.direction = self.direction.rotate_clockwise();
            return true;
        }
        false
    }
}

/// Whether a mushroom may be placed at `p`: on the field, on a free cell, on a tile
/// that allows mushrooms.
pub open spec fn spec_valid_placement(field: PlayField, p: GridPosition) -> bool {
    &&& field.spec_contains(p)
    &&& field.spec_get(p) is None
    &&& spec_allows_mushroom(field.tile_at(p))
}

/// Check if a position is valid for mushroom placement
pub fn is_valid_placement_position(position: &GridPosition, play_field: &PlayField) -> (r: bool)
    requires
        play_field.wf(),
    ensures
        r == spec_valid_placement(*play_field, *position),
{
    // Check bounds
    if !play_field.contains(*position) {
        return false;
    }
    // Check if already occupied
    if play_field.get(*position).is_some() {
        return false;
    }
    // Check tile type
    if let Some(tile_type) = play_field.get_tile(*position) {
        return tile_type.allows_mushroom();
    }
    true
}

/// What to do with the preview mushroom when the hovered cell changes.
#[derive(Debug, Clone, Copy, PartialEq, Eq, Structural)]
pub enum PreviewAction {
    /// Leave things as they are
    Nothing,
    /// Despawn the preview
    Hide,
    /// Move the preview to this cell
    Move(GridPosition),
    /// Spawn a preview in this cell
    Spawn(GridPosition),
}

/// Update the placement preview when the hovered cell changes to `new_position`: no
/// preview off a valid cell; an existing preview follows the cursor; a new one is
/// spawned if the selected type has a definition
pub fn update_placement_preview(
    new_position: Option<GridPosition>,
    has_preview: bool,
    has_definition: bool,
    play_field: &PlayField,
) -> (r: PreviewAction)
    requires
        play_field.wf(),
    ensures
        r == match new_position {
            Some(p) => if !spec_valid_placement(*play_field, p) {
                if has_preview {
                    PreviewAction::Hide
                } else {
                    PreviewAction::Nothing
                }
            } else if has_preview {
                PreviewAction::Move(p)
            } else if has_definition {
                PreviewAction::Spawn(p)
            } else {
                PreviewAction::Nothing
            },
            None => if has_preview {
                PreviewAction::Hide
            } else {
                PreviewAction::Nothing
            },
        },
{
    match new_position {
        Some(position) => {
            // Check if position is valid for placement
            if !is_valid_placement_position(&position, play_field) {
                // Hide preview if position is invalid
                if has_preview {
                    return PreviewAction::Hide;
                }
                return PreviewAction::Nothing;
            }
            // Update existing preview or create new one
            if has_preview {
                PreviewAction::Move(position)
            } else if has_definition {
                PreviewAction::Spawn(position)
            } else {
                PreviewAction::Nothing
            }
        },
        // Remove preview when not hovering
        None => if has_preview {
            PreviewAction::Hide
        } else {
            PreviewAction::Nothing
        },
    }
}

/// Resource storing which tiles should be highlighted for connection preview
#[derive(Debug)]
pub struct PreviewConnections {
    /// Grid positions that would be connected (green highlight)
    pub connected_positions: Vec<GridPosition>,
    /// Grid positions where connections would be attempted but no mushroom exists (red highlight)
    pub empty_connection_points: Vec<GridPosition>,
    /// Grid positions where existing mushrooms can connect to (blue outline)
    pub existing_connection_targets: Vec<GridPosition>,
    /// The preview mushroom's position
    pub preview_position: Option<GridPosition>,
}

impl Default for PreviewConnections {
    fn default() -> (r: Self)
        ensures
            r.connected_positions@.len() == 0,
            r.empty_connection_points@.len() == 0,
            r.existing_connection_targets@.len() == 0,
            r.preview_position is None,
    {
        PreviewConnections {
            connected_positions: Vec::new(),
            empty_connection_points: Vec::new(),
            existing_connection_targets: Vec::new(),
            preview_position: None,
        }
    }
}

/// Whether a connection target is worth highlighting: on the field, on a tile that
/// allows mushrooms.
pub open spec fn highlightable(field: PlayField, t: GridPosition) -> bool {
    field.spec_contains(t) && spec_allows_mushroom(field.tile_at(t))
}

/// The cells the connection points `points` of a mushroom at `pos` facing `d` would
/// connect to (a mushroom stands there) and the cells where they find no mushroom,
/// in the order of the points; cells off the field or on blocked tiles are left out.
pub open spec fn spec_preview_targets(
    field: PlayField,
    pos: GridPosition,
    d: MushroomDirection,
    points: Seq<GridOffset>,
) -> (Seq<GridPosition>, Seq<GridPosition>)
    decreases points.len(),
{
    if points.len() == 0 {
        (Seq::empty(), Seq::empty())
    } else {
        let (c, e) = spec_preview_targets(field, pos, d, points.drop_last());
        let t = facing_target(pos, Some(d), points.last());
        if !highlightable(field, t) {
            (c, e)
        } else if field.spec_get(t) is Some {
            (c.push(t), e)
        } else {
            (c, e.push(t))
        }
    }
}

/// Fields small enough that every cell's connection points name cells.
pub open spec fn preview_fits(field: PlayField) -> bool {
    field.width <= i32::MAX - 2 && field.height <= i32::MAX - 2
}

/// Calculate which tiles would be connected by placing the selected mushroom at the
/// hovered cell with the preview's direction
pub fn update_preview_connections(
    preview_connections: &mut PreviewConnections,
    hovered: Option<GridPosition>,
    direction: MushroomDirection,
    selected_type: MushroomType,
    definitions: &MushroomDefinitions,
    play_field: &PlayField,
)
    requires
        play_field.wf(),
        preview_fits(*play_field),
    ensures
        final(preview_connections).existing_connection_targets == old(preview_connections).existing_connection_targets,
        final(preview_connections).preview_position == match hovered {
            Some(p) => if spec_valid_placement(*play_field, p) {
                Some(p)
            } else {
                None
            },
            None => None,
        },
        ({
            let (c, e) = match hovered {
                Some(p) => if spec_valid_placement(*play_field, p) {
                    match definitions.spec_get(selected_type) {
                        Some(def) => spec_preview_targets(
                            *play_field,
                            p,
                            direction,
                            def.connection_points,
                        ),
                        None => (Seq::empty(), Seq::empty()),
                    }
                } else {
                    (Seq::empty(), Seq::empty())
                },
                None => (Seq::empty(), Seq::empty()),
            };
            &&& final(preview_connections).connected_positions@ == c
            &&& final(preview_connections).empty_connection_points@ == e
        }),
{
    // Clear previous connections (but keep existing mushroom connections)
    preview_connections.connected_positions.clear();
    preview_connections.empty_connection_points.clear();
    preview_connections.preview_position = None;

    // Only calculate if we have a valid hover position
    let position = match hovered {
        Some(p) => p,
        None => {
            return ;
        },
    };
    // Check if position is valid
    if !is_valid_placement_position(&position, play_field) {
        return ;
    }
    preview_connections.preview_position = Some(position);

    // Get mushroom definition
    let definition = match definitions.get(selected_type) {
        Some(d) => d,
        None => {
            return ;
        },
    };
    let points = &definition.connection_points;
    let mut k: usize = 0;
    while k < points.len()
        invariant
            0 <= k <= points@.len(),
            short_reach(points@),
            play_field.wf(),
            within_reach_limits(position),
            preview_connections.preview_position == Some(position),
            preview_connections.existing_connection_targets == old(preview_connections).existing_connection_targets,
            ({
                let (c, e) = spec_preview_targets(
                    *play_field,
                    position,
                    direction,
                    points@.take(k as int),
                );
                &&& preview_connections.connected_positions@ == c
                &&& preview_connections.empty_connection_points@ == e
            }),
        decreases points.len() - k,
    {
        let connection_point = points[k];
        proof {
            assert(points@.take(k + 1).drop_last() =~= points@.take(k as int));
            assert(points@.take(k + 1).last() == connection_point);
            assert(-2 <= points@[k as int].x <= 2 && -2 <= points@[k as int].y <= 2);
        }
        // Rotate connection point based on preview rotation
        let target_pos = connection_target_position(position, Some(direction), &connection_point);
        k = k + 1;
        // Check if target position is within bounds
        if !play_field.contains(target_pos) {
            continue;
        }
        // Check if target tile allows mushroom placement (for visual feedback)
        let target_allows_mushroom = match play_field.get_tile(target_pos) {
            Some(tile) => tile.allows_mushroom(),
            None => false,
        };
        if !target_allows_mushroom {
            continue;  // Don't highlight blocked tiles

        }
        // Check if there's a mushroom at the target position
        if play_field.get(target_pos).is_some() {
            // Will connect (green highlight)
            preview_connections.connected_positions.push(target_pos);
        } else {
            // Connection point but no mushroom (red highlight)
            preview_connections.empty_connection_points.push(target_pos);
        }
    }
    proof {
        assert(points@.take(points@.len() as int) =~= points@);
    }
}

/// The empty cells, on the field and on tiles that allow mushrooms, that the
/// connection points `points` of a placed mushroom `m` point at, in order.
pub open spec fn spec_open_targets(
    field: PlayField,
    m: PlacedMushroom,
    points: Seq<GridOffset>,
) -> Seq<GridPosition>
    decreases points.len(),
{
    if points.len() == 0 {
        Seq::empty()
    } else {
        let before = spec_open_targets(field, m, points.drop_last());
        let t = facing_target(m.position, m.direction, points.last());
        if highlightable(field, t) && field.spec_get(t) is None {
            before.push(t)
        } else {
            before
        }
    }
}

/// The open targets of the first `n` mushrooms, mushroom by mushroom.
pub open spec fn spec_existing_targets(
    field: PlayField,
    ms: Seq<PlacedMushroom>,
    defs: MushroomDefinitions,
    n: int,
) -> Seq<GridPosition>
    decreases n,
{
    if n <= 0 {
        Seq::empty()
    } else {
        spec_existing_targets(field, ms, defs, n - 1) + match defs.spec_get(ms[n - 1].mushroom.0) {
            Some(d) => spec_open_targets(field, ms[n - 1], d.connection_points),
            None => Seq::empty(),
        }
    }
}

/// Show connection targets for all existing mushrooms during placement: the empty
/// cells where a new mushroom would be reached by one already placed
pub fn update_existing_mushroom_connections(
    preview_connections: &mut PreviewConnections,
    all_mushrooms: &[PlacedMushroom],
    definitions: &MushroomDefinitions,
    play_field: &PlayField,
)
    requires
        play_field.wf(),
        forall|i: int|
            0 <= i < all_mushrooms@.len() ==> within_reach_limits(
                #[trigger] all_mushrooms@[i].position,
            ),
    ensures
        final(preview_connections).existing_connection_targets@ == spec_existing_targets(
            *play_field,
            all_mushrooms@,
            *definitions,
            all_mushrooms@.len() as int,
        ),
        final(preview_connections).connected_positions == old(preview_connections).connected_positions,
        final(preview_connections).empty_connection_points == old(preview_connections).empty_connection_points,
        final(preview_connections).preview_position == old(preview_connections).preview_position,
{
    // Clear existing connection targets
    preview_connections.existing_connection_targets.clear();
    let mut i: usize = 0;
    while i < all_mushrooms.len()
        invariant
            0 <= i <= all_mushrooms@.len(),
            play_field.wf(),
            forall|j: int|
                0 <= j < all_mushrooms@.len() ==> within_reach_limits(
                    #[trigger] all_mushrooms@[j].position,
                ),
            preview_connections.existing_connection_targets@ == spec_existing_targets(
                *play_field,
                all_mushrooms@,
                *definitions,
                i as int,
            ),
            preview_connections.connected_positions == old(preview_connections).connected_positions,
            preview_connections.empty_connection_points == old(preview_connections).empty_connection_points,
            preview_connections.preview_position == old(preview_connections).preview_position,
        decreases all_mushrooms.len() - i,
    {
        let m = all_mushrooms[i];
        let ghost before = preview_connections.existing_connection_targets@;
        match definitions.get(m.mushroom.0) {
            None => {},
            Some(definition) => {
                let points = &definition.connection_points;
                let mut k: usize = 0;
                while k < points.len()
                    invariant
                        0 <= k <= points@.len(),
                        short_reach(points@),
                        play_field.wf(),
                        within_reach_limits(m.position),
                        preview_connections.existing_connection_targets@ == before
                            + spec_open_targets(*play_field, m, points@.take(k as int)),
                        preview_connections.connected_positions == old(preview_connections).connected_positions,
                        preview_connections.empty_connection_points == old(preview_connections).empty_connection_points,
                        preview_connections.preview_position == old(preview_connections).preview_position,
                    decreases points.len() - k,
                {
                    let connection_point = points[k];
                    proof {
                        assert(points@.take(k + 1).drop_last() =~= points@.take(k as int));
                        assert(points@.take(k + 1).last() == connection_point);
                        assert(-2 <= points@[k as int].x <= 2 && -2 <= points@[k as int].y <= 2);
                    }
                    let target_pos = connection_target_position(
                        m.position,
                        m.direction,
                        &connection_point,
                    );
                    let ghost mid = preview_connections.existing_connection_targets@;
                    k = k + 1;
                    // Check if target position is within bounds and allows mushrooms
                    if !play_field.contains(target_pos) {
                        continue;
                    }
                    let target_allows_mushroom = match play_field.get_tile(target_pos) {
                        Some(tile) => tile.allows_mushroom(),
                        None => false,
                    };
                    if !target_allows_mushroom {
                        continue;
                    }
                    // Only highlight empty positions (where you could place a mushroom)
                    if play_field.get(target_pos).is_none() {
                        preview_connections.existing_connection_targets.push(target_pos);
                        proof {
                            assert(preview_connections.existing_connection_targets@ =~= mid.push(
                                target_pos,
                            ));
                        }
                    }
                }
                proof {
                    assert(points@.take(points@.len() as int) =~= points@);
                }
            },
        }
        proof {
            assert(all_mushrooms@[i as int] == m);
            assert(preview_connections.existing_connection_targets@ =~= spec_existing_targets(
                *play_field,
                all_mushrooms@,
                *definitions,
                i + 1,
            ));
        }
        i = i + 1;
    }
}

/// Cleanup preview when exiting planting phase; returns the preview entity to
/// despawn, if there was one
pub fn cleanup_preview(
    preview_state: &mut PreviewState,
    preview_connections: &mut PreviewConnections,
    hovered_cell: &mut HoveredCell,
) -> (r: Option<u64>)
    ensures
        r == old(preview_state).preview_entity,
        final(preview_state).direction == MushroomDirection::Up,
        final(preview_state).preview_entity is None,
        final(preview_connections).connected_positions@.len() == 0,
        final(preview_connections).empty_connection_points@.len() == 0,
        final(preview_connections).existing_connection_targets@.len() == 0,
        final(preview_connections).preview_position is None,
        final(hovered_cell).position is None,
{
    let despawn = preview_state.preview_entity;
    *preview_state = PreviewState::default();
    preview_connections.connected_positions.clear();
    preview_connections.empty_connection_points.clear();
    preview_connections.existing_connection_targets.clear();
    preview_connections.preview_position = None;
    hovered_cell.position = None;
    despawn
}

/// The kind of a highlighted cell in the ground shader.
#[derive(Debug, Clone, Copy, PartialEq, Eq, Structural)]
pub enum HighlightKind {
    /// Where the preview mushroom stands (cyan)
    PreviewPosition,
    /// A cell the preview would connect to (green)
    Connected,
    /// A connection point of the preview without a mushroom (red)
    EmptyPoint,
    /// An empty cell that a placed mushroom could connect to (blue outline)
    ExistingTarget,
}

/// The number the shader reads for a highlight kind.
pub open spec fn spec_highlight_marker(k: HighlightKind) -> i32 {
    match k {
        HighlightKind::PreviewPosition => -1i32,
        HighlightKind::Connected => -2i32,
        HighlightKind::EmptyPoint => -3i32,
        HighlightKind::ExistingTarget => -4i32,
    }
}

impl HighlightKind {
    /// The number the shader reads for this kind of highlight
    pub fn marker(&self) -> (r: i32)
        ensures
            r == spec_highlight_marker(*self),
    {
        match self {
            HighlightKind::PreviewPosition => -1,
            HighlightKind::Connected => -2,
            HighlightKind::EmptyPoint => -3,
            HighlightKind::ExistingTarget => -4,
        }
    }
}

/// Cells tagged with a highlight kind.
pub open spec fn tagged(s: Seq<GridPosition>, k: HighlightKind) -> Seq<(GridPosition, HighlightKind)> {
    s.map_values(|p: GridPosition| (p, k))
}

/// The first `n` elements of `s`, or all of them if there are fewer.
pub open spec fn at_most<A>(s: Seq<A>, n: int) -> Seq<A> {
    if s.len() <= n {
        s
    } else {
        s.take(n)
    }
}

/// The preview cell, if any, as a highlight.
pub open spec fn preview_cell(p: PreviewConnections) -> Seq<(GridPosition, HighlightKind)> {
    match p.preview_position {
        Some(q) => seq![(q, HighlightKind::PreviewPosition)],
        None => Seq::empty(),
    }
}

/// All highlights in the order the shader receives them: the preview cell, then the
/// cells it would connect to, its empty connection points and the open targets of
/// the placed mushrooms.
pub open spec fn spec_preview_highlights(p: PreviewConnections) -> Seq<(GridPosition, HighlightKind)> {
    preview_cell(p) + tagged(p.connected_positions@, HighlightKind::Connected) + tagged(
        p.empty_connection_points@,
        HighlightKind::EmptyPoint,
    ) + tagged(p.existing_connection_targets@, HighlightKind::ExistingTarget)
}

/// Append the cells of `cells` to `out` with the kind `kind`
fn push_tagged(
    out: &mut Vec<(GridPosition, HighlightKind)>,
    cells: &Vec<GridPosition>,
    kind: HighlightKind,
    limit: usize,
)
    ensures
        final(out)@ == old(out)@ + at_most(tagged(cells@, kind), limit as int),
{
    let mut i: usize = 0;
    let ghost o = out@;
    while i < cells.len() && i < limit
        invariant
            0 <= i <= cells@.len(),
            i <= limit,
            out@ == o + tagged(cells@.take(i as int), kind),
        decreases cells.len() - i,
    {
        out.push((cells[i], kind));
        proof {
            assert(tagged(cells@.take(i + 1), kind) =~= tagged(cells@.take(i as int), kind).push(
                (cells@[i as int], kind),
            ));
        }
        i = i + 1;
    }
    proof {
        if cells@.len() <= limit {
            assert(cells@.take(i as int) =~= cells@);
        } else {
            assert(tagged(cells@.take(i as int), kind) =~= tagged(cells@, kind).take(limit as int));
        }
    }
}

/// The preview highlights for the ground shader, in order: the preview cell, the
/// cells it would connect to, its empty connection points, and the open targets of
/// the placed mushrooms
pub fn preview_highlights(preview_connections: &PreviewConnections) -> (r: Vec<
    (GridPosition, HighlightKind),
>)
    ensures
        r@ == spec_preview_highlights(*preview_connections),
{
    let mut r: Vec<(GridPosition, HighlightKind)> = Vec::new();
    if let Some(p) = preview_connections.preview_position {
        r.push((p, HighlightKind::PreviewPosition));
    }
    proof {
        assert(r@ =~= preview_cell(*preview_connections));
    }
    push_tagged(
        &mut r,
        &preview_connections.connected_positions,
        HighlightKind::Connected,
        usize::MAX,
    );
    push_tagged(
        &mut r,
        &preview_connections.empty_connection_points,
        HighlightKind::EmptyPoint,
        usize::MAX,
    );
    push_tagged(
        &mut r,
        &preview_connections.existing_connection_targets,
        HighlightKind::ExistingTarget,
        usize::MAX,
    );
    proof {
        assert(preview_connections.connected_positions.len() <= usize::MAX);
        assert(preview_connections.empty_connection_points.len() <= usize::MAX);
        assert(preview_connections.existing_connection_targets.len() <= usize::MAX);
        assert(r@ =~= spec_preview_highlights(*preview_connections));
    }
    r
}

/// The first highlight slot of the ground material that the preview uses.
pub const FIRST_PREVIEW_SLOT: usize = 20;

/// The number of highlight slots of the ground material.
pub const PREVIEW_SLOT_COUNT: usize = 32;

/// The highlights written to the material's preview slots: the preview cell, at
/// most five connected cells, four empty connection points and six open targets,
/// as far as the twelve slots reach.
pub open spec fn spec_preview_slots(p: PreviewConnections) -> Seq<(GridPosition, HighlightKind)> {
    at_most(
        preview_cell(p) + at_most(tagged(p.connected_positions@, HighlightKind::Connected), 5)
            + at_most(tagged(p.empty_connection_points@, HighlightKind::EmptyPoint), 4) + at_most(
            tagged(p.existing_connection_targets@, HighlightKind::ExistingTarget),
            6,
        ),
        (PREVIEW_SLOT_COUNT - FIRST_PREVIEW_SLOT) as int,
    )
}

/// The highlights for the material's preview slots (slot 20 onwards), in slot order
pub fn preview_slot_highlights(preview_connections: &PreviewConnections) -> (r: Vec<
    (GridPosition, HighlightKind),
>)
    ensures
        r@ == spec_preview_slots(*preview_connections),
        r@.len() <= PREVIEW_SLOT_COUNT - FIRST_PREVIEW_SLOT,
{
    let mut all: Vec<(GridPosition, HighlightKind)> = Vec::new();
    if let Some(p) = preview_connections.preview_position {
        all.push((p, HighlightKind::PreviewPosition));
    }
    proof {
        assert(all@ =~= preview_cell(*preview_connections));
    }
    push_tagged(&mut all, &preview_connections.connected_positions, HighlightKind::Connected, 5);
    push_tagged(
        &mut all,
        &preview_connections.empty_connection_points,
        HighlightKind::EmptyPoint,
        4,
    );
    push_tagged(
        &mut all,
        &preview_connections.existing_connection_targets,
        HighlightKind::ExistingTarget,
        6,
    );
    let mut r: Vec<(GridPosition, HighlightKind)> = Vec::new();
    let mut slot_idx: usize = FIRST_PREVIEW_SLOT;
    let mut i: usize = 0;
    while i < all.len() && slot_idx < PREVIEW_SLOT_COUNT
        invariant
            0 <= i <= all@.len(),
            slot_idx == FIRST_PREVIEW_SLOT + i,
            slot_idx <= PREVIEW_SLOT_COUNT,
            r@ == all@.take(i as int),
        decreases all.len() - i,
    {
        r.push(all[i]);
        proof {
            assert(all@.take(i + 1) =~= all@.take(i as int).push(all@[i as int]));
        }
        i = i + 1;
        slot_idx = slot_idx + 1;
    }
    proof {
        if all@.len() <= PREVIEW_SLOT_COUNT - FIRST_PREVIEW_SLOT {
            assert(all@.take(i as int) =~= all@);
        }
        assert(all@ =~= preview_cell(*preview_connections) + at_most(
            tagged(preview_connections.connected_positions@, HighlightKind::Connected),
            5,
        ) + at_most(
            tagged(preview_connections.empty_connection_points@, HighlightKind::EmptyPoint),
            4,
        ) + at_most(
            tagged(preview_connections.existing_connection_targets@, HighlightKind::ExistingTarget),
            6,
        ));
    }
    r
}

} // verus!
