//! The structure that represents our play field.
//! It contains a spatial index mapping grid positions to entities, the tile of
//! every cell and the mycelium connections between mushrooms.

use vstd::prelude::*;

use crate::play_field::entity_index::{
    index_contents, index_get, EntityIndex, index_insert, index_new, index_remove,
};
use crate::play_field::position::GridPosition;
use crate::play_field::tiles::TileType;

verus! {

/// Mycelium connection data for rendering and gameplay
pub struct Connection {
    pub from_pos: GridPosition,
    pub to_pos: GridPosition,
    pub from_entity: u64,
    pub to_entity: u64,
    /// Strength of the connection in percent (100 is full strength)
    pub strength_percent: u32,
    /// Currently pulsing with energy
    pub active: bool,
    /// Path the mycelium takes
    pub path: Vec<GridPosition>,
}

/// The mathematical content of a connection.
pub struct ConnectionView {
    pub from_pos: GridPosition,
    pub to_pos: GridPosition,
    pub from_entity: u64,
    pub to_entity: u64,
    pub strength_percent: u32,
    pub active: bool,
    pub path: Seq<GridPosition>,
}

impl View for Connection {
    type V = ConnectionView;

    open spec fn view(&self) -> ConnectionView {
        ConnectionView {
            from_pos: self.from_pos,
            to_pos: self.to_pos,
            from_entity: self.from_entity,
            to_entity: self.to_entity,
            strength_percent: self.strength_percent,
            active: self.active,
            path: self.path@,
        }
    }
}

/// The connections of a list, by their views.
pub open spec fn connections_view(cs: Seq<Connection>) -> Seq<ConnectionView> {
    cs.map_values(|c: Connection| c@)
}

/// Whether `(x, y)` lies on a field `w` cells wide and `h` cells high.
pub open spec fn in_field(w: int, h: int, x: int, y: int) -> bool {
    0 <= x < w && 0 <= y < h
}

/// The tile of cell `(x, y)` in the row-major tile list of a field `w` cells wide.
pub open spec fn tile_at_xy(tiles: Seq<TileType>, w: int, x: int, y: int) -> TileType {
    tiles[y * w + x]
}

/// The row-major index of a cell lies inside the tile list.
pub proof fn lemma_cell_index_bounds(w: int, h: int, x: int, y: int)
    requires
        0 <= x < w,
        0 <= y < h,
    ensures
        0 <= y * w + x < w * h,
{
    assert(0 <= y * w) by (nonlinear_arith)
        requires
            0 <= y,
            0 <= w,
    ;
    assert(y * w + w <= h * w) by (nonlinear_arith)
        requires
            y + 1 <= h,
            0 <= w,
    ;
    assert(h * w == w * h) by (nonlinear_arith);
}

/// Different cells of a row have different row-major indices.
pub proof fn lemma_cell_index_injective(w: int, x1: int, y1: int, x2: int, y2: int)
    requires
        0 <= x1 < w,
        0 <= x2 < w,
        y1 * w + x1 == y2 * w + x2,
    ensures
        x1 == x2,
        y1 == y2,
{
    if y1 < y2 {
        assert(y1 * w + w <= y2 * w) by (nonlinear_arith)
            requires
                y1 + 1 <= y2,
                0 <= w,
        ;
    } else if y2 < y1 {
        assert(y2 * w + w <= y1 * w) by (nonlinear_arith)
            requires
                y2 + 1 <= y1,
                0 <= w,
        ;
    }
}

/// A tile list with cell `p` set to `t` when `p` lies on the field.
pub open spec fn set_cell(
    tiles: Seq<TileType>,
    w: int,
    h: int,
    p: GridPosition,
    t: TileType,
) -> Seq<TileType> {
    if in_field(w, h, p.x as int, p.y as int) {
        tiles.update(p.y * w + p.x, t)
    } else {
        tiles
    }
}

/// A tile list with the cells of a level configuration set in order, so that a later
/// entry for a cell wins over an earlier one; entries off the field are ignored.
pub open spec fn apply_level_tiles(
    tiles: Seq<TileType>,
    w: int,
    h: int,
    level_tiles: Seq<(GridPosition, TileType)>,
) -> Seq<TileType>
    decreases level_tiles.len(),
{
    if level_tiles.len() == 0 {
        tiles
    } else {
        let last = level_tiles.last();
        set_cell(apply_level_tiles(tiles, w, h, level_tiles.drop_last()), w, h, last.0, last.1)
    }
}

/// `after` is `before` resized to `w` by `h`: same entities and connections, and every
/// cell of the new field keeps its tile if it was on the old field and is empty
/// otherwise.
pub open spec fn resized(before: PlayField, after: PlayField, w: i32, h: i32) -> bool {
    &&& after.wf()
    &&& after.width == w
    &&& after.height == h
    &&& after.entities == before.entities
    &&& after.connections == before.connections
    &&& forall|x: int, y: int|
        in_field(w as int, h as int, x, y) ==> #[trigger] tile_at_xy(after.tiles@, w as int, x, y)
            == if in_field(before.width as int, before.height as int, x, y) {
            tile_at_xy(before.tiles@, before.width as int, x, y)
        } else {
            TileType::Empty
        }
}

/// The play field containing the spatial index and bounds
pub struct PlayField {
    /// Spatial index mapping positions to entities (Mushrooms, maybe others later?)
    pub entities: EntityIndex,
    /// Direct connections between positions
    pub connections: Vec<Connection>,
    /// Tile types for each position, row by row
    pub tiles: Vec<TileType>,
    /// Width of the field
    pub width: i32,
    /// Height of the field
    pub height: i32,
}

/// The key of a position in the spatial index.
pub open spec fn position_key(p: GridPosition) -> (i32, i32) {
    (p.x, p.y)
}

impl PlayField {
    /// The tile list holds one tile per cell.
    pub open spec fn wf(&self) -> bool {
        &&& 0 <= self.width * self.height <= i32::MAX
        &&& self.tiles.len() == self.width * self.height
    }

    /// Whether a position lies on the field.
    pub open spec fn spec_contains(&self, p: GridPosition) -> bool {
        in_field(self.width as int, self.height as int, p.x as int, p.y as int)
    }

    /// The tile at a position on the field.
    pub open spec fn tile_at(&self, p: GridPosition) -> TileType {
        tile_at_xy(self.tiles@, self.width as int, p.x as int, p.y as int)
    }

    /// The tile at a position, or `None` off the field.
    pub open spec fn spec_get_tile(&self, p: GridPosition) -> Option<TileType> {
        if self.spec_contains(p) {
            Some(self.tile_at(p))
        } else {
            None
        }
    }

    /// The spatial index as a map from coordinates to entity ids.
    pub open spec fn entity_map(&self) -> Map<(i32, i32), u64> {
        index_contents(self.entities)
    }

    /// The entity at a position, if any.
    pub open spec fn spec_get(&self, p: GridPosition) -> Option<u64> {
        if self.entity_map().contains_key(position_key(p)) {
            Some(self.entity_map()[position_key(p)])
        } else {
            None
        }
    }

    /// Create a new play field with the given dimensions
    pub fn new(width: i32, height: i32) -> (r: Self)
        requires
            0 <= width * height <= i32::MAX,
        ensures
            r.wf(),
            r.width == width,
            r.height == height,
            r.entity_map().dom() == Set::<(i32, i32)>::empty(),
            r.connections@.len() == 0,
            forall|i: int| 0 <= i < r.tiles@.len() ==> r.tiles@[i] == TileType::Empty,
    {
        let n = (width * height) as usize;
        let mut tiles: Vec<TileType> = Vec::new();
        let mut i: usize = 0;
        while i < n
            invariant
                0 <= i <= n,
                tiles.len() == i,
                forall|k: int| 0 <= k < i ==> tiles@[k] == TileType::Empty,
            decreases n - i,
        {
            tiles.push(TileType::Empty);
            i = i + 1;
        }
        Self { entities: index_new(), connections: Vec::new(), tiles, width, height }
    }

    /// Check if a position is within bounds
    pub fn contains(&self, position: GridPosition) -> (r: bool)
        ensures
            r == self.spec_contains(position),
    {
        position.x >= 0 && position.x < self.width && position.y >= 0 && position.y < self.height
    }

    /// Get the entity at a position
    pub fn get(&self, position: GridPosition) -> (r: Option<u64>)
        ensures
            r == self.spec_get(position),
    {
        index_get(&self.entities, (position.x, position.y))
    }

    /// Insert an entity at a position, returning the entity that was there before
    pub fn insert(&mut self, position: GridPosition, entity: u64) -> (r: Option<u64>)
        ensures
            r == old(self).spec_get(position),
            final(self).entity_map() == old(self).entity_map().insert(
                position_key(position),
                entity,
            ),
            final(self).tiles == old(self).tiles,
            final(self).connections == old(self).connections,
            final(self).width == old(self).width,
            final(self).height == old(self).height,
    {
        index_insert(&mut self.entities, (position.x, position.y), entity)
    }

    /// Remove an entity from a position, returning it
    pub fn remove(&mut self, position: GridPosition) -> (r: Option<u64>)
        ensures
            r == old(self).spec_get(position),
            final(self).entity_map() == old(self).entity_map().remove(position_key(position)),
            final(self).tiles == old(self).tiles,
            final(self).connections == old(self).connections,
            final(self).width == old(self).width,
            final(self).height == old(self).height,
    {
        index_remove(&mut self.entities, (position.x, position.y))
    }

    /// Get the tile type at a position
    pub fn get_tile(&self, pos: GridPosition) -> (r: Option<TileType>)
        requires
            self.wf(),
        ensures
            r == self.spec_get_tile(pos),
    {
        if self.contains(pos) {
            let index = self.pos_to_index(pos);
            Some(self.tiles[index])
        } else {
            None
        }
    }

    /// Set the tile type at a position; positions off the field are ignored
    pub fn set_tile(&mut self, pos: GridPosition, tile_type: TileType)
        requires
            old(self).wf(),
        ensures
            final(self).wf(),
            final(self).tiles@ == set_cell(
                old(self).tiles@,
                old(self).width as int,
                old(self).height as int,
                pos,
                tile_type,
            ),
            final(self).entities == old(self).entities,
            final(self).connections == old(self).connections,
            final(self).width == old(self).width,
            final(self).height == old(self).height,
    {
        if self.contains(pos) {
            let index = self.pos_to_index(pos);
            self.tiles.set(index, tile_type);
        }
    }

    /// Convert grid position to array index
    fn pos_to_index(&self, pos: GridPosition) -> (r: usize)
        requires
            self.wf(),
            self.spec_contains(pos),
        ensures
            r == pos.y * self.width + pos.x,
            r < self.tiles.len(),
    {
        proof {
            lemma_cell_index_bounds(self.width as int, self.height as int, pos.x as int, pos.y as int);
            assert((pos.y as usize) * (self.width as usize) <= pos.y * self.width + pos.x);
        }
        pos.y as usize * self.width as usize + pos.x as usize
    }

    /// Set tiles from a level definition: every tile becomes `Empty`, then the
    /// entries of the level are set in order
    pub fn set_tiles_from_level(&mut self, level_tiles: &[(GridPosition, TileType)])
        requires
            old(self).wf(),
        ensures
            final(self).wf(),
            final(self).tiles@ == apply_level_tiles(
                Seq::new(old(self).tiles@.len(), |i: int| TileType::Empty),
                old(self).width as int,
                old(self).height as int,
                level_tiles@,
            ),
            final(self).entities == old(self).entities,
            final(self).connections == old(self).connections,
            final(self).width == old(self).width,
            final(self).height == old(self).height,
    {
        // Clear all tiles to Empty first
        let n = self.tiles.len();
        let mut i: usize = 0;
        while i < n
            invariant
                0 <= i <= n,
                n == self.tiles.len(),
                self.wf(),
                self.width == old(self).width,
                self.height == old(self).height,
                self.entities == old(self).entities,
                self.connections == old(self).connections,
                forall|k: int| 0 <= k < i ==> self.tiles@[k] == TileType::Empty,
            decreases n - i,
        {
            self.tiles.set(i, TileType::Empty);
            i = i + 1;
        }
        let ghost empty = Seq::new(n as nat, |i: int| TileType::Empty);
        assert(self.tiles@ =~= empty);
        // Then set the specific tiles for this level
        let mut j: usize = 0;
        while j < level_tiles.len()
            invariant
                0 <= j <= level_tiles.len(),
                self.wf(),
                self.width == old(self).width,
                self.height == old(self).height,
                self.entities == old(self).entities,
                self.connections == old(self).connections,
                self.tiles@ == apply_level_tiles(
                    empty,
                    self.width as int,
                    self.height as int,
                    level_tiles@.take(j as int),
                ),
            decreases level_tiles.len() - j,
        {
            let (pos, tile_type) = level_tiles[j];
            self.set_tile(pos, tile_type);
            assert(level_tiles@.take(j as int + 1).drop_last() =~= level_tiles@.take(j as int));
            j = j + 1;
        }
        assert(level_tiles@.take(level_tiles.len() as int) =~= level_tiles@);
    }

    /// Resize the field dimensions.
    /// Note: This only changes the bounds and the tiles; tiles of cells that lie on
    /// both the old and the new field are kept, new cells are `Empty`. Entities outside
    /// the new bounds should be despawned separately.
    pub fn resize(&mut self, new_width: i32, new_height: i32)
        requires
            old(self).wf(),
            0 <= new_width * new_height <= i32::MAX,
        ensures
            final(self).wf(),
            final(self).width == new_width,
            final(self).height == new_height,
            final(self).entities == old(self).entities,
            final(self).connections == old(self).connections,
            forall|x: int, y: int|
                in_field(new_width as int, new_height as int, x, y) ==> #[trigger] tile_at_xy(
                    final(self).tiles@,
                    new_width as int,
                    x,
                    y,
                ) == if in_field(old(self).width as int, old(self).height as int, x, y) {
                    tile_at_xy(old(self).tiles@, old(self).width as int, x, y)
                } else {
                    TileType::Empty
                },
    {
        let n = (new_width * new_height) as usize;
        let mut new_tiles: Vec<TileType> = Vec::new();
        let mut i: usize = 0;
        while i < n
            invariant
                0 <= i <= n,
                new_tiles.len() == i,
                forall|k: int| 0 <= k < i ==> new_tiles@[k] == TileType::Empty,
            decreases n - i,
        {
            new_tiles.push(TileType::Empty);
            i = i + 1;
        }
        let ow = self.width;
        let oh = self.height;
        // Copy existing tiles that fit in new dimensions
        let ymax = if oh < new_height {
            oh
        } else {
            new_height
        };
        let xmax = if ow < new_width {
            ow
        } else {
            new_width
        };
        proof {
            assert forall|cx: int, cy: int|
                in_field(new_width as int, new_height as int, cx, cy) implies #[trigger] tile_at_xy(
                    new_tiles@,
                    new_width as int,
                    cx,
                    cy,
                ) == TileType::Empty by {
                lemma_cell_index_bounds(new_width as int, new_height as int, cx, cy);
            }
        }
        let mut y: i32 = 0;
        while y < ymax
            invariant
                0 <= y,
                ymax <= oh,
                ymax <= new_height,
                xmax <= ow,
                xmax <= new_width,
                y <= ymax || (ymax < 0 && y == 0),
                ow == self.width,
                oh == self.height,
                self.wf(),
                *self == *old(self),
                0 <= new_width * new_height <= i32::MAX,
                new_tiles.len() == new_width * new_height,
                forall|cx: int, cy: int|
                    in_field(new_width as int, new_height as int, cx, cy) ==> #[trigger] tile_at_xy(
                        new_tiles@,
                        new_width as int,
                        cx,
                        cy,
                    ) == if cy < y && cx < xmax {
                        tile_at_xy(self.tiles@, ow as int, cx, cy)
                    } else {
                        TileType::Empty
                    },
            decreases ymax - y,
        {
            let mut x: i32 = 0;
            while x < xmax
                invariant
                    0 <= x,
                    0 <= y < ymax,
                    ymax <= oh,
                    ymax <= new_height,
                    xmax <= ow,
                    xmax <= new_width,
                    x <= xmax || (xmax < 0 && x == 0),
                    ow == self.width,
                    oh == self.height,
                    self.wf(),
                    *self == *old(self),
                    0 <= new_width * new_height <= i32::MAX,
                    new_tiles.len() == new_width * new_height,
                    forall|cx: int, cy: int|
                        in_field(new_width as int, new_height as int, cx, cy) ==> #[trigger] tile_at_xy(
                            new_tiles@,
                            new_width as int,
                            cx,
                            cy,
                        ) == if cy < y && cx < xmax || cy == y && cx < x {
                            tile_at_xy(self.tiles@, ow as int, cx, cy)
                        } else {
                            TileType::Empty
                        },
                decreases xmax - x,
            {
                proof {
                    lemma_cell_index_bounds(ow as int, oh as int, x as int, y as int);
                    lemma_cell_index_bounds(new_width as int, new_height as int, x as int, y as int);
                }
                let old_index = (y * ow + x) as usize;
                let new_index = (y * new_width + x) as usize;
                let t = self.tiles[old_index];
                let ghost before = new_tiles@;
                new_tiles.set(new_index, t);
                proof {
                    assert forall|cx: int, cy: int|
                        in_field(new_width as int, new_height as int, cx, cy) implies #[trigger] tile_at_xy(
                            new_tiles@,
                            new_width as int,
                            cx,
                            cy,
                        ) == if cy < y && cx < xmax || cy == y && cx < x + 1 {
                            tile_at_xy(self.tiles@, ow as int, cx, cy)
                        } else {
                            TileType::Empty
                        } by {
                        lemma_cell_index_bounds(new_width as int, new_height as int, cx, cy);
                        if cy * new_width + cx == y * new_width + x {
                            lemma_cell_index_injective(
                                new_width as int,
                                cx,
                                cy,
                                x as int,
                                y as int,
                            );
                        } else {
                            assert(tile_at_xy(before, new_width as int, cx, cy) == tile_at_xy(
                                new_tiles@,
                                new_width as int,
                                cx,
                                cy,
                            ));
                        }
                    }
                }
                x = x + 1;
            }
            y = y + 1;
        }
        self.tiles = new_tiles;
        self.width = new_width;
        self.height = new_height;
    }

    /// Clear all connections
    pub fn clear_connections(&mut self)
        ensures
            final(self).connections@.len() == 0,
            final(self).entities == old(self).entities,
            final(self).tiles == old(self).tiles,
            final(self).width == old(self).width,
            final(self).height == old(self).height,
    {
        self.connections.clear();
    }

    /// Get all connections for rendering
    pub fn get_all_connections(&self) -> (r: &[Connection])
        ensures
            r@ == self.connections@,
    {
        self.connections.as_slice()
    }

    /// Add a mycelium connection between two mushrooms
    pub fn add_connection(
        &mut self,
        from_pos: GridPosition,
        to_pos: GridPosition,
        from_entity: u64,
        to_entity: u64,
        strength_percent: u32,
        path: Vec<GridPosition>,
    )
        ensures
            connections_view(final(self).connections@) == connections_view(
                old(self).connections@,
            ).push(
                ConnectionView {
                    from_pos,
                    to_pos,
                    from_entity,
                    to_entity,
                    strength_percent,
                    active: false,
                    path: path@,
                },
            ),
            final(self).entities == old(self).entities,
            final(self).tiles == old(self).tiles,
            final(self).width == old(self).width,
            final(self).height == old(self).height,
    {
        self.connections.push(
            Connection {
                from_pos,
                to_pos,
                from_entity,
                to_entity,
                strength_percent,
                active: false,
                path,
            },
        );
        assert(connections_view(self.connections@) =~= connections_view(
            old(self).connections@,
        ).push(
            ConnectionView {
                from_pos,
                to_pos,
                from_entity,
                to_entity,
                strength_percent,
                active: false,
                path: self.connections@.last().path@,
            },
        ));
    }
}

/// Reading the spatial index gives back what was written: after an entity is
/// inserted at a position, that position holds the entity and every other position
/// holds what it held before; after a position is cleared, it holds nothing and the
/// others are unchanged.
pub proof fn lemma_index_read_after_write(
    before: PlayField,
    inserted: PlayField,
    removed: PlayField,
    p: GridPosition,
    q: GridPosition,
    e: u64,
)
    requires
        inserted.entity_map() == before.entity_map().insert(position_key(p), e),
        removed.entity_map() == before.entity_map().remove(position_key(p)),
    ensures
        inserted.spec_get(p) == Some(e),
        removed.spec_get(p) is None,
        q != p ==> inserted.spec_get(q) == before.spec_get(q),
        q != p ==> removed.spec_get(q) == before.spec_get(q),
{
    if q != p {
        assert(position_key(q) != position_key(p));
    }
}

/// Reading a tile gives back what was written: after a tile is set at a position on
/// the field, that position has the new tile and every other position keeps its
/// tile; setting a tile off the field changes nothing.
pub proof fn lemma_tile_read_after_write(
    before: PlayField,
    after: PlayField,
    p: GridPosition,
    q: GridPosition,
    t: TileType,
)
    requires
        before.wf(),
        after.width == before.width,
        after.height == before.height,
        after.tiles@ == set_cell(before.tiles@, before.width as int, before.height as int, p, t),
    ensures
        after.wf(),
        before.spec_contains(p) ==> after.spec_get_tile(p) == Some(t),
        !before.spec_contains(p) ==> after.tiles@ == before.tiles@,
        q != p ==> after.spec_get_tile(q) == before.spec_get_tile(q),
{
    let w = before.width as int;
    let h = before.height as int;
    if before.spec_contains(p) {
        lemma_cell_index_bounds(w, h, p.x as int, p.y as int);
    }
    if q != p && before.spec_contains(q) {
        lemma_cell_index_bounds(w, h, q.x as int, q.y as int);
        if before.spec_contains(p) && q.y * w + q.x == p.y * w + p.x {
            lemma_cell_index_injective(w, q.x as int, q.y as int, p.x as int, p.y as int);
        }
    }
}

} // verus!
