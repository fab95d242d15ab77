//! Play field: tiles, grid positions, the spatial index and the tile atlas.

pub mod entity_index;
pub mod field;
pub mod field_renderer;
pub mod mycelium;
pub mod observers;
pub mod placement_preview;
pub mod position;
pub mod tile_atlas;
pub mod tiles;
