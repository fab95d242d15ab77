//! Verified game logic of a turn-based mushroom chain-reaction game:
//! the play field with its tiles and spatial index, mushroom definitions,
//! mycelium connections, chain activations, levels, turn flow and cards.

pub mod play_field;
pub mod carddeck;
pub mod game;
pub mod mushrooms;
