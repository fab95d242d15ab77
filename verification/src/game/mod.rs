//! Core game logic: turn flow, levels and the game state.

pub mod event_queue;
pub mod game_flow;
pub mod level;
pub mod resources;
pub mod ui;
