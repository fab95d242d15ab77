//! Core game resources and state

use vstd::prelude::*;

use crate::play_field::field::PlayField;
use crate::play_field::tiles::TileType;

verus! {

/// Core game state tracking the game field, spores and progression.
///
/// Spore amounts are values of the type parameter `S`; this crate stores and
/// passes them on but never computes with them.
pub struct GameState<S> {
    /// Current number of spores
    pub spores: S,
    /// Total spores earned all time
    pub total_spores_earned: S,
    /// Number of activations this session
    pub total_activations: u64,
    /// Number of chain activations (mushroom activated by another mushroom)
    pub chain_activations: u64,
    /// The play field
    pub play_field: PlayField,
}

impl<S: Copy> GameState<S> {
    /// A new game: no spores yet, no activations, and an empty 6 by 6 play field
    pub fn new(no_spores: S) -> (r: Self)
        ensures
            r.spores == no_spores,
            r.total_spores_earned == no_spores,
            r.total_activations == 0,
            r.chain_activations == 0,
            r.play_field.wf(),
            r.play_field.width == 6,
            r.play_field.height == 6,
            r.play_field.entity_map().dom() == Set::<(i32, i32)>::empty(),
            r.play_field.connections@.len() == 0,
            forall|i: int|
                0 <= i < r.play_field.tiles@.len() ==> r.play_field.tiles@[i] == TileType::Empty,
    {
        Self {
            spores: no_spores,
            total_spores_earned: no_spores,
            total_activations: 0,
            chain_activations: 0,
            play_field: PlayField::new(6, 6),
        }
    }
}

impl<S> GameState<S> {
    /// Count one activation; a chain activation (one mushroom activated by another)
    /// is counted as such too
    pub fn record_activation(&mut self, is_chain: bool)
        requires
            old(self).total_activations < u64::MAX,
            is_chain ==> old(self).chain_activations < u64::MAX,
        ensures
            final(self).total_activations == old(self).total_activations + 1,
            final(self).chain_activations == old(self).chain_activations + if is_chain {
                1int
            } else {
                0int
            },
            final(self).spores == old(self).spores,
            final(self).total_spores_earned == old(self).total_spores_earned,
            final(self).play_field == old(self).play_field,
    {
        self.total_activations += 1;
        if is_chain {
            self.chain_activations += 1;
        }
    }
}

} // verus!
