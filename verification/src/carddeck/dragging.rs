//! Dragging cards from the hand onto the field: only one card at a time, only while
//! planting.

use vstd::prelude::*;

use crate::game::game_flow::TurnPhase;

verus! {

/// Where a card is in being dragged
#[derive(Debug, Clone, Copy, PartialEq, Eq, Structural)]
pub enum Dragged {
    Active,
    Released,
    Played,
}

impl Default for Dragged {
    fn default() -> (r: Self)
        ensures
            r == Dragged::Active,
    {
        Dragged::Active
    }
}

/// Whether a card other than `card_entity` is being dragged or played.
pub open spec fn other_card_busy(card_entity: u64, cards: Seq<(u64, Dragged)>) -> bool {
    exists|i: int|
        0 <= i < cards.len() && #[trigger] cards[i].0 != card_entity && cards[i].1
            != Dragged::Released
}

/// Whether another card than `card_entity` is already being dragged (or was played)
pub fn card_already_being_dragged(card_entity: u64, dragged_cards: &[(u64, Dragged)]) -> (r: bool)
    ensures
        r == other_card_busy(card_entity, dragged_cards@),
{
    let mut i: usize = 0;
    while i < dragged_cards.len()
        invariant
            0 <= i <= dragged_cards@.len(),
            forall|j: int|
                0 <= j < i ==> !(#[trigger] dragged_cards@[j].0 != card_entity
                    && dragged_cards@[j].1 != Dragged::Released),
        decreases dragged_cards.len() - i,
    {
        let (entity, state) = dragged_cards[i];
        if entity != card_entity && state != Dragged::Released {
            proof {
                assert(dragged_cards@[i as int].0 != card_entity);
            }
            return true;
        }
        i = i + 1;
    }
    false
}

/// Whether a card may be dragged: only during the planting phase, and only while no
/// other card is being dragged
pub fn may_drag_card(
    turn_phase: Option<TurnPhase>,
    card_entity: u64,
    dragged_cards: &[(u64, Dragged)],
) -> (r: bool)
    ensures
        r == (turn_phase == Some(TurnPhase::Planting) && !other_card_busy(
            card_entity,
            dragged_cards@,
        )),
{
    match turn_phase {
        Some(TurnPhase::Planting) => !card_already_being_dragged(card_entity, dragged_cards),
        _ => false,
    }
}

/// The state of a card when its drag ends: played if it was let go over the field,
/// back to the hand otherwise
pub fn drag_end_state(over_field: bool) -> (r: Dragged)
    ensures
        r == if over_field {
            Dragged::Played
        } else {
            Dragged::Released
        },
{
    if over_field {
        Dragged::Played
    } else {
        Dragged::Released
    }
}

/// Leave play-card mode on a secondary click: every played card goes back to the
/// hand. Returns whether any card did (and so the selection is cleared)
pub fn exit_play_card_mode(secondary_click: bool, cards: &mut Vec<Dragged>) -> (r: bool)
    ensures
        final(cards)@.len() == old(cards)@.len(),
        r == (secondary_click && exists|i: int|
            0 <= i < old(cards)@.len() && #[trigger] old(cards)@[i] == Dragged::Played),
        forall|i: int|
            0 <= i < old(cards)@.len() ==> #[trigger] final(cards)@[i] == if secondary_click
                && old(cards)@[i] == Dragged::Played {
                Dragged::Released
            } else {
                old(cards)@[i]
            },
{
    if !secondary_click {
        return false;
    }
    let mut any = false;
    let mut i: usize = 0;
    while i < cards.len()
        invariant
            0 <= i <= cards@.len(),
            cards@.len() == old(cards)@.len(),
            any == exists|j: int| 0 <= j < i && #[trigger] old(cards)@[j] == Dragged::Played,
            forall|j: int|
                0 <= j < cards@.len() ==> #[trigger] cards@[j] == if j < i && old(cards)@[j]
                    == Dragged::Played {
                    Dragged::Released
                } else {
                    old(cards)@[j]
                },
        decreases cards.len() - i,
    {
        if cards[i] == Dragged::Played {
            cards.set(i, Dragged::Released);
            any = true;
            proof {
                assert(old(cards)@[i as int] == Dragged::Played);
            }
        }
        i = i + 1;
    }
    any
}

} // verus!
