//! # Hand
//!
//! The hand contains the cards that have been drawn and are currently playable by the player.
//! These are drawn from the deck.

use vstd::prelude::*;

use std::collections::VecDeque;

use crate::carddeck::card::Card;
use crate::carddeck::deck::Deck;
use bevy::ecs::error::BevyError;

verus! {

/// The hand, which holds the cards within it, each with the entity that shows it
/// (if it has been spawned).
///
/// You'll notice this is very similar to how the deck is defined. The two could possible
/// be merged into a single defition at a later date.
#[derive(Debug)]
pub struct Hand {
    cards: VecDeque<(Card, Option<u64>)>,
    pub max_cards: usize,
}

/// What a hand holds: its cards in order, each with its entity, and the most cards
/// it takes.
pub struct HandView {
    pub cards: Seq<(Card, Option<u64>)>,
    pub max_cards: usize,
}

impl Default for Hand {
    fn default() -> (r: Self)
        ensures
            r@.cards.len() == 0,
            r@.max_cards == 9,
    {
        Hand { cards: VecDeque::new(), max_cards: 9 }
    }
}

impl View for Hand {
    type V = HandView;

    closed spec fn view(&self) -> HandView {
        HandView { cards: self.cards@, max_cards: self.max_cards }
    }
}

/// The position of the first card shown by `entity`, if any.
pub open spec fn first_with_entity(cards: Seq<(Card, Option<u64>)>, entity: u64) -> Option<int> {
    if exists|i: int| 0 <= i < cards.len() && cards[i].1 == Some(entity) {
        Some(
            choose|i: int|
                0 <= i < cards.len() && cards[i].1 == Some(entity) && forall|j: int|
                    0 <= j < i ==> cards[j].1 != Some(entity),
        )
    } else {
        None
    }
}

/// The hand after a draw: the drawn cards joined at the end, in the order drawn,
/// the i-th shown by the i-th entity.
pub open spec fn with_drawn(
    cards: Seq<(Card, Option<u64>)>,
    drawn: Seq<Card>,
    entities: Seq<u64>,
) -> Seq<(Card, Option<u64>)> {
    cards + Seq::new(drawn.len(), |i: int| (drawn[i], Some(entities[i])))
}

impl Hand {
    /// Get count of cards in hand
    pub fn get_card_count(&self) -> (r: usize)
        ensures
            r == self@.cards.len(),
    {
        self.cards.len()
    }

    /// Remove the card shown by the given entity (the first such card); a hand
    /// without it stays as it is. Despawning the entity, and announcing the change of
    /// hand when a card left, is the caller's part
    pub fn despawn_card(&mut self, card_entity: u64) -> (r: Result<(), BevyError>)
        ensures
            r is Ok,
            match first_with_entity(old(self)@.cards, card_entity) {
                Some(i) => final(self)@.cards == old(self)@.cards.remove(i),
                None => final(self)@.cards == old(self)@.cards,
            },
            final(self)@.max_cards == old(self)@.max_cards,
    {
        let mut index: usize = 0;
        while index < self.cards.len()
            invariant
                0 <= index <= self.cards@.len(),
                self.cards@ == old(self).cards@,
                self.max_cards == old(self).max_cards,
                forall|j: int| 0 <= j < index ==> self.cards@[j].1 != Some(card_entity),
            decreases self.cards.len() - index,
        {
            if self.cards[index].1 == Some(card_entity) {
                proof {
                    let w = index as int;
                    assert(0 <= w < self.cards@.len() && self.cards@[w].1 == Some(card_entity)
                        && forall|j: int| 0 <= j < w ==> self.cards@[j].1 != Some(card_entity));
                    let i = first_with_entity(old(self)@.cards, card_entity)->0;
                    if i < w {
                        assert(self.cards@[i].1 != Some(card_entity));
                    }
                    if w < i {
                        assert(self.cards@[w].1 != Some(card_entity));
                    }
                }
                self.cards.remove(index);
                proof {
                    assert(self.cards@ =~= old(self)@.cards.remove(index as int));
                }
                return Ok(());
            }
            index = index + 1;
        }
        Ok(())
    }
}

/// How many cards a draw of `requested` cards takes: no more than fit in the hand,
/// and no more than the deck holds.
pub open spec fn spec_cards_to_draw(
    hand_count: usize,
    max_cards: usize,
    requested: u32,
    deck_count: usize,
) -> u32 {
    let fitting = if hand_count + requested > max_cards {
        (max_cards - hand_count) as u32
    } else {
        requested
    };
    if fitting > deck_count {
        deck_count as u32
    } else {
        fitting
    }
}

/// The number of cards a draw takes: it checks that the cards will fit and that
/// enough remain in the deck, and draws fewer as needed
pub fn cards_to_draw(hand_count: usize, max_cards: usize, requested: u32, deck_count: usize) -> (r:
    u32)
    requires
        hand_count <= max_cards <= u32::MAX,
        hand_count + requested <= u32::MAX,
        deck_count <= u32::MAX,
    ensures
        r == spec_cards_to_draw(hand_count, max_cards, requested, deck_count),
        r <= requested,
        hand_count + r <= max_cards,
        r <= deck_count,
{
    let mut to_draw = requested;
    // Check we can fit the cards, otherwise draw less
    if hand_count as u32 + to_draw > max_cards as u32 {
        to_draw = (max_cards - hand_count) as u32;
    }
    // Check the deck has enough cards, otherwise draw less
    if to_draw > deck_count as u32 {
        to_draw = deck_count as u32;
    }
    to_draw
}

/// Draw N cards from deck into hand: as many as fit in the hand and remain in the
/// deck, taken from the top of the deck in order and joined at the end of the hand.
/// The i-th drawn card is shown by the i-th of `card_entities`, which the caller
/// spawned for the draw (at least as many as `cards_to_draw` gives)
pub fn draw_n(hand: &mut Hand, deck: &mut Deck, requested: u32, card_entities: &[u64]) -> (r:
    Result<(), BevyError>)
    requires
        old(hand)@.cards.len() <= old(hand)@.max_cards <= u32::MAX,
        old(hand)@.cards.len() + requested <= u32::MAX,
        old(deck)@.len() <= u32::MAX,
        card_entities@.len() >= spec_cards_to_draw(
            old(hand)@.cards.len() as usize,
            old(hand)@.max_cards,
            requested,
            old(deck)@.len() as usize,
        ),
    ensures
        r is Ok,
        ({
            let n = spec_cards_to_draw(
                old(hand)@.cards.len() as usize,
                old(hand)@.max_cards,
                requested,
                old(deck)@.len() as usize,
            ) as int;
            &&& final(hand)@.cards == with_drawn(
                old(hand)@.cards,
                old(deck)@.take(n),
                card_entities@.take(n),
            )
            &&& final(deck)@ == old(deck)@.skip(n)
            &&& final(hand)@.cards.len() <= final(hand)@.max_cards
        }),
        final(hand)@.max_cards == old(hand)@.max_cards,
{
    let n = cards_to_draw(hand.cards.len(), hand.max_cards, requested, deck.get_card_count());
    let ghost start = deck@;
    let ghost before = hand.cards@;
    let mut i: u32 = 0;
    while i < n
        invariant
            0 <= i <= n,
            n <= start.len(),
            n <= card_entities@.len(),
            before.len() + n <= hand.max_cards,
            hand.max_cards == old(hand).max_cards,
            hand.cards@ == with_drawn(before, start.take(i as int), card_entities@.take(i as int)),
            deck@ == start.skip(i as int),
        decreases n - i,
    {
        let card = deck.draw();
        match card {
            Some(c) => {
                let entity = card_entities[i as usize];
                hand.cards.push_back((c, Some(entity)));
                proof {
                    assert(start.take(i + 1) =~= start.take(i as int).push(c));
                    assert(card_entities@.take(i + 1) =~= card_entities@.take(i as int).push(entity));
                    assert(hand.cards@ =~= with_drawn(
                        before,
                        start.take(i + 1),
                        card_entities@.take(i + 1),
                    ));
                    assert(deck@ =~= start.skip(i + 1));
                }
            },
            None => {
                proof {
                    assert(false);
                }
            },
        }
        i = i + 1;
    }
    Ok(())
}

} // verus!
