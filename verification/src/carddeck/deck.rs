//! # Deck
//!
//! A deck is an ordered collection of cards that can be drawn from, added to, shuffled, etc.
//! stored as a resource in the world when active.

use vstd::prelude::*;

use std::collections::VecDeque;

use bevy::ecs::error::BevyError;
use rand::seq::SliceRandom;

use crate::carddeck::card::Card;

verus! {

/// Bevy's error type, which the deck's operations name in their results.
#[verifier::external_type_specification]
#[verifier::external_body]
pub struct ExBevyError(BevyError);

/// Shuffle the cards in place with `rand`'s `SliceRandom::shuffle` and the thread's
/// random generator; `make_contiguous` only lays the queue out as one slice, in
/// order. The cards stay the same ones, as a multiset; their new order is left
/// unsaid: it rests on chance
#[verifier::external_body]
fn shuffle_cards(cards: &mut VecDeque<Card>)
    ensures
        final(cards)@.to_multiset() == old(cards)@.to_multiset(),
{
    cards.make_contiguous().shuffle(&mut rand::rng());
}

/// An ordered collection of cards; the top card is drawn first
#[derive(Debug)]
pub struct Deck {
    cards: VecDeque<Card>,
}

impl Default for Deck {
    fn default() -> (r: Self)
        ensures
            r@.len() == 0,
    {
        Deck { cards: VecDeque::new() }
    }
}

impl View for Deck {
    type V = Seq<Card>;

    /// The cards from the top of the deck to the bottom.
    closed spec fn view(&self) -> Seq<Card> {
        self.cards@
    }
}

impl Deck {
    /// Shuffle the deck.
    ///
    /// Since a [`VecDeque`] cannot be shuffled, the `make_contiguous` method
    /// must first be used, with the return shuffled.
    pub fn shuffle(&mut self) -> (r: Result<(), BevyError>)
        ensures
            r is Ok,
            final(self)@.to_multiset() == old(self)@.to_multiset(),
    {
        shuffle_cards(&mut self.cards);
        Ok(())
    }

    /// Draw the top card from the deck; `None` if the deck is empty.
    pub fn draw(&mut self) -> (r: Option<Card>)
        ensures
            match r {
                Some(c) => old(self)@.len() > 0 && c == old(self)@[0]
                    && final(self)@ == old(self)@.drop_first(),
                None => old(self)@.len() == 0 && final(self)@ == old(self)@,
            },
    {
        self.cards.pop_front()
    }

    /// Draw up to `n` cards from the top of the deck, in order; fewer if the deck
    /// runs out
    pub fn draw_n(&mut self, n: u32) -> (drawn: VecDeque<Card>)
        ensures
            drawn@ == old(self)@.take(vstd::math::min(n as int, old(self)@.len() as int)),
            final(self)@ == old(self)@.skip(vstd::math::min(n as int, old(self)@.len() as int)),
    {
        let mut drawn_cards: VecDeque<Card> = VecDeque::new();
        let ghost start = self.cards@;
        let mut i: u32 = 0;
        while i < n
            invariant
                0 <= i <= n,
                drawn_cards@ == start.take(vstd::math::min(i as int, start.len() as int)),
                self.cards@ == start.skip(vstd::math::min(i as int, start.len() as int)),
            decreases n - i,
        {
            if let Some(card) = self.cards.pop_front() {
                proof {
                    assert(start.take(i + 1) =~= start.take(i as int).push(card));
                }
                drawn_cards.push_back(card);
            }
            proof {
                assert(self.cards@ =~= start.skip(vstd::math::min(i + 1, start.len() as int)));
                assert(drawn_cards@ =~= start.take(vstd::math::min(i + 1, start.len() as int)));
            }
            i = i + 1;
        }
        drawn_cards
    }

    /// Add a card to the bottom of the deck
    pub fn add_to_bottom(&mut self, card: Card) -> (r: Result<(), BevyError>)
        ensures
            r is Ok,
            final(self)@ == old(self)@.push(card),
    {
        self.cards.push_back(card);
        Ok(())
    }

    /// Get count of remaining cards
    pub fn get_card_count(&self) -> (r: usize)
        ensures
            r == self@.len(),
    {
        self.cards.len()
    }

    /// Empty this deck
    pub fn empty_deck(&mut self) -> (r: Result<(), BevyError>)
        ensures
            r is Ok,
            final(self)@.len() == 0,
    {
        self.cards.clear();
        Ok(())
    }
}

/// Drawing loses no card: the cards drawn, followed by the cards left, are the deck
/// as it was, and as many are drawn as asked for while the deck lasts.
pub proof fn lemma_draw_keeps_cards(before: Seq<Card>, drawn: Seq<Card>, left: Seq<Card>, n: int)
    requires
        0 <= n,
        drawn == before.take(vstd::math::min(n, before.len() as int)),
        left == before.skip(vstd::math::min(n, before.len() as int)),
    ensures
        drawn + left == before,
        drawn.len() == vstd::math::min(n, before.len() as int),
{
    assert(drawn + left =~= before);
}

} // verus!
