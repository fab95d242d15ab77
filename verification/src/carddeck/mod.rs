//! Cards, the deck they are drawn from and the player's hand.

pub mod card;
pub mod deck;
pub mod dragging;
pub mod hand;
