use mushroom_chain::carddeck::card::{
    create_card_definitions, rarity_choices, rarity_weights, Card, CardTemplates, Rarity,
};
use mushroom_chain::carddeck::deck::Deck;
use mushroom_chain::carddeck::dragging::{
    card_already_being_dragged, drag_end_state, exit_play_card_mode, may_drag_card, Dragged,
};
use mushroom_chain::game::game_flow::TurnPhase;
use mushroom_chain::carddeck::hand::{cards_to_draw, draw_n, Hand};
use mushroom_chain::mushrooms::definitions::MushroomType;

fn card(name: &str) -> Card {
    Card { name: name.to_string(), mushroom_type: MushroomType::Basic, rarity: Rarity::Common }
}

fn names(cards: &[Card]) -> Vec<String> {
    cards.iter().map(|c| c.name.clone()).collect()
}

#[test]
fn card_templates() {
    let mut templates = CardTemplates::default();
    create_card_definitions(&mut templates);
    assert_eq!(templates.cards.len(), 17);
    assert_eq!(templates.cards[11].name, "Fourway_amplifier");
    assert_eq!(templates.cards[11].mushroom_type, MushroomType::FourwayAmplifier);
    assert_eq!(templates.count_of_rarity(Rarity::Common), 15);
    assert_eq!(templates.count_of_rarity(Rarity::Uncommon), 1);
    assert_eq!(templates.count_of_rarity(Rarity::Rare), 1);
    assert_eq!(templates.pick_card(Rarity::Rare, 0).name, "Surround");
    assert_eq!(templates.pick_card(Rarity::Common, 2).name, "Sideways");
    assert_eq!(templates.pick_card(Rarity::Uncommon, 0).mushroom_type, MushroomType::Splitter);
    let c = Card::from_template(&templates.cards[0]);
    assert_eq!((c.name.as_str(), c.rarity), ("Basic", Rarity::Common));
    let d = Card::default();
    assert_eq!((d.name.as_str(), d.mushroom_type), ("Card", MushroomType::Basic));
}

#[test]
fn random_cards_come_from_the_templates() {
    let mut templates = CardTemplates::default();
    create_card_definitions(&mut templates);
    for _ in 0..200 {
        let drawn = templates.draw_random_card();
        assert!(templates.cards.iter().any(|t| std::ptr::eq(t, drawn)));
    }
}

#[test]
fn deck_draws_from_the_top() {
    let mut deck = Deck::default();
    assert_eq!(deck.get_card_count(), 0);
    assert!(deck.draw().is_none());
    for n in ["a", "b", "c", "d"] {
        assert!(deck.add_to_bottom(card(n)).is_ok());
    }
    assert_eq!(deck.draw().unwrap().name, "a");
    let drawn: Vec<Card> = deck.draw_n(2).into_iter().collect();
    assert_eq!(names(&drawn), vec!["b", "c"]);
    let rest: Vec<Card> = deck.draw_n(5).into_iter().collect();
    assert_eq!(names(&rest), vec!["d"]);
    assert_eq!(deck.get_card_count(), 0);
    deck.add_to_bottom(card("e")).unwrap();
    assert!(deck.empty_deck().is_ok());
    assert_eq!(deck.get_card_count(), 0);
}

#[test]
fn shuffling_keeps_the_cards() {
    let mut deck = Deck::default();
    for i in 0..20 {
        deck.add_to_bottom(card(&format!("c{i}"))).unwrap();
    }
    assert!(deck.shuffle().is_ok());
    let mut all = names(&deck.draw_n(20).into_iter().collect::<Vec<_>>());
    all.sort();
    let mut expected: Vec<String> = (0..20).map(|i| format!("c{i}")).collect();
    expected.sort();
    assert_eq!(all, expected);
}

#[test]
fn drawing_into_the_hand() {
    assert_eq!(cards_to_draw(0, 9, 6, 30), 6);
    assert_eq!(cards_to_draw(5, 9, 6, 30), 4);
    assert_eq!(cards_to_draw(5, 9, 6, 2), 2);
    assert_eq!(cards_to_draw(9, 9, 3, 10), 0);
    let mut hand = Hand::default();
    assert_eq!(hand.max_cards, 9);
    let mut deck = Deck::default();
    for n in ["a", "b", "c"] {
        deck.add_to_bottom(card(n)).unwrap();
    }
    assert!(draw_n(&mut hand, &mut deck, 2, &[100, 101]).is_ok());
    assert_eq!(deck.get_card_count(), 1);
    assert_eq!(hand.get_card_count(), 2);
    // the hand takes no more than the deck holds
    assert!(draw_n(&mut hand, &mut deck, 5, &[102]).is_ok());
    assert_eq!(deck.get_card_count(), 0);
    assert_eq!(hand.get_card_count(), 3);
    // removing a card by its entity, once
    assert!(hand.despawn_card(101).is_ok());
    assert_eq!(hand.get_card_count(), 2);
    assert!(hand.despawn_card(101).is_ok());
    assert_eq!(hand.get_card_count(), 2);
    assert!(hand.despawn_card(100).is_ok());
    assert!(hand.despawn_card(102).is_ok());
    assert_eq!(hand.get_card_count(), 0);
}

#[test]
fn a_full_hand_draws_nothing() {
    let mut hand = Hand::default();
    hand.max_cards = 1;
    let mut deck = Deck::default();
    for n in ["a", "b"] {
        deck.add_to_bottom(card(n)).unwrap();
    }
    assert!(draw_n(&mut hand, &mut deck, 3, &[7]).is_ok());
    assert_eq!(hand.get_card_count(), 1);
    assert_eq!(deck.get_card_count(), 1);
    assert!(draw_n(&mut hand, &mut deck, 3, &[]).is_ok());
    assert_eq!(hand.get_card_count(), 1);
    let rest: Vec<Card> = deck.draw_n(5).into_iter().collect();
    assert_eq!(names(&rest), vec!["b"]);
}

#[test]
fn one_card_dragged_at_a_time() {
    let cards = [(1, Dragged::Released), (2, Dragged::Active), (3, Dragged::Released)];
    assert!(card_already_being_dragged(1, &cards));
    assert!(!card_already_being_dragged(2, &cards));
    assert!(may_drag_card(Some(TurnPhase::Planting), 2, &cards));
    assert!(!may_drag_card(Some(TurnPhase::Planting), 3, &cards));
    assert!(!may_drag_card(Some(TurnPhase::Chain), 2, &cards));
    assert!(!may_drag_card(None, 2, &cards));
    assert_eq!(drag_end_state(true), Dragged::Played);
    assert_eq!(drag_end_state(false), Dragged::Released);
    assert_eq!(Dragged::default(), Dragged::Active);
}

#[test]
fn secondary_click_returns_played_cards() {
    let mut states = vec![Dragged::Played, Dragged::Released, Dragged::Played];
    assert!(!exit_play_card_mode(false, &mut states));
    assert_eq!(states[0], Dragged::Played);
    assert!(exit_play_card_mode(true, &mut states));
    assert_eq!(states, vec![Dragged::Released; 3]);
    assert!(!exit_play_card_mode(true, &mut states));
}

#[test]
fn rarities_are_drawn_by_their_weights() {
    assert_eq!(rarity_choices(), [Rarity::Common, Rarity::Uncommon, Rarity::Rare]);
    assert_eq!(rarity_weights(), [60, 30, 10]);
}
