use lobby_core::baodatui_poker::{raw_power_of_numeric_number, score_of_numeric_number, PrimeOrSub};
use lobby_core::poker::{cards, Color, Suit};

#[test]
fn test_cards() {
    let cards = cards();
    assert_eq!(cards.cards.len(), 54);
}

#[test]
fn deck_layout() {
    let deck = cards();
    let first = deck.by_id(0);
    assert_eq!(first.intrinsic_id, 0);
    assert_eq!(first.suit, Some(Suit::DIAMONDS));
    assert_eq!(first.numeric_card_num, Some(1));
    let king_of_spades = deck.by_id(51);
    assert_eq!(king_of_spades.suit, Some(Suit::SPADES));
    assert_eq!(king_of_spades.numeric_card_num, Some(13));
    let black_joker = deck.by_id(52);
    assert!(black_joker.is_joker());
    assert_eq!(black_joker.color, Color::BLACK);
    assert!(black_joker.suit.is_none());
    let red_joker = deck.by_id(53);
    assert!(red_joker.is_joker());
    assert_eq!(red_joker.color, Color::RED);
    assert!(!deck.by_id(0).is_joker());
}

#[test]
fn by_id_wraps_around() {
    let deck = cards();
    assert_eq!(deck.by_id(54).intrinsic_id, deck.by_id(0).intrinsic_id);
    assert_eq!(deck.by_id(107).intrinsic_id, 53);
}

#[test]
fn suit_colors() {
    assert_eq!(Suit::DIAMONDS.color(), Color::RED);
    assert_eq!(Suit::HEARTS.color(), Color::RED);
    assert_eq!(Suit::CLUBS.color(), Color::BLACK);
    assert_eq!(Suit::SPADES.color(), Color::BLACK);
}

#[test]
fn scores() {
    assert_eq!(score_of_numeric_number(5), 5);
    assert_eq!(score_of_numeric_number(10), 10);
    assert_eq!(score_of_numeric_number(13), 10);
    assert_eq!(score_of_numeric_number(2), 0);
    assert_eq!(score_of_numeric_number(1), 0);
}

#[test]
fn raw_powers() {
    assert_eq!(raw_power_of_numeric_number(1), 14);
    assert_eq!(raw_power_of_numeric_number(7), 7);
    assert_eq!(raw_power_of_numeric_number(13), 13);
}

#[test]
fn prime_or_sub() {
    let prime = PrimeOrSub::of_prime_suit(Some(Suit::HEARTS));
    assert!(prime.is_prime());
    assert!(!prime.is_sub());
    assert_eq!(prime.prime_suit, Some(Suit::HEARTS));
    let no_trump = PrimeOrSub::of_prime_suit(None);
    assert!(no_trump.is_prime());
    let sub = PrimeOrSub::of_sub_suit(Suit::CLUBS);
    assert!(sub.is_sub());
    assert!(!sub.is_prime());
    assert!(sub.prime_suit.is_none());
}
