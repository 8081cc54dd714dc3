use std::collections::HashMap;

use deck::{Card, Rank, Style, Suit};

#[test]
fn rank_display_as_words() {
    let map = HashMap::from([
        (Rank::Two, "Two"),
        (Rank::Three, "Three"),
        (Rank::Four, "Four"),
        (Rank::Five, "Five"),
        (Rank::Six, "Six"),
        (Rank::Seven, "Seven"),
        (Rank::Eight, "Eight"),
        (Rank::Nine, "Nine"),
        (Rank::Ten, "Ten"),
        (Rank::Jack, "Jack"),
        (Rank::Queen, "Queen"),
        (Rank::King, "King"),
        (Rank::Ace, "Ace"),
    ]);
    for (rank, words) in map.iter() {
        let rank_words = rank.format(Style::Verbose);
        assert_eq!(words, &rank_words);
    }
}

#[test]
fn rank_display() {
    let map = HashMap::from([
        (Rank::Two, "2"),
        (Rank::Three, "3"),
        (Rank::Four, "4"),
        (Rank::Five, "5"),
        (Rank::Six, "6"),
        (Rank::Seven, "7"),
        (Rank::Eight, "8"),
        (Rank::Nine, "9"),
        (Rank::Ten, "10"),
        (Rank::Jack, "J"),
        (Rank::Queen, "Q"),
        (Rank::King, "K"),
        (Rank::Ace, "A"),
    ]);
    for (rank, display) in map.iter() {
        let rank_display = rank.format(Style::Compact);
        assert_eq!(display, &rank_display);
    }
}

#[test]
fn suit_display_as_words() {
    let map = HashMap::from([
        (Suit::Clubs, "Clubs"),
        (Suit::Diamonds, "Diamonds"),
        (Suit::Hearts, "Hearts"),
        (Suit::Spades, "Spades"),
    ]);
    for (suit, words) in map.iter() {
        let suit_words = suit.format(Style::Verbose);
        assert_eq!(words, &suit_words);
    }
}

#[test]
fn suit_display_as_symbols() {
    let map = HashMap::from([
        (Suit::Clubs, "♣"),
        (Suit::Diamonds, "♦"),
        (Suit::Hearts, "♥"),
        (Suit::Spades, "♠"),
    ]);
    for (suit, symbol) in map.iter() {
        let suit_symbol = suit.format(Style::Compact);
        assert_eq!(symbol, &suit_symbol);
    }
}

#[test]
fn card_display_compact() {
    let card = Card::from((Suit::Hearts, Rank::Seven));
    assert_eq!(card.format(Style::Compact), "♥7");
}

#[test]
fn card_display_verbose() {
    let card = Card::from((Suit::Hearts, Rank::Seven));
    assert_eq!(card.format(Style::Verbose), "Seven of Hearts");
}

#[test]
fn rank_compact_is_decimal_ordinal_for_pips() {
    for rank in Rank::all() {
        let ordinal = rank.ordinal();
        if ordinal <= 10 {
            assert_eq!(rank.format(Style::Compact), format!("{ordinal}"));
        }
    }
}

#[test]
fn rank_compact_is_first_letter_for_high_ranks() {
    for rank in Rank::all() {
        if rank.ordinal() > 10 {
            let compact = rank.format(Style::Compact);
            let verbose = rank.format(Style::Verbose);
            assert_eq!(compact.chars().count(), 1);
            assert_eq!(compact.chars().next(), verbose.chars().next());
        }
    }
}
