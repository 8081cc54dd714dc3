use deck::{Card, Rank, Suit};

#[test]
fn construction_accepts_either_argument_order() {
    for suit in Suit::all() {
        for rank in Rank::all() {
            assert_eq!(Card::from((rank, suit)), Card::from((suit, rank)));
        }
    }
}

#[test]
fn accessors_return_the_components() {
    let rank = Rank::Seven;
    let suit = Suit::Hearts;
    let card = Card::from((rank, suit));
    assert_eq!(card.rank(), rank);
    assert_eq!(card.suit(), suit);
}

#[test]
fn cards_are_equal_exactly_when_components_match() {
    let card = Card::from((Rank::Seven, Suit::Hearts));
    assert_eq!(card, Card::from((Rank::Seven, Suit::Hearts)));
    assert_ne!(card, Card::from((Rank::Eight, Suit::Hearts)));
    assert_ne!(card, Card::from((Rank::Seven, Suit::Spades)));
}

#[test]
fn same_suit_cards_compare_by_rank() {
    let small = Card::from((Suit::Hearts, Rank::Five));
    let card = Card::from((Suit::Hearts, Rank::Seven));
    assert!(small < card);
    assert!(card > small);
    assert!(!(card < small));
    assert!(!(small > card));
    assert_eq!(
        card.partial_cmp(&Card::from((Suit::Hearts, Rank::Seven))),
        Some(std::cmp::Ordering::Equal)
    );
}

#[test]
fn different_suit_cards_are_incomparable_both_ways() {
    let card = Card::from((Suit::Hearts, Rank::Seven));
    let incomparable = Card::from((Suit::Spades, Rank::Five));
    assert!(!(incomparable < card));
    assert!(!(incomparable > card));
    assert!(!(card > incomparable));
    assert!(!(card < incomparable));
    assert_eq!(card.partial_cmp(&incomparable), None);
    assert_eq!(incomparable.partial_cmp(&card), None);
}
