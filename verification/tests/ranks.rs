use std::collections::HashSet;

use deck::Rank;

#[test]
fn rank_face_card() {
    let court_cards = HashSet::from([Rank::Jack, Rank::Queen, Rank::King]);
    for rank in Rank::all() {
        let face_card = court_cards.contains(&rank);
        assert_eq!(rank.face_card(), face_card);
    }
}

#[test]
fn ace_is_not_face() {
    assert!(!Rank::Ace.face_card());
}

#[test]
fn rank_ordinals_run_from_two_to_fourteen() {
    let expected: Vec<u8> = (2..=14).collect();
    let ordinals: Vec<u8> = Rank::all().iter().map(|r| r.ordinal()).collect();
    assert_eq!(ordinals, expected);
}

#[test]
fn rank_order_follows_ordinals() {
    assert!(Rank::Two < Rank::Three);
    assert!(Rank::Ten < Rank::Jack);
    assert!(Rank::King < Rank::Ace);
    assert!(Rank::Ace > Rank::Two);
    assert_eq!(
        Rank::Queen.partial_cmp(&Rank::Queen),
        Some(std::cmp::Ordering::Equal)
    );
    assert_eq!(
        Rank::Two.partial_cmp(&Rank::Ace),
        Some(std::cmp::Ordering::Less)
    );
}

#[test]
fn all_lists_every_rank_once() {
    let ranks = Rank::all();
    assert_eq!(ranks.len(), 13);
    let distinct: HashSet<_> = ranks.iter().cloned().collect();
    assert_eq!(distinct.len(), 13);
}
