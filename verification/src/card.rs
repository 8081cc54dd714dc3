//! A playing card: one rank of one suit. Cards of the same suit are ordered
//! by rank; cards of different suits are incomparable.

use core::cmp::Ordering;

use vstd::prelude::*;
use vstd::std_specs::cmp::PartialOrdSpec;
use vstd::std_specs::convert::FromSpec;
use vstd::string::StringExecFns;

use crate::rank::Rank;
use crate::style::Style;
use crate::suit::Suit;

verus! {

/// A playing card, the pair of a rank and a suit. Two cards are equal
/// exactly when both components match. Jokers are not modeled.
#[derive(Clone, Debug, Eq, Hash, PartialEq, Structural)]
#[verifier::ext_equal]
pub struct Card {
    rank: Rank,
    suit: Suit,
}

impl Card {
    /// The rank component of the card.
    pub closed spec fn spec_rank(self) -> Rank {
        self.rank
    }

    /// The suit component of the card.
    pub closed spec fn spec_suit(self) -> Suit {
        self.suit
    }

    /// The card with the given rank and suit.
    pub closed spec fn spec_new(rank: Rank, suit: Suit) -> Card {
        Card { rank, suit }
    }

    /// Getter for rank of the card.
    pub fn rank(&self) -> (r: Rank)
        ensures
            r == self.spec_rank(),
    {
        self.rank
    }

    /// Getter for suit of the card.
    pub fn suit(&self) -> (r: Suit)
        ensures
            r == self.spec_suit(),
    {
        self.suit
    }

    /// The text `format` returns: in the compact style the suit's glyph
    /// followed by the rank's short form; in the verbose style the rank's
    /// name, " of ", and the suit's name.
    pub open spec fn spec_format(self, style: Style) -> Seq<char> {
        match style {
            Style::Compact => self.spec_suit().spec_format(Style::Compact)
                + self.spec_rank().spec_format(Style::Compact),
            Style::Verbose => self.spec_rank().spec_format(Style::Verbose) + " of "@
                + self.spec_suit().spec_format(Style::Verbose),
        }
    }

    /// Renders the card, as in "♥7" (compact) or "Seven of Hearts"
    /// (verbose).
    pub fn format(&self, style: Style) -> (r: String)
        ensures
            r@ == self.spec_format(style),
    {
        match style {
            Style::Compact => {
                let glyph = self.suit.format(Style::Compact);
                glyph.concat(self.rank.format(Style::Compact).as_str())
            },
            Style::Verbose => {
                let name = self.rank.format(Style::Verbose);
                let joined = name.concat(" of ");
                joined.concat(self.suit.format(Style::Verbose).as_str())
            },
        }
    }

    /// Draws a card by composing independent uniform draws of a rank and a
    /// suit; this does not model drawing without replacement from a deck,
    /// so repeated draws may repeat a card.
    pub fn sample() -> (c: Card)
        ensures
            Rank::spec_all().contains(c.spec_rank()),
            Suit::spec_all().contains(c.spec_suit()),
    {
        let rank = Rank::sample();
        let suit = Suit::sample();
        Card { rank, suit }
    }
}

/// Cards of the same suit are comparable by rank; cards of different suits
/// are not comparable at all.
impl PartialOrd for Card {
    fn partial_cmp(&self, other: &Self) -> (r: Option<Ordering>) {
        if self.suit == other.suit {
            let a = self.rank.ordinal();
            let b = other.rank.ordinal();
            if a < b {
                Some(Ordering::Less)
            } else if a == b {
                Some(Ordering::Equal)
            } else {
                Some(Ordering::Greater)
            }
        } else {
            None
        }
    }
}

impl vstd::std_specs::cmp::PartialOrdSpecImpl for Card {
    open spec fn obeys_partial_cmp_spec() -> bool {
        true
    }

    open spec fn partial_cmp_spec(&self, other: &Self) -> Option<Ordering> {
        if self.spec_suit() == other.spec_suit() {
            if self.spec_rank().spec_ordinal() < other.spec_rank().spec_ordinal() {
                Some(Ordering::Less)
            } else if self.spec_rank().spec_ordinal() == other.spec_rank().spec_ordinal() {
                Some(Ordering::Equal)
            } else {
                Some(Ordering::Greater)
            }
        } else {
            None
        }
    }
}

/// New card construction.
impl From<(Rank, Suit)> for Card {
    fn from(v: (Rank, Suit)) -> (r: Card) {
        Card { rank: v.0, suit: v.1 }
    }
}

impl vstd::std_specs::convert::FromSpecImpl<(Rank, Suit)> for Card {
    open spec fn obeys_from_spec() -> bool {
        true
    }

    closed spec fn from_spec(v: (Rank, Suit)) -> Card {
        Card::spec_new(v.0, v.1)
    }
}

/// Card construction with the arguments the other way round.
impl From<(Suit, Rank)> for Card {
    fn from(v: (Suit, Rank)) -> (r: Card) {
        Card { rank: v.1, suit: v.0 }
    }
}

impl vstd::std_specs::convert::FromSpecImpl<(Suit, Rank)> for Card {
    open spec fn obeys_from_spec() -> bool {
        true
    }

    closed spec fn from_spec(v: (Suit, Rank)) -> Card {
        Card::spec_new(v.1, v.0)
    }
}

/// Construction is argument-order-independent: either order of the rank and
/// the suit yields the same card, whose components are the arguments.
pub proof fn lemma_card_construction(r: Rank, s: Suit)
    ensures
        <Card as FromSpec<(Rank, Suit)>>::from_spec((r, s)) == <Card as FromSpec<(
            Suit,
            Rank,
        )>>::from_spec((s, r)),
        <Card as FromSpec<(Rank, Suit)>>::from_spec((r, s)).spec_rank() == r,
        <Card as FromSpec<(Rank, Suit)>>::from_spec((r, s)).spec_suit() == s,
{
}

/// Two cards are equal exactly when both the rank and the suit match.
pub proof fn lemma_card_eq(a: Card, b: Card)
    ensures
        (a == b) <==> (a.spec_rank() == b.spec_rank() && a.spec_suit() == b.spec_suit()),
{
    if a.spec_rank() == b.spec_rank() && a.spec_suit() == b.spec_suit() {
        assert(a =~= b);
    }
}

/// The partial order on cards: cards of different suits are incomparable in
/// both directions, and cards of the same suit compare as their ranks do.
pub proof fn lemma_card_partial_order(a: Card, b: Card)
    ensures
        a.spec_suit() != b.spec_suit() ==> PartialOrdSpec::partial_cmp_spec(&a, &b) is None
            && PartialOrdSpec::partial_cmp_spec(&b, &a) is None,
        a.spec_suit() == b.spec_suit() ==> PartialOrdSpec::partial_cmp_spec(&a, &b)
            == PartialOrdSpec::partial_cmp_spec(&a.spec_rank(), &b.spec_rank()),
{
}

} // verus!
