//! The thirteen ranks within a suit, ordered by their numeric ordinal with
//! Ace highest. Jack, Queen and King are the court (face) cards.

use core::cmp::Ordering;

use vstd::prelude::*;

use crate::error::Error;
use crate::sample::sample_below;
use crate::style::Style;
use crate::text::{ascii_or_glyph, decimal, eq_str, lower, lowercase, spec_fold};

verus! {

/// One of the thirteen rank values, Two through Ace. Every rank carries a
/// fixed ordinal, 2 through 14, which orders ranks totally; Ace is highest.
#[derive(Clone, Copy, Debug, Eq, Hash, PartialEq, Structural)]
pub enum Rank {
    Two,
    Three,
    Four,
    Five,
    Six,
    Seven,
    Eight,
    Nine,
    Ten,
    Jack,
    Queen,
    King,
    Ace,
}

impl Rank {
    /// The rank's numeric ordinal: 2 through 10 for the pip ranks, 11 to 13
    /// for Jack, Queen and King, and 14 for Ace.
    pub open spec fn spec_ordinal(self) -> int {
        match self {
            Rank::Two => 2,
            Rank::Three => 3,
            Rank::Four => 4,
            Rank::Five => 5,
            Rank::Six => 6,
            Rank::Seven => 7,
            Rank::Eight => 8,
            Rank::Nine => 9,
            Rank::Ten => 10,
            Rank::Jack => 11,
            Rank::Queen => 12,
            Rank::King => 13,
            Rank::Ace => 14,
        }
    }

    /// The numeric ordinal of the rank; Ace, the highest, has ordinal 14.
    pub fn ordinal(&self) -> (r: u8)
        ensures
            r as int == self.spec_ordinal(),
    {
        match *self {
            Rank::Two => 2,
            Rank::Three => 3,
            Rank::Four => 4,
            Rank::Five => 5,
            Rank::Six => 6,
            Rank::Seven => 7,
            Rank::Eight => 8,
            Rank::Nine => 9,
            Rank::Ten => 10,
            Rank::Jack => 11,
            Rank::Queen => 12,
            Rank::King => 13,
            Rank::Ace => 14,
        }
    }

    /// The thirteen ranks in their canonical order, Two up to Ace.
    pub open spec fn spec_all() -> Seq<Rank> {
        seq![
            Rank::Two,
            Rank::Three,
            Rank::Four,
            Rank::Five,
            Rank::Six,
            Rank::Seven,
            Rank::Eight,
            Rank::Nine,
            Rank::Ten,
            Rank::Jack,
            Rank::Queen,
            Rank::King,
            Rank::Ace,
        ]
    }

    /// All thirteen ranks in canonical order, for iteration and sampling
    /// bounds.
    pub fn all() -> (r: Vec<Rank>)
        ensures
            r@ == Rank::spec_all(),
    {
        let mut v: Vec<Rank> = Vec::new();
        v.push(Rank::Two);
        v.push(Rank::Three);
        v.push(Rank::Four);
        v.push(Rank::Five);
        v.push(Rank::Six);
        v.push(Rank::Seven);
        v.push(Rank::Eight);
        v.push(Rank::Nine);
        v.push(Rank::Ten);
        v.push(Rank::Jack);
        v.push(Rank::Queen);
        v.push(Rank::King);
        v.push(Rank::Ace);
        proof {
            assert(v@ =~= Rank::spec_all());
        }
        v
    }

    /// Reports whether a card of this rank is a face card (court card).
    /// Exactly Jack, Queen and King are face cards; Ace is the highest rank
    /// but is not one.
    pub fn face_card(&self) -> (r: bool)
        ensures
            r == (*self is Jack || *self is Queen || *self is King),
            r == (10 < self.spec_ordinal() && self.spec_ordinal() <= 13),
    {
        let value = self.ordinal();
        10 < value && value <= 13
    }

    /// The text `format` returns: in the compact style the decimal ordinal
    /// for pip ranks and the first letter of the name for Jack, Queen, King
    /// and Ace; in the verbose style the capitalized English name.
    pub open spec fn spec_format(self, style: Style) -> Seq<char> {
        match style {
            Style::Compact => match self {
                Rank::Two => "2"@,
                Rank::Three => "3"@,
                Rank::Four => "4"@,
                Rank::Five => "5"@,
                Rank::Six => "6"@,
                Rank::Seven => "7"@,
                Rank::Eight => "8"@,
                Rank::Nine => "9"@,
                Rank::Ten => "10"@,
                Rank::Jack => "J"@,
                Rank::Queen => "Q"@,
                Rank::King => "K"@,
                Rank::Ace => "A"@,
            },
            Style::Verbose => match self {
                Rank::Two => "Two"@,
                Rank::Three => "Three"@,
                Rank::Four => "Four"@,
                Rank::Five => "Five"@,
                Rank::Six => "Six"@,
                Rank::Seven => "Seven"@,
                Rank::Eight => "Eight"@,
                Rank::Nine => "Nine"@,
                Rank::Ten => "Ten"@,
                Rank::Jack => "Jack"@,
                Rank::Queen => "Queen"@,
                Rank::King => "King"@,
                Rank::Ace => "Ace"@,
            },
        }
    }

    /// Renders the rank: its number or single letter (compact), or its
    /// English name (verbose).
    pub fn format(&self, style: Style) -> (r: String)
        ensures
            r@ == self.spec_format(style),
    {
        let t: &str = match (style, *self) {
            (Style::Compact, Rank::Two) => "2",
            (Style::Compact, Rank::Three) => "3",
            (Style::Compact, Rank::Four) => "4",
            (Style::Compact, Rank::Five) => "5",
            (Style::Compact, Rank::Six) => "6",
            (Style::Compact, Rank::Seven) => "7",
            (Style::Compact, Rank::Eight) => "8",
            (Style::Compact, Rank::Nine) => "9",
            (Style::Compact, Rank::Ten) => "10",
            (Style::Compact, Rank::Jack) => "J",
            (Style::Compact, Rank::Queen) => "Q",
            (Style::Compact, Rank::King) => "K",
            (Style::Compact, Rank::Ace) => "A",
            (Style::Verbose, Rank::Two) => "Two",
            (Style::Verbose, Rank::Three) => "Three",
            (Style::Verbose, Rank::Four) => "Four",
            (Style::Verbose, Rank::Five) => "Five",
            (Style::Verbose, Rank::Six) => "Six",
            (Style::Verbose, Rank::Seven) => "Seven",
            (Style::Verbose, Rank::Eight) => "Eight",
            (Style::Verbose, Rank::Nine) => "Nine",
            (Style::Verbose, Rank::Ten) => "Ten",
            (Style::Verbose, Rank::Jack) => "Jack",
            (Style::Verbose, Rank::Queen) => "Queen",
            (Style::Verbose, Rank::King) => "King",
            (Style::Verbose, Rank::Ace) => "Ace",
        };
        t.to_owned()
    }

    /// The rank an already-lowercased text denotes, if any: a numeral ("1"
    /// and "14" both denote Ace, "2" to "13" the rest), a single-letter
    /// code, or an English name, including the classical synonyms "deuce",
    /// "trey" and "knave".
    pub open spec fn spec_parse_folded(l: Seq<char>) -> Option<Rank> {
        if l == "1"@ || l == "14"@ || l == "one"@ || l == "a"@ || l == "ace"@ {
            Some(Rank::Ace)
        } else if l == "2"@ || l == "two"@ || l == "d"@ || l == "deuce"@ {
            Some(Rank::Two)
        } else if l == "3"@ || l == "three"@ || l == "trey"@ {
            Some(Rank::Three)
        } else if l == "4"@ || l == "four"@ {
            Some(Rank::Four)
        } else if l == "5"@ || l == "five"@ {
            Some(Rank::Five)
        } else if l == "6"@ || l == "six"@ {
            Some(Rank::Six)
        } else if l == "7"@ || l == "seven"@ {
            Some(Rank::Seven)
        } else if l == "8"@ || l == "eight"@ {
            Some(Rank::Eight)
        } else if l == "9"@ || l == "nine"@ {
            Some(Rank::Nine)
        } else if l == "10"@ || l == "ten"@ || l == "t"@ {
            Some(Rank::Ten)
        } else if l == "11"@ || l == "jack"@ || l == "knave"@ || l == "j"@ {
            Some(Rank::Jack)
        } else if l == "12"@ || l == "queen"@ || l == "q"@ {
            Some(Rank::Queen)
        } else if l == "13"@ || l == "king"@ || l == "k"@ {
            Some(Rank::King)
        } else {
            None
        }
    }

    /// The rank a text denotes, if any: after case folding with
    /// `str::to_lowercase` it must be a numeral, a single-letter code or an
    /// English name.
    pub open spec fn spec_parse(s: Seq<char>) -> Option<Rank> {
        Rank::spec_parse_folded(spec_fold(s))
    }

    /// The rank an already-lowercased text denotes, if any.
    pub fn parse_folded(l: &str) -> (r: Option<Rank>)
        ensures
            r == Rank::spec_parse_folded(l@),
    {
        if eq_str(l, "1") || eq_str(l, "14") || eq_str(l, "one") || eq_str(l, "a") || eq_str(
            l,
            "ace",
        ) {
            Some(Rank::Ace)
        } else if eq_str(l, "2") || eq_str(l, "two") || eq_str(l, "d") || eq_str(l, "deuce") {
            Some(Rank::Two)
        } else if eq_str(l, "3") || eq_str(l, "three") || eq_str(l, "trey") {
            Some(Rank::Three)
        } else if eq_str(l, "4") || eq_str(l, "four") {
            Some(Rank::Four)
        } else if eq_str(l, "5") || eq_str(l, "five") {
            Some(Rank::Five)
        } else if eq_str(l, "6") || eq_str(l, "six") {
            Some(Rank::Six)
        } else if eq_str(l, "7") || eq_str(l, "seven") {
            Some(Rank::Seven)
        } else if eq_str(l, "8") || eq_str(l, "eight") {
            Some(Rank::Eight)
        } else if eq_str(l, "9") || eq_str(l, "nine") {
            Some(Rank::Nine)
        } else if eq_str(l, "10") || eq_str(l, "ten") || eq_str(l, "t") {
            Some(Rank::Ten)
        } else if eq_str(l, "11") || eq_str(l, "jack") || eq_str(l, "knave") || eq_str(l, "j") {
            Some(Rank::Jack)
        } else if eq_str(l, "12") || eq_str(l, "queen") || eq_str(l, "q") {
            Some(Rank::Queen)
        } else if eq_str(l, "13") || eq_str(l, "king") || eq_str(l, "k") {
            Some(Rank::King)
        } else {
            None
        }
    }

    /// Parses a rank, case-insensitively, from a numeral, a single-letter
    /// code or an English name; any other text fails with `Error::ParseRank`
    /// carrying the text verbatim.
    pub fn parse(s: &str) -> (r: Result<Rank, Error>)
        ensures
            r matches Ok(v) ==> Rank::spec_parse(s@) == Some(v),
            r matches Err(e) ==> Rank::spec_parse(s@) is None && (e matches Error::ParseRank(t)
                && t@ == s@),
    {
        let folded = lowercase(s);
        match Rank::parse_folded(folded.as_str()) {
            Some(v) => Ok(v),
            None => Err(Error::ParseRank(s.to_owned())),
        }
    }

    /// The rank at a given position of the canonical order.
    pub fn from_index(i: usize) -> (r: Rank)
        requires
            i < Rank::spec_all().len(),
        ensures
            r == Rank::spec_all()[i as int],
    {
        if i == 0 {
            Rank::Two
        } else if i == 1 {
            Rank::Three
        } else if i == 2 {
            Rank::Four
        } else if i == 3 {
            Rank::Five
        } else if i == 4 {
            Rank::Six
        } else if i == 5 {
            Rank::Seven
        } else if i == 6 {
            Rank::Eight
        } else if i == 7 {
            Rank::Nine
        } else if i == 8 {
            Rank::Ten
        } else if i == 9 {
            Rank::Jack
        } else if i == 10 {
            Rank::Queen
        } else if i == 11 {
            Rank::King
        } else {
            Rank::Ace
        }
    }

    /// Draws one rank uniformly from the thirteen.
    pub fn sample() -> (r: Rank)
        ensures
            Rank::spec_all().contains(r),
    {
        let i = sample_below(13);
        let r = Rank::from_index(i);
        proof {
            let ghost k: int = i as int;
            assert(0 <= k && k < Rank::spec_all().len() && r == Rank::spec_all()[k]);
        }
        r
    }
}

/// A rank compares to another by ordinal alone; the order is total, with
/// Ace highest.
impl PartialOrd for Rank {
    fn partial_cmp(&self, other: &Self) -> (r: Option<Ordering>) {
        let a = self.ordinal();
        let b = other.ordinal();
        if a < b {
            Some(Ordering::Less)
        } else if a == b {
            Some(Ordering::Equal)
        } else {
            Some(Ordering::Greater)
        }
    }
}

impl vstd::std_specs::cmp::PartialOrdSpecImpl for Rank {
    open spec fn obeys_partial_cmp_spec() -> bool {
        true
    }

    open spec fn partial_cmp_spec(&self, other: &Self) -> Option<Ordering> {
        if self.spec_ordinal() < other.spec_ordinal() {
            Some(Ordering::Less)
        } else if self.spec_ordinal() == other.spec_ordinal() {
            Some(Ordering::Equal)
        } else {
            Some(Ordering::Greater)
        }
    }
}

/// Round trip: every rank, formatted in either style, parses back to
/// itself.
pub proof fn lemma_rank_round_trip(r: Rank, style: Style)
    ensures
        Rank::spec_parse(r.spec_format(style)) == Some(r),
{
    reveal_strlit("1");
    reveal_strlit("14");
    reveal_strlit("one");
    reveal_strlit("a");
    reveal_strlit("ace");
    reveal_strlit("2");
    reveal_strlit("two");
    reveal_strlit("d");
    reveal_strlit("deuce");
    reveal_strlit("3");
    reveal_strlit("three");
    reveal_strlit("trey");
    reveal_strlit("4");
    reveal_strlit("four");
    reveal_strlit("5");
    reveal_strlit("five");
    reveal_strlit("6");
    reveal_strlit("six");
    reveal_strlit("7");
    reveal_strlit("seven");
    reveal_strlit("8");
    reveal_strlit("eight");
    reveal_strlit("9");
    reveal_strlit("nine");
    reveal_strlit("10");
    reveal_strlit("ten");
    reveal_strlit("t");
    reveal_strlit("11");
    reveal_strlit("jack");
    reveal_strlit("knave");
    reveal_strlit("j");
    reveal_strlit("12");
    reveal_strlit("queen");
    reveal_strlit("q");
    reveal_strlit("13");
    reveal_strlit("king");
    reveal_strlit("k");
    reveal_strlit("J");
    reveal_strlit("Q");
    reveal_strlit("K");
    reveal_strlit("A");
    reveal_strlit("Two");
    reveal_strlit("Three");
    reveal_strlit("Four");
    reveal_strlit("Five");
    reveal_strlit("Six");
    reveal_strlit("Seven");
    reveal_strlit("Eight");
    reveal_strlit("Nine");
    reveal_strlit("Ten");
    reveal_strlit("Jack");
    reveal_strlit("Queen");
    reveal_strlit("King");
    reveal_strlit("Ace");
    reveal_with_fuel(ascii_or_glyph, 10);
    // Index facts that separate same-length candidates of earlier branches
    // from the text being parsed back.
    assert("1"@[0] == '1' && "2"@[0] == '2' && "3"@[0] == '3' && "4"@[0] == '4' && "5"@[0] == '5'
        && "6"@[0] == '6' && "7"@[0] == '7' && "8"@[0] == '8' && "9"@[0] == '9');
    assert("a"@[0] == 'a' && "d"@[0] == 'd' && "t"@[0] == 't' && "j"@[0] == 'j' && "q"@[0] == 'q'
        && "k"@[0] == 'k');
    assert("14"@[0] == '1' && "14"@[1] == '4');
    assert("10"@[0] == '1' && "10"@[1] == '0');
    assert("11"@[0] == '1' && "11"@[1] == '1');
    assert("12"@[0] == '1' && "12"@[1] == '2');
    assert("13"@[0] == '1' && "13"@[1] == '3');
    assert("one"@[0] == 'o' && "ace"@[0] == 'a' && "two"@[0] == 't' && "ten"@[0] == 't' && "six"@[0]
        == 's');
    assert("two"@[1] == 'w' && "ten"@[1] == 'e');
    assert("deuce"@[0] == 'd' && "three"@[0] == 't' && "seven"@[0] == 's' && "eight"@[0] == 'e'
        && "queen"@[0] == 'q' && "knave"@[0] == 'k');
    assert("trey"@[0] == 't' && "four"@[0] == 'f' && "five"@[0] == 'f' && "nine"@[0] == 'n'
        && "jack"@[0] == 'j' && "king"@[0] == 'k');
    assert("four"@[1] == 'o' && "five"@[1] == 'i');
    match (r, style) {
        (Rank::Two, Style::Compact) => {
            assert(ascii_or_glyph("2"@));
            assert(lower("2"@) =~= "2"@);
            assert(Rank::spec_parse("2"@) == Some(Rank::Two));
        },
        (Rank::Three, Style::Compact) => {
            assert(ascii_or_glyph("3"@));
            assert(lower("3"@) =~= "3"@);
            assert(Rank::spec_parse("3"@) == Some(Rank::Three));
        },
        (Rank::Four, Style::Compact) => {
            assert(ascii_or_glyph("4"@));
            assert(lower("4"@) =~= "4"@);
            assert(Rank::spec_parse("4"@) == Some(Rank::Four));
        },
        (Rank::Five, Style::Compact) => {
            assert(ascii_or_glyph("5"@));
            assert(lower("5"@) =~= "5"@);
            assert(Rank::spec_parse("5"@) == Some(Rank::Five));
        },
        (Rank::Six, Style::Compact) => {
            assert(ascii_or_glyph("6"@));
            assert(lower("6"@) =~= "6"@);
            assert(Rank::spec_parse("6"@) == Some(Rank::Six));
        },
        (Rank::Seven, Style::Compact) => {
            assert(ascii_or_glyph("7"@));
            assert(lower("7"@) =~= "7"@);
            assert(Rank::spec_parse("7"@) == Some(Rank::Seven));
        },
        (Rank::Eight, Style::Compact) => {
            assert(ascii_or_glyph("8"@));
            assert(lower("8"@) =~= "8"@);
            assert(Rank::spec_parse("8"@) == Some(Rank::Eight));
        },
        (Rank::Nine, Style::Compact) => {
            assert(ascii_or_glyph("9"@));
            assert(lower("9"@) =~= "9"@);
            assert(Rank::spec_parse("9"@) == Some(Rank::Nine));
        },
        (Rank::Ten, Style::Compact) => {
            assert(ascii_or_glyph("10"@));
            assert(lower("10"@) =~= "10"@);
            assert(Rank::spec_parse("10"@) == Some(Rank::Ten));
        },
        (Rank::Jack, Style::Compact) => {
            assert(ascii_or_glyph("J"@));
            assert(lower("J"@) =~= "j"@);
            assert(Rank::spec_parse("J"@) == Some(Rank::Jack));
        },
        (Rank::Queen, Style::Compact) => {
            assert(ascii_or_glyph("Q"@));
            assert(lower("Q"@) =~= "q"@);
            assert(Rank::spec_parse("Q"@) == Some(Rank::Queen));
        },
        (Rank::King, Style::Compact) => {
            assert(ascii_or_glyph("K"@));
            assert(lower("K"@) =~= "k"@);
            assert(Rank::spec_parse("K"@) == Some(Rank::King));
        },
        (Rank::Ace, Style::Compact) => {
            assert(ascii_or_glyph("A"@));
            assert(lower("A"@) =~= "a"@);
            assert(Rank::spec_parse("A"@) == Some(Rank::Ace));
        },
        (Rank::Two, Style::Verbose) => {
            assert(ascii_or_glyph("Two"@));
            assert(lower("Two"@) =~= "two"@);
            assert(Rank::spec_parse("Two"@) == Some(Rank::Two));
        },
        (Rank::Three, Style::Verbose) => {
            assert(ascii_or_glyph("Three"@));
            assert(lower("Three"@) =~= "three"@);
            assert(Rank::spec_parse("Three"@) == Some(Rank::Three));
        },
        (Rank::Four, Style::Verbose) => {
            assert(ascii_or_glyph("Four"@));
            assert(lower("Four"@) =~= "four"@);
            assert(Rank::spec_parse("Four"@) == Some(Rank::Four));
        },
        (Rank::Five, Style::Verbose) => {
            assert(ascii_or_glyph("Five"@));
            assert(lower("Five"@) =~= "five"@);
            assert(Rank::spec_parse("Five"@) == Some(Rank::Five));
        },
        (Rank::Six, Style::Verbose) => {
            assert(ascii_or_glyph("Six"@));
            assert(lower("Six"@) =~= "six"@);
            assert(Rank::spec_parse("Six"@) == Some(Rank::Six));
        },
        (Rank::Seven, Style::Verbose) => {
            assert(ascii_or_glyph("Seven"@));
            assert(lower("Seven"@) =~= "seven"@);
            assert(Rank::spec_parse("Seven"@) == Some(Rank::Seven));
        },
        (Rank::Eight, Style::Verbose) => {
            assert(ascii_or_glyph("Eight"@));
            assert(lower("Eight"@) =~= "eight"@);
            assert(Rank::spec_parse("Eight"@) == Some(Rank::Eight));
        },
        (Rank::Nine, Style::Verbose) => {
            assert(ascii_or_glyph("Nine"@));
            assert(lower("Nine"@) =~= "nine"@);
            assert(Rank::spec_parse("Nine"@) == Some(Rank::Nine));
        },
        (Rank::Ten, Style::Verbose) => {
            assert(ascii_or_glyph("Ten"@));
            assert(lower("Ten"@) =~= "ten"@);
            assert(Rank::spec_parse("Ten"@) == Some(Rank::Ten));
        },
        (Rank::Jack, Style::Verbose) => {
            assert(ascii_or_glyph("Jack"@));
            assert(lower("Jack"@) =~= "jack"@);
            assert(Rank::spec_parse("Jack"@) == Some(Rank::Jack));
        },
        (Rank::Queen, Style::Verbose) => {
            assert(ascii_or_glyph("Queen"@));
            assert(lower("Queen"@) =~= "queen"@);
            assert(Rank::spec_parse("Queen"@) == Some(Rank::Queen));
        },
        (Rank::King, Style::Verbose) => {
            assert(ascii_or_glyph("King"@));
            assert(lower("King"@) =~= "king"@);
            assert(Rank::spec_parse("King"@) == Some(Rank::King));
        },
        (Rank::Ace, Style::Verbose) => {
            assert(ascii_or_glyph("Ace"@));
            assert(lower("Ace"@) =~= "ace"@);
            assert(Rank::spec_parse("Ace"@) == Some(Rank::Ace));
        },
    }
}

/// For the pip ranks, Two to Ten, the compact form is the decimal ordinal
/// written out as text.
pub proof fn lemma_rank_compact_decimal(r: Rank)
    requires
        r.spec_ordinal() <= 10,
    ensures
        r.spec_format(Style::Compact) == decimal(r.spec_ordinal()),
{
    reveal_strlit("2");
    reveal_strlit("3");
    reveal_strlit("4");
    reveal_strlit("5");
    reveal_strlit("6");
    reveal_strlit("7");
    reveal_strlit("8");
    reveal_strlit("9");
    reveal_strlit("10");
    match r {
        Rank::Two => assert("2"@ =~= decimal(2)),
        Rank::Three => assert("3"@ =~= decimal(3)),
        Rank::Four => assert("4"@ =~= decimal(4)),
        Rank::Five => assert("5"@ =~= decimal(5)),
        Rank::Six => assert("6"@ =~= decimal(6)),
        Rank::Seven => assert("7"@ =~= decimal(7)),
        Rank::Eight => assert("8"@ =~= decimal(8)),
        Rank::Nine => assert("9"@ =~= decimal(9)),
        Rank::Ten => assert("10"@ =~= decimal(10)),
        _ => {},
    }
}

/// For Jack, Queen, King and Ace the compact form is a single letter: the
/// first character of the verbose name.
pub proof fn lemma_rank_compact_initial(r: Rank)
    requires
        10 < r.spec_ordinal(),
    ensures
        r.spec_format(Style::Compact).len() == 1,
        r.spec_format(Style::Compact)[0] == r.spec_format(Style::Verbose)[0],
{
    reveal_strlit("J");
    reveal_strlit("Q");
    reveal_strlit("K");
    reveal_strlit("A");
    reveal_strlit("Jack");
    reveal_strlit("Queen");
    reveal_strlit("King");
    reveal_strlit("Ace");
}

} // verus!
