//! The four suits of the French-suited pack: clubs (♣), diamonds (♦),
//! hearts (♥) and spades (♠).

use vstd::prelude::*;

use crate::error::Error;
use crate::sample::sample_below;
use crate::style::Style;
use crate::text::{ascii_or_glyph, eq_str, lower, lowercase, spec_fold};

verus! {

/// One of the four suit categories. Suits carry no further state and are
/// not ranked relative to each other.
#[derive(Clone, Copy, Debug, Eq, Hash, PartialEq, Structural)]
pub enum Suit {
    Clubs,
    Diamonds,
    Hearts,
    Spades,
}

impl Suit {
    /// The four suits in their canonical order.
    pub open spec fn spec_all() -> Seq<Suit> {
        seq![Suit::Clubs, Suit::Diamonds, Suit::Hearts, Suit::Spades]
    }

    /// All four suits in canonical order, for iteration and sampling bounds.
    pub fn all() -> (r: Vec<Suit>)
        ensures
            r@ == Suit::spec_all(),
    {
        let mut v: Vec<Suit> = Vec::new();
        v.push(Suit::Clubs);
        v.push(Suit::Diamonds);
        v.push(Suit::Hearts);
        v.push(Suit::Spades);
        proof {
            assert(v@ =~= Suit::spec_all());
        }
        v
    }

    /// The text `format` returns: the glyph in the compact style, the
    /// capitalized English name in the verbose style.
    pub open spec fn spec_format(self, style: Style) -> Seq<char> {
        match style {
            Style::Compact => match self {
                Suit::Clubs => "♣"@,
                Suit::Diamonds => "♦"@,
                Suit::Hearts => "♥"@,
                Suit::Spades => "♠"@,
            },
            Style::Verbose => match self {
                Suit::Clubs => "Clubs"@,
                Suit::Diamonds => "Diamonds"@,
                Suit::Hearts => "Hearts"@,
                Suit::Spades => "Spades"@,
            },
        }
    }

    /// Renders the suit: its glyph (compact) or its English name (verbose).
    pub fn format(&self, style: Style) -> (r: String)
        ensures
            r@ == self.spec_format(style),
    {
        let t: &str = match (style, *self) {
            (Style::Compact, Suit::Clubs) => "♣",
            (Style::Compact, Suit::Diamonds) => "♦",
            (Style::Compact, Suit::Hearts) => "♥",
            (Style::Compact, Suit::Spades) => "♠",
            (Style::Verbose, Suit::Clubs) => "Clubs",
            (Style::Verbose, Suit::Diamonds) => "Diamonds",
            (Style::Verbose, Suit::Hearts) => "Hearts",
            (Style::Verbose, Suit::Spades) => "Spades",
        };
        t.to_owned()
    }

    /// The suit an already-lowercased text denotes, if any: the suit's
    /// glyph (filled or outline), its first letter, or its name (singular
    /// or plural).
    pub open spec fn spec_parse_folded(l: Seq<char>) -> Option<Suit> {
        if l == "♣"@ || l == "♧"@ || l == "c"@ || l == "club"@ || l == "clubs"@ {
            Some(Suit::Clubs)
        } else if l == "♦"@ || l == "♢"@ || l == "d"@ || l == "diamond"@ || l == "diamonds"@ {
            Some(Suit::Diamonds)
        } else if l == "♥"@ || l == "♡"@ || l == "h"@ || l == "heart"@ || l == "hearts"@ {
            Some(Suit::Hearts)
        } else if l == "♠"@ || l == "♤"@ || l == "s"@ || l == "spade"@ || l == "spades"@ {
            Some(Suit::Spades)
        } else {
            None
        }
    }

    /// The suit a text denotes, if any: after case folding with
    /// `str::to_lowercase` it must be the suit's glyph (filled or outline),
    /// its first letter, or its name (singular or plural).
    pub open spec fn spec_parse(s: Seq<char>) -> Option<Suit> {
        Suit::spec_parse_folded(spec_fold(s))
    }

    /// The suit an already-lowercased text denotes, if any.
    pub fn parse_folded(l: &str) -> (r: Option<Suit>)
        ensures
            r == Suit::spec_parse_folded(l@),
    {
        if eq_str(l, "♣") || eq_str(l, "♧") || eq_str(l, "c") || eq_str(l, "club") || eq_str(
            l,
            "clubs",
        ) {
            Some(Suit::Clubs)
        } else if eq_str(l, "♦") || eq_str(l, "♢") || eq_str(l, "d") || eq_str(l, "diamond")
            || eq_str(l, "diamonds") {
            Some(Suit::Diamonds)
        } else if eq_str(l, "♥") || eq_str(l, "♡") || eq_str(l, "h") || eq_str(l, "heart")
            || eq_str(l, "hearts") {
            Some(Suit::Hearts)
        } else if eq_str(l, "♠") || eq_str(l, "♤") || eq_str(l, "s") || eq_str(l, "spade")
            || eq_str(l, "spades") {
            Some(Suit::Spades)
        } else {
            None
        }
    }

    /// Parses a suit, case-insensitively, from its glyph, first letter or
    /// name; any other text fails with `Error::ParseSuit` carrying the text
    /// verbatim.
    pub fn parse(s: &str) -> (r: Result<Suit, Error>)
        ensures
            r matches Ok(v) ==> Suit::spec_parse(s@) == Some(v),
            r matches Err(e) ==> Suit::spec_parse(s@) is None && (e matches Error::ParseSuit(t)
                && t@ == s@),
    {
        let folded = lowercase(s);
        match Suit::parse_folded(folded.as_str()) {
            Some(v) => Ok(v),
            None => Err(Error::ParseSuit(s.to_owned())),
        }
    }

    /// The suit at a given position of the canonical order.
    pub fn from_index(i: usize) -> (r: Suit)
        requires
            i < Suit::spec_all().len(),
        ensures
            r == Suit::spec_all()[i as int],
    {
        if i == 0 {
            Suit::Clubs
        } else if i == 1 {
            Suit::Diamonds
        } else if i == 2 {
            Suit::Hearts
        } else {
            Suit::Spades
        }
    }

    /// Draws one suit uniformly from the four.
    pub fn sample() -> (r: Suit)
        ensures
            Suit::spec_all().contains(r),
    {
        let i = sample_below(4);
        let s = Suit::from_index(i);
        proof {
            let ghost k: int = i as int;
            assert(0 <= k && k < Suit::spec_all().len() && s == Suit::spec_all()[k]);
        }
        s
    }
}

/// Round trip: every suit, formatted in either style, parses back to itself.
pub proof fn lemma_suit_round_trip(s: Suit, style: Style)
    ensures
        Suit::spec_parse(s.spec_format(style)) == Some(s),
{
    reveal_strlit("♣");
    reveal_strlit("♧");
    reveal_strlit("c");
    reveal_strlit("club");
    reveal_strlit("clubs");
    reveal_strlit("♦");
    reveal_strlit("♢");
    reveal_strlit("d");
    reveal_strlit("diamond");
    reveal_strlit("diamonds");
    reveal_strlit("♥");
    reveal_strlit("♡");
    reveal_strlit("h");
    reveal_strlit("heart");
    reveal_strlit("hearts");
    reveal_strlit("♠");
    reveal_strlit("♤");
    reveal_strlit("s");
    reveal_strlit("spade");
    reveal_strlit("spades");
    reveal_strlit("Clubs");
    reveal_strlit("Diamonds");
    reveal_strlit("Hearts");
    reveal_strlit("Spades");
    reveal_with_fuel(ascii_or_glyph, 10);
    // Index facts that separate the single-character candidates of the
    // earlier branches from the glyph being parsed.
    assert("♣"@[0] == '♣' && "♧"@[0] == '♧' && "c"@[0] == 'c');
    assert("♦"@[0] == '♦' && "♢"@[0] == '♢' && "d"@[0] == 'd');
    assert("♥"@[0] == '♥' && "♡"@[0] == '♡' && "h"@[0] == 'h');
    assert("♠"@[0] == '♠');
    match (s, style) {
        (Suit::Clubs, Style::Compact) => {
            assert(ascii_or_glyph("♣"@));
            assert(lower("♣"@) =~= "♣"@);
            assert(Suit::spec_parse("♣"@) == Some(Suit::Clubs));
        },
        (Suit::Clubs, Style::Verbose) => {
            assert(ascii_or_glyph("Clubs"@));
            assert(lower("Clubs"@) =~= "clubs"@);
            assert(Suit::spec_parse("Clubs"@) == Some(Suit::Clubs));
        },
        (Suit::Diamonds, Style::Compact) => {
            assert(ascii_or_glyph("♦"@));
            assert(lower("♦"@) =~= "♦"@);
            assert(Suit::spec_parse("♦"@) == Some(Suit::Diamonds));
        },
        (Suit::Diamonds, Style::Verbose) => {
            assert(ascii_or_glyph("Diamonds"@));
            assert(lower("Diamonds"@) =~= "diamonds"@);
            assert(Suit::spec_parse("Diamonds"@) == Some(Suit::Diamonds));
        },
        (Suit::Hearts, Style::Compact) => {
            assert(ascii_or_glyph("♥"@));
            assert(lower("♥"@) =~= "♥"@);
            assert(Suit::spec_parse("♥"@) == Some(Suit::Hearts));
        },
        (Suit::Hearts, Style::Verbose) => {
            assert(ascii_or_glyph("Hearts"@));
            assert(lower("Hearts"@) =~= "hearts"@);
            assert(Suit::spec_parse("Hearts"@) == Some(Suit::Hearts));
        },
        (Suit::Spades, Style::Compact) => {
            assert(ascii_or_glyph("♠"@));
            assert(lower("♠"@) =~= "♠"@);
            assert(Suit::spec_parse("♠"@) == Some(Suit::Spades));
        },
        (Suit::Spades, Style::Verbose) => {
            assert(ascii_or_glyph("Spades"@));
            assert(lower("Spades"@) =~= "spades"@);
            assert("spades"@[0] == 's' && "hearts"@[0] == 'h');
            assert(Suit::spec_parse("Spades"@) == Some(Suit::Spades));
        },
    }
}

} // verus!
