//! A domain model for a standard 52-card French-suited deck: four suits and
//! thirteen ranks, composed into cards, with parsing, two formatting styles,
//! a same-suit partial order on cards, and uniform random sampling.

mod card;
mod error;
mod rank;
mod sample;
mod style;
mod suit;
mod text;

pub use card::Card;
pub use card::lemma_card_construction;
pub use card::lemma_card_eq;
pub use card::lemma_card_partial_order;
pub use error::Error;
pub use rank::Rank;
pub use rank::lemma_rank_compact_decimal;
pub use rank::lemma_rank_compact_initial;
pub use rank::lemma_rank_round_trip;
pub use style::Style;
pub use suit::Suit;
pub use suit::lemma_suit_round_trip;
pub use text::ascii_or_glyph;
pub use text::char_ascii_or_glyph;
pub use text::decimal;
pub use text::digit_char;
pub use text::lower;
pub use text::lower_char;
pub use text::lower_of;
pub use text::spec_fold;
