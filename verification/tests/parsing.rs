use deck::{Error, Rank, Style, Suit};

#[test]
fn suit_round_trips_in_both_styles() {
    for suit in Suit::all() {
        assert_eq!(Suit::parse(&suit.format(Style::Compact)), Ok(suit));
        assert_eq!(Suit::parse(&suit.format(Style::Verbose)), Ok(suit));
    }
}

#[test]
fn rank_round_trips_in_both_styles() {
    for rank in Rank::all() {
        assert_eq!(Rank::parse(&rank.format(Style::Compact)), Ok(rank));
        assert_eq!(Rank::parse(&rank.format(Style::Verbose)), Ok(rank));
    }
}

#[test]
fn suit_parses_first_letter() {
    assert_eq!(Suit::parse("c"), Ok(Suit::Clubs));
    assert_eq!(Suit::parse("d"), Ok(Suit::Diamonds));
    assert_eq!(Suit::parse("h"), Ok(Suit::Hearts));
    assert_eq!(Suit::parse("s"), Ok(Suit::Spades));
}

#[test]
fn suit_parses_outline_glyphs() {
    assert_eq!(Suit::parse("♧"), Ok(Suit::Clubs));
    assert_eq!(Suit::parse("♢"), Ok(Suit::Diamonds));
    assert_eq!(Suit::parse("♡"), Ok(Suit::Hearts));
    assert_eq!(Suit::parse("♤"), Ok(Suit::Spades));
}

#[test]
fn suit_parsing_ignores_case() {
    assert_eq!(Suit::parse("CLUBS"), Ok(Suit::Clubs));
    assert_eq!(Suit::parse("HeArTs"), Ok(Suit::Hearts));
    assert_eq!(Suit::parse("Spade"), Ok(Suit::Spades));
    assert_eq!(Suit::parse("D"), Ok(Suit::Diamonds));
}

#[test]
fn rank_parses_numerals() {
    assert_eq!(Rank::parse("1"), Ok(Rank::Ace));
    assert_eq!(Rank::parse("14"), Ok(Rank::Ace));
    assert_eq!(Rank::parse("2"), Ok(Rank::Two));
    assert_eq!(Rank::parse("10"), Ok(Rank::Ten));
    assert_eq!(Rank::parse("11"), Ok(Rank::Jack));
    assert_eq!(Rank::parse("12"), Ok(Rank::Queen));
    assert_eq!(Rank::parse("13"), Ok(Rank::King));
}

#[test]
fn rank_parses_letters() {
    assert_eq!(Rank::parse("J"), Ok(Rank::Jack));
    assert_eq!(Rank::parse("a"), Ok(Rank::Ace));
    assert_eq!(Rank::parse("d"), Ok(Rank::Two));
    assert_eq!(Rank::parse("t"), Ok(Rank::Ten));
    assert_eq!(Rank::parse("q"), Ok(Rank::Queen));
    assert_eq!(Rank::parse("K"), Ok(Rank::King));
}

#[test]
fn rank_parses_classical_synonyms() {
    assert_eq!(Rank::parse("one"), Ok(Rank::Ace));
    assert_eq!(Rank::parse("deuce"), Ok(Rank::Two));
    assert_eq!(Rank::parse("trey"), Ok(Rank::Three));
    assert_eq!(Rank::parse("knave"), Ok(Rank::Jack));
    assert_eq!(Rank::parse("Knave"), Ok(Rank::Jack));
}

#[test]
fn unrecognized_text_fails_with_the_original_text() {
    let suit_error = Error::ParseSuit("f".to_owned());
    assert_eq!(Suit::parse("f"), Err(suit_error));
    let rank_error = Error::ParseRank("f".to_owned());
    assert_eq!(Rank::parse("f"), Err(rank_error));
}

#[test]
fn error_keeps_the_text_verbatim_not_lowercased() {
    assert_eq!(
        Suit::parse("Frogs"),
        Err(Error::ParseSuit("Frogs".to_owned()))
    );
    assert_eq!(Rank::parse("Zero"), Err(Error::ParseRank("Zero".to_owned())));
}

#[test]
fn parsing_folds_unicode_case_not_just_ascii() {
    // U+212A KELVIN SIGN lowercases to the ASCII letter k.
    assert_eq!(Rank::parse("\u{212A}"), Ok(Rank::King));
    assert_eq!(Rank::parse("\u{212A}ING"), Ok(Rank::King));
    assert_eq!(Rank::parse("\u{212A}nave"), Ok(Rank::Jack));
    assert_eq!(Rank::parse("jac\u{212A}"), Ok(Rank::Jack));
}

#[test]
fn error_message_names_the_alphabet_and_quotes_the_text() {
    let suit_error = Suit::parse("f").unwrap_err();
    assert_eq!(suit_error.message(), "cannot parse \"f\" into Suit");
    let rank_error = Rank::parse("f").unwrap_err();
    assert_eq!(rank_error.message(), "cannot parse \"f\" into Rank");
}

#[test]
fn folded_text_parses_directly() {
    assert_eq!(Suit::parse_folded("clubs"), Some(Suit::Clubs));
    assert_eq!(Suit::parse_folded("Clubs"), None);
    assert_eq!(Rank::parse_folded("king"), Some(Rank::King));
    assert_eq!(Rank::parse_folded("King"), None);
}

#[test]
fn empty_text_fails() {
    assert_eq!(Suit::parse(""), Err(Error::ParseSuit(String::new())));
    assert_eq!(Rank::parse(""), Err(Error::ParseRank(String::new())));
}
