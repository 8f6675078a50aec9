use playing_card::error::ParseError;
use playing_card::suit::Suit;

#[test]
fn suit_tokens_parse_in_either_case() {
    let tokens = [
        ("c", "C", Suit::Clubs),
        ("d", "D", Suit::Diamonds),
        ("h", "H", Suit::Hearts),
        ("s", "S", Suit::Spades),
    ];
    for (lower, upper, suit) in tokens.iter() {
        assert_eq!(Suit::from_str(lower), Ok(*suit));
        assert_eq!(Suit::from_str(upper), Ok(*suit));
    }
}

#[test]
fn suit_parse_rejects_other_text() {
    for s in ["", "x", "a", "ss", "Spades", " s", "1"] {
        assert_eq!(Suit::from_str(s), Err(ParseError::InvalidSuit));
    }
}

#[test]
fn suit_value_round_trip() {
    for v in 0u8..4 {
        assert_eq!(Suit::from_value(v).unwrap().to_value(), v);
    }
    assert_eq!(Suit::from_value(0), Ok(Suit::Clubs));
    assert_eq!(Suit::from_value(3), Ok(Suit::Spades));
    assert_eq!(Suit::from_value(4), Err(ParseError::InvalidSuitValue));
    assert_eq!(Suit::from_value(255), Err(ParseError::InvalidSuitValue));
}
