use playing_card::card::Card;
use playing_card::error::ParseError;
use playing_card::rank::Rank;
use playing_card::suit::Suit;

const RANKS: [Rank; 13] = [
    Rank::Two,
    Rank::Three,
    Rank::Four,
    Rank::Five,
    Rank::Six,
    Rank::Seven,
    Rank::Eight,
    Rank::Nine,
    Rank::Ten,
    Rank::Jack,
    Rank::Queen,
    Rank::King,
    Rank::Ace,
];

const SUITS: [Suit; 4] = [Suit::Clubs, Suit::Diamonds, Suit::Hearts, Suit::Spades];

fn test_card_str(string: &str, rank: Rank, suit: Suit) {
    let card = Card::from_str(string).unwrap();
    test_card(&card, rank, suit);
}

fn test_card(card: &Card, rank: Rank, suit: Suit) {
    assert_eq!(card.rank(), rank);
    assert_eq!(card.suit(), suit);
}

fn test_card_invalid(string: &str) {
    let value = Rank::from_str(string);
    assert!(value.is_err())
}

#[test]
fn test_card_from_str() {
    test_card_str("As", Rank::Ace, Suit::Spades);
    test_card_str("2s", Rank::Two, Suit::Spades);
}

#[test]
fn test_invalid_card() {
    test_card_invalid("");
    test_card_invalid("Asa");
    test_card_invalid("Ax");
    test_card_invalid("0s");
}

#[test]
fn card_parse_failures() {
    assert_eq!(Card::from_str("").err(), Some(ParseError::InvalidCardLength));
    assert_eq!(Card::from_str("Asa").err(), Some(ParseError::InvalidCardLength));
    assert_eq!(Card::from_str("A").err(), Some(ParseError::InvalidCardLength));
    assert_eq!(Card::from_str("Ax").err(), Some(ParseError::InvalidSuit));
    assert_eq!(Card::from_str("0s").err(), Some(ParseError::InvalidRank));
    assert_eq!(Card::from_str("0x").err(), Some(ParseError::InvalidRank));
}

#[test]
fn card_parse_two_characters_not_bytes() {
    assert_eq!(Card::from_str("Aé").err(), Some(ParseError::InvalidSuit));
    assert_eq!(Card::from_str("és").err(), Some(ParseError::InvalidRank));
    assert_eq!(Card::from_str("é").err(), Some(ParseError::InvalidCardLength));
}

#[test]
fn ace_of_spades_end_to_end() {
    let card = Card::from_str("As").unwrap();
    assert_eq!(card.rank(), Rank::Ace);
    assert_eq!(card.suit(), Suit::Spades);
    assert_eq!(card.to_value(), 51);
    assert_eq!(card.get_bitfield(), 1u64 << 51);
}

#[test]
fn two_of_clubs_end_to_end() {
    let card = Card::from_str("2c").unwrap();
    assert_eq!(card.rank(), Rank::Two);
    assert_eq!(card.suit(), Suit::Clubs);
    assert_eq!(card.to_value(), 0);
    assert_eq!(card.get_bitfield(), 1);
}

#[test]
fn ten_of_diamonds_lower_and_upper_case() {
    let lower = Card::from_str("td").unwrap();
    let upper = Card::from_str("TD").unwrap();
    assert_eq!(lower.to_value(), 13 + 8);
    assert_eq!(upper.to_value(), 21);
    assert_eq!(lower.rank(), Rank::Ten);
    assert_eq!(upper.suit(), Suit::Diamonds);
    assert_eq!(lower.get_bitfield(), 1u64 << 21);
}

#[test]
fn new_round_trips_all_pairs() {
    for rank in RANKS.iter() {
        for suit in SUITS.iter() {
            let card = Card::new(rank, suit);
            assert_eq!(card.rank(), *rank);
            assert_eq!(card.suit(), *suit);
            assert_eq!(card.to_value(), suit.to_value() * 13 + rank.to_value());
        }
    }
}

#[test]
fn new_hearts_queen_value() {
    let card = Card::new(&Rank::Queen, &Suit::Hearts);
    assert_eq!(card.to_value(), 36);
    assert_eq!(card.get_bitfield(), 1u64 << 36);
}

#[test]
fn bitfields_are_distinct_single_bits() {
    let mut seen: u64 = 0;
    for v in 0u8..52 {
        let bits = Card::from_value(v).get_bitfield();
        assert_eq!(bits.count_ones(), 1);
        assert_eq!(bits & seen, 0);
        seen |= bits;
    }
    assert_eq!(seen, (1u64 << 52) - 1);
}

#[test]
fn from_value_decodes_rank_and_suit() {
    let card = Card::from_value(27);
    assert_eq!(card.to_value(), 27);
    assert_eq!(card.suit(), Suit::Hearts);
    assert_eq!(card.rank(), Rank::Three);
    let last = Card::from_value(51);
    assert_eq!(last.suit(), Suit::Spades);
    assert_eq!(last.rank(), Rank::Ace);
}

#[test]
fn parse_then_new_agree() {
    for rank in RANKS.iter() {
        for suit in SUITS.iter() {
            let text = format!("{}{}", rank.display(), ["c", "d", "h", "s"][suit.to_value() as usize]);
            let parsed = Card::from_str(&text).unwrap();
            assert_eq!(parsed.to_value(), Card::new(rank, suit).to_value());
        }
    }
}
