use crate::error::ParseError;
use crate::rank::Rank;
use crate::suit::Suit;
use vstd::arithmetic::power2::{lemma_pow2_strictly_increases, pow2};
use vstd::bits::{lemma_u64_pow2_no_overflow, lemma_u64_shl_is_mul};
use vstd::prelude::*;
use vstd::string::StrSliceExecFns;

verus! {

/// A playing card, stored as one byte `suit * 13 + rank` in 0..52.
#[derive(Clone, Copy)]
pub struct Card {
    card_value: u8,
}

impl View for Card {
    type V = nat;

    /// The card's value: `suit * 13 + rank`.
    closed spec fn view(&self) -> nat {
        self.card_value as nat
    }
}

/// The value of the card with rank `rank` and suit `suit`.
pub open spec fn encode(rank: Rank, suit: Suit) -> nat {
    suit.value() * 13 + rank.value()
}

/// What parsing the text `s` as a card yields: its value, or the error.
pub open spec fn parse_card(s: Seq<char>) -> Result<nat, ParseError> {
    if s.len() != 2 {
        Err(ParseError::InvalidCardLength)
    } else if Rank::of_char(s[0]) is None {
        Err(ParseError::InvalidRank)
    } else if Suit::of_char(s[1]) is None {
        Err(ParseError::InvalidSuit)
    } else {
        Ok(encode(Rank::of_char(s[0])->0, Suit::of_char(s[1])->0))
    }
}

impl Card {
    #[verifier::type_invariant]
    spec fn inv(&self) -> bool {
        self.card_value < 52
    }

    /// The card with the given rank and suit.
    pub fn new(rank: &Rank, suit: &Suit) -> (r: Card)
        ensures
            r@ == encode(*rank, *suit),
    {
        Card { card_value: suit.to_value() * 13 + rank.to_value() }
    }

    /// Parses a two-character card: a rank symbol followed by a suit letter
    /// (`"As"`, `"Td"`, `"2c"`).
    pub fn from_str(card: &str) -> (r: Result<Card, ParseError>)
        ensures
            r is Ok <==> parse_card(card@) is Ok,
            r is Ok ==> r->Ok_0@ == parse_card(card@)->Ok_0,
            r is Err ==> r->Err_0 == parse_card(card@)->Err_0,
    {
        if card.unicode_len() != 2 {
            return Err(ParseError::InvalidCardLength);
        }
        let rank_result = Rank::from_str(card.substring_char(0, 1));
        let suit_result = Suit::from_str(card.substring_char(1, 2));
        let rank = match rank_result {
            Ok(rank) => rank,
            Err(e) => return Err(e),
        };
        let suit = match suit_result {
            Ok(suit) => suit,
            Err(e) => return Err(e),
        };
        Ok(Card::new(&rank, &suit))
    }

    /// The card's suit, decoded from `value / 13`.
    pub fn suit(&self) -> (r: Suit)
        ensures
            Suit::of_value(self@ / 13) == Some(r),
    {
        proof {
            use_type_invariant(self);
        }
        Suit::from_value(self.card_value / 13).expect("card value out of range")
    }

    /// The card's rank, decoded from `value % 13`.
    pub fn rank(&self) -> (r: Rank)
        ensures
            Rank::of_value(self@ % 13) == Some(r),
    {
        proof {
            use_type_invariant(self);
        }
        Rank::from_value(self.card_value % 13).expect("card value out of range")
    }

    /// A 64-bit mask with the one bit at the card's value set.
    pub fn get_bitfield(&self) -> (r: u64)
        ensures
            r as nat == pow2(self@),
    {
        proof {
            use_type_invariant(self);
            lemma_u64_pow2_no_overflow(self@);
            lemma_u64_shl_is_mul(1, self.card_value as u64);
        }
        1u64 << self.card_value
    }

    /// The card with the raw value `val`, which must lie in 0..52.
    pub fn from_value(val: u8) -> (r: Card)
        requires
            val < 52,
        ensures
            r@ == val,
    {
        Card { card_value: val }
    }

    /// The card's raw value, in 0..52.
    pub fn to_value(&self) -> (r: u8)
        ensures
            r == self@,
            r < 52,
    {
        proof {
            use_type_invariant(self);
        }
        self.card_value
    }
}

/// Every rank and suit encode to a value in 0..52 that decodes to the same
/// rank (`value % 13`) and suit (`value / 13`).
pub proof fn lemma_card_round_trip(rank: Rank, suit: Suit)
    ensures
        encode(rank, suit) < 52,
        Rank::of_value(encode(rank, suit) % 13) == Some(rank),
        Suit::of_value(encode(rank, suit) / 13) == Some(suit),
{
}

/// Distinct rank and suit pairs encode to distinct values.
pub proof fn lemma_encode_injective(r1: Rank, s1: Suit, r2: Rank, s2: Suit)
    requires
        encode(r1, s1) == encode(r2, s2),
    ensures
        r1 == r2,
        s1 == s2,
{
    lemma_card_round_trip(r1, s1);
    lemma_card_round_trip(r2, s2);
}

/// The bitfields of two cards with different values are distinct powers of
/// two below `2^52` with no bit in common.
pub proof fn lemma_bitfield_unique(a: nat, b: nat)
    requires
        a < 52,
        b < 52,
        a != b,
    ensures
        pow2(a) < pow2(52),
        pow2(b) < pow2(52),
        pow2(a) != pow2(b),
        (pow2(a) as u64) & (pow2(b) as u64) == 0,
{
    lemma_pow2_strictly_increases(a, 52);
    lemma_pow2_strictly_increases(b, 52);
    if a < b {
        lemma_pow2_strictly_increases(a, b);
    } else {
        lemma_pow2_strictly_increases(b, a);
    }
    lemma_u64_pow2_no_overflow(a);
    lemma_u64_pow2_no_overflow(b);
    lemma_u64_shl_is_mul(1, a as u64);
    lemma_u64_shl_is_mul(1, b as u64);
    let x = a as u64;
    let y = b as u64;
    assert((1u64 << x) & (1u64 << y) == 0) by (bit_vector)
        requires
            x < 52,
            y < 52,
            x != y,
    ;
}

} // verus!
