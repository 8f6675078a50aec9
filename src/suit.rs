use crate::error::ParseError;
use vstd::prelude::*;
use vstd::string::StrSliceExecFns;

verus! {

/// One of the four suits, numbered Clubs = 0 up to Spades = 3.
#[derive(Debug, Clone, Copy, PartialEq, Eq, Structural)]
pub enum Suit {
    Clubs,
    Diamonds,
    Hearts,
    Spades,
}

impl Suit {
    /// The suit's integer value.
    pub open spec fn value(self) -> nat {
        match self {
            Suit::Clubs => 0,
            Suit::Diamonds => 1,
            Suit::Hearts => 2,
            Suit::Spades => 3,
        }
    }

    /// The suit whose value is `v`, if any.
    pub open spec fn of_value(v: nat) -> Option<Suit> {
        if v == 0 {
            Some(Suit::Clubs)
        } else if v == 1 {
            Some(Suit::Diamonds)
        } else if v == 2 {
            Some(Suit::Hearts)
        } else if v == 3 {
            Some(Suit::Spades)
        } else {
            None
        }
    }

    /// The suit's letter in upper case.
    pub open spec fn symbol(self) -> char {
        match self {
            Suit::Clubs => 'C',
            Suit::Diamonds => 'D',
            Suit::Hearts => 'H',
            Suit::Spades => 'S',
        }
    }

    /// The suit's letter in lower case.
    pub open spec fn lower_symbol(self) -> char {
        match self {
            Suit::Clubs => 'c',
            Suit::Diamonds => 'd',
            Suit::Hearts => 'h',
            Suit::Spades => 's',
        }
    }

    /// The suit that the character `c` names, in either case.
    pub open spec fn of_char(c: char) -> Option<Suit> {
        if c == 'c' || c == 'C' {
            Some(Suit::Clubs)
        } else if c == 'd' || c == 'D' {
            Some(Suit::Diamonds)
        } else if c == 'h' || c == 'H' {
            Some(Suit::Hearts)
        } else if c == 's' || c == 'S' {
            Some(Suit::Spades)
        } else {
            None
        }
    }

    /// What parsing the text `s` yields.
    pub open spec fn parse(s: Seq<char>) -> Result<Suit, ParseError> {
        if s.len() == 1 && Suit::of_char(s[0]) is Some {
            Ok(Suit::of_char(s[0])->0)
        } else {
            Err(ParseError::InvalidSuit)
        }
    }

    /// Parses a one-letter suit (`c`, `d`, `h`, `s`, in either case).
    pub fn from_str(string: &str) -> (r: Result<Suit, ParseError>)
        ensures
            r == Suit::parse(string@),
    {
        if string.unicode_len() != 1 {
            return Err(ParseError::InvalidSuit);
        }
        let c = string.get_char(0);
        if c == 'c' || c == 'C' {
            Ok(Suit::Clubs)
        } else if c == 'd' || c == 'D' {
            Ok(Suit::Diamonds)
        } else if c == 'h' || c == 'H' {
            Ok(Suit::Hearts)
        } else if c == 's' || c == 'S' {
            Ok(Suit::Spades)
        } else {
            Err(ParseError::InvalidSuit)
        }
    }

    /// The suit's integer value, from 0 to 3.
    pub fn to_value(&self) -> (r: u8)
        ensures
            r == self.value(),
    {
        match self {
            Suit::Clubs => 0,
            Suit::Diamonds => 1,
            Suit::Hearts => 2,
            Suit::Spades => 3,
        }
    }

    /// The suit with value `val`; values above 3 are refused.
    pub fn from_value(val: u8) -> (r: Result<Suit, ParseError>)
        ensures
            val <= 3 ==> r == Ok::<Suit, ParseError>(Suit::of_value(val as nat)->0),
            val > 3 ==> r == Err::<Suit, ParseError>(ParseError::InvalidSuitValue),
    {
        match val {
            0 => Ok(Suit::Clubs),
            1 => Ok(Suit::Diamonds),
            2 => Ok(Suit::Hearts),
            3 => Ok(Suit::Spades),
            _ => Err(ParseError::InvalidSuitValue),
        }
    }
}

/// Each suit is parsed from its letter in either case, and from no other character;
/// text of any other length is refused.
pub proof fn lemma_suit_tokens(s: Suit, c: char, text: Seq<char>)
    ensures
        Suit::parse(seq![s.symbol()]) == Ok::<Suit, ParseError>(s),
        Suit::parse(seq![s.lower_symbol()]) == Ok::<Suit, ParseError>(s),
        Suit::of_char(c) == Some(s) <==> (c == s.symbol() || c == s.lower_symbol()),
        text.len() != 1 ==> Suit::parse(text) == Err::<Suit, ParseError>(ParseError::InvalidSuit),
{
}

/// Decoding a suit's value gives the suit back, and only 0 to 3 decode.
pub proof fn lemma_suit_value_round_trip(s: Suit, v: nat)
    ensures
        s.value() <= 3,
        Suit::of_value(s.value()) == Some(s),
        Suit::of_value(v) is Some <==> v <= 3,
        Suit::of_value(v) is Some ==> Suit::of_value(v)->0.value() == v,
{
}

} // verus!
