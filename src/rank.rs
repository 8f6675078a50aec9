use crate::error::ParseError;
use core::cmp::Ordering;
use vstd::prelude::*;
use vstd::std_specs::cmp::PartialOrdSpec;
use vstd::string::StrSliceExecFns;

verus! {

/// One of the thirteen ranks, ordered from Two (value 0) to Ace (value 12).
#[derive(Debug, Clone, Copy, PartialEq, Eq, Structural, Ord)]
pub enum Rank {
    Two,
    Three,
    Four,
    Five,
    Six,
    Seven,
    Eight,
    Nine,
    Ten,
    Jack,
    Queen,
    King,
    Ace,
}

/// The ordering of two integers.
pub open spec fn compare_ints(a: int, b: int) -> Ordering {
    if a < b {
        Ordering::Less
    } else if a == b {
        Ordering::Equal
    } else {
        Ordering::Greater
    }
}

/// Element-wise comparison of `a` and `b` from index `i` on: the first
/// difference decides, and entries past the shorter sequence are ignored.
pub open spec fn compare_from(a: Seq<u8>, b: Seq<u8>, i: int) -> Ordering
    decreases a.len() - i,
{
    if i < 0 || i >= a.len() || i >= b.len() {
        Ordering::Equal
    } else if a[i] != b[i] {
        compare_ints(a[i] as int, b[i] as int)
    } else {
        compare_from(a, b, i + 1)
    }
}

impl Rank {
    /// The rank's integer value.
    pub open spec fn value(self) -> nat {
        match self {
            Rank::Two => 0,
            Rank::Three => 1,
            Rank::Four => 2,
            Rank::Five => 3,
            Rank::Six => 4,
            Rank::Seven => 5,
            Rank::Eight => 6,
            Rank::Nine => 7,
            Rank::Ten => 8,
            Rank::Jack => 9,
            Rank::Queen => 10,
            Rank::King => 11,
            Rank::Ace => 12,
        }
    }

    /// The rank whose value is `v`, if any.
    pub open spec fn of_value(v: nat) -> Option<Rank> {
        if v == 0 {
            Some(Rank::Two)
        } else if v == 1 {
            Some(Rank::Three)
        } else if v == 2 {
            Some(Rank::Four)
        } else if v == 3 {
            Some(Rank::Five)
        } else if v == 4 {
            Some(Rank::Six)
        } else if v == 5 {
            Some(Rank::Seven)
        } else if v == 6 {
            Some(Rank::Eight)
        } else if v == 7 {
            Some(Rank::Nine)
        } else if v == 8 {
            Some(Rank::Ten)
        } else if v == 9 {
            Some(Rank::Jack)
        } else if v == 10 {
            Some(Rank::Queen)
        } else if v == 11 {
            Some(Rank::King)
        } else if v == 12 {
            Some(Rank::Ace)
        } else {
            None
        }
    }

    /// The rank's canonical symbol: a digit, or an upper-case letter.
    pub open spec fn symbol(self) -> char {
        match self {
            Rank::Two => '2',
            Rank::Three => '3',
            Rank::Four => '4',
            Rank::Five => '5',
            Rank::Six => '6',
            Rank::Seven => '7',
            Rank::Eight => '8',
            Rank::Nine => '9',
            Rank::Ten => 'T',
            Rank::Jack => 'J',
            Rank::Queen => 'Q',
            Rank::King => 'K',
            Rank::Ace => 'A',
        }
    }

    /// The rank's symbol in lower case (a digit stays as it is).
    pub open spec fn lower_symbol(self) -> char {
        match self {
            Rank::Ten => 't',
            Rank::Jack => 'j',
            Rank::Queen => 'q',
            Rank::King => 'k',
            Rank::Ace => 'a',
            _ => self.symbol(),
        }
    }

    /// The rank that the character `c` names, letters in either case.
    pub open spec fn of_char(c: char) -> Option<Rank> {
        if c == '2' {
            Some(Rank::Two)
        } else if c == '3' {
            Some(Rank::Three)
        } else if c == '4' {
            Some(Rank::Four)
        } else if c == '5' {
            Some(Rank::Five)
        } else if c == '6' {
            Some(Rank::Six)
        } else if c == '7' {
            Some(Rank::Seven)
        } else if c == '8' {
            Some(Rank::Eight)
        } else if c == '9' {
            Some(Rank::Nine)
        } else if c == 'T' || c == 't' {
            Some(Rank::Ten)
        } else if c == 'J' || c == 'j' {
            Some(Rank::Jack)
        } else if c == 'Q' || c == 'q' {
            Some(Rank::Queen)
        } else if c == 'K' || c == 'k' {
            Some(Rank::King)
        } else if c == 'A' || c == 'a' {
            Some(Rank::Ace)
        } else {
            None
        }
    }

    /// What parsing the text `s` yields.
    pub open spec fn parse(s: Seq<char>) -> Result<Rank, ParseError> {
        if s.len() == 1 && Rank::of_char(s[0]) is Some {
            Ok(Rank::of_char(s[0])->0)
        } else {
            Err(ParseError::InvalidRank)
        }
    }

    /// Parses a one-character rank (`2`..`9`, `T`, `J`, `Q`, `K`, `A`;
    /// letters in either case).
    pub fn from_str(string: &str) -> (r: Result<Rank, ParseError>)
        ensures
            r == Rank::parse(string@),
    {
        if string.unicode_len() != 1 {
            return Err(ParseError::InvalidRank);
        }
        let c = string.get_char(0);
        if c == 'A' || c == 'a' {
            Ok(Rank::Ace)
        } else if c == '2' {
            Ok(Rank::Two)
        } else if c == '3' {
            Ok(Rank::Three)
        } else if c == '4' {
            Ok(Rank::Four)
        } else if c == '5' {
            Ok(Rank::Five)
        } else if c == '6' {
            Ok(Rank::Six)
        } else if c == '7' {
            Ok(Rank::Seven)
        } else if c == '8' {
            Ok(Rank::Eight)
        } else if c == '9' {
            Ok(Rank::Nine)
        } else if c == 'T' || c == 't' {
            Ok(Rank::Ten)
        } else if c == 'J' || c == 'j' {
            Ok(Rank::Jack)
        } else if c == 'Q' || c == 'q' {
            Ok(Rank::Queen)
        } else if c == 'K' || c == 'k' {
            Ok(Rank::King)
        } else {
            Err(ParseError::InvalidRank)
        }
    }

    /// Compares two sequences of rank values element by element; the first
    /// difference decides. Entries past the shorter sequence are ignored.
    pub fn compare_ranks(a: Vec<u8>, b: Vec<u8>) -> (r: Option<Ordering>)
        ensures
            r == Some(compare_from(a@, b@, 0)),
    {
        let mut i: usize = 0;
        while i < a.len() && i < b.len()
            invariant
                i <= a@.len(),
                i <= b@.len(),
                compare_from(a@, b@, 0) == compare_from(a@, b@, i as int),
            decreases a.len() - i,
        {
            if a[i] < b[i] {
                return Some(Ordering::Less);
            }
            if a[i] > b[i] {
                return Some(Ordering::Greater);
            }
            i = i + 1;
        }
        Some(Ordering::Equal)
    }

    /// The rank's integer value, from 0 (Two) to 12 (Ace).
    pub fn to_value(&self) -> (r: u8)
        ensures
            r == self.value(),
    {
        match self {
            Rank::Two => 0,
            Rank::Three => 1,
            Rank::Four => 2,
            Rank::Five => 3,
            Rank::Six => 4,
            Rank::Seven => 5,
            Rank::Eight => 6,
            Rank::Nine => 7,
            Rank::Ten => 8,
            Rank::Jack => 9,
            Rank::Queen => 10,
            Rank::King => 11,
            Rank::Ace => 12,
        }
    }

    /// The rank with value `val`; values above 12 are refused.
    pub fn from_value(val: u8) -> (r: Result<Rank, ParseError>)
        ensures
            val <= 12 ==> r == Ok::<Rank, ParseError>(Rank::of_value(val as nat)->0),
            val > 12 ==> r == Err::<Rank, ParseError>(ParseError::InvalidRankValue),
    {
        match val {
            0 => Ok(Rank::Two),
            1 => Ok(Rank::Three),
            2 => Ok(Rank::Four),
            3 => Ok(Rank::Five),
            4 => Ok(Rank::Six),
            5 => Ok(Rank::Seven),
            6 => Ok(Rank::Eight),
            7 => Ok(Rank::Nine),
            8 => Ok(Rank::Ten),
            9 => Ok(Rank::Jack),
            10 => Ok(Rank::Queen),
            11 => Ok(Rank::King),
            12 => Ok(Rank::Ace),
            _ => Err(ParseError::InvalidRankValue),
        }
    }

    /// The rank's canonical one-character form (`2`..`9`, `T`, `J`, `Q`, `K`, `A`).
    pub fn display(&self) -> (r: &'static str)
        ensures
            r@ == seq![self.symbol()],
    {
        match self {
            Rank::Ace => {
                proof { reveal_strlit("A"); }
                "A"
            },
            Rank::King => {
                proof { reveal_strlit("K"); }
                "K"
            },
            Rank::Queen => {
                proof { reveal_strlit("Q"); }
                "Q"
            },
            Rank::Jack => {
                proof { reveal_strlit("J"); }
                "J"
            },
            Rank::Ten => {
                proof { reveal_strlit("T"); }
                "T"
            },
            Rank::Nine => {
                proof { reveal_strlit("9"); }
                "9"
            },
            Rank::Eight => {
                proof { reveal_strlit("8"); }
                "8"
            },
            Rank::Seven => {
                proof { reveal_strlit("7"); }
                "7"
            },
            Rank::Six => {
                proof { reveal_strlit("6"); }
                "6"
            },
            Rank::Five => {
                proof { reveal_strlit("5"); }
                "5"
            },
            Rank::Four => {
                proof { reveal_strlit("4"); }
                "4"
            },
            Rank::Three => {
                proof { reveal_strlit("3"); }
                "3"
            },
            Rank::Two => {
                proof { reveal_strlit("2"); }
                "2"
            },
        }
    }
}

impl PartialOrd for Rank {
    fn partial_cmp(&self, other: &Rank) -> (r: Option<Ordering>) {
        let a = self.to_value();
        let b = other.to_value();
        if a < b {
            Some(Ordering::Less)
        } else if a == b {
            Some(Ordering::Equal)
        } else {
            Some(Ordering::Greater)
        }
    }
}

impl vstd::std_specs::cmp::PartialOrdSpecImpl for Rank {
    open spec fn obeys_partial_cmp_spec() -> bool {
        true
    }

    open spec fn partial_cmp_spec(&self, other: &Rank) -> Option<Ordering> {
        Some(compare_ints(self.value() as int, other.value() as int))
    }
}

/// Each rank is parsed from its symbol and from the symbol's lower-case
/// form, and from no other character; its displayed symbol parses back to it, and
/// text of any other length is refused.
pub proof fn lemma_rank_tokens(r: Rank, c: char, text: Seq<char>)
    ensures
        Rank::parse(seq![r.symbol()]) == Ok::<Rank, ParseError>(r),
        Rank::parse(seq![r.lower_symbol()]) == Ok::<Rank, ParseError>(r),
        Rank::of_char(c) == Some(r) <==> (c == r.symbol() || c == r.lower_symbol()),
        text.len() != 1 ==> Rank::parse(text) == Err::<Rank, ParseError>(ParseError::InvalidRank),
{
}

/// Decoding a rank's value gives the rank back, and only 0 to 12 decode.
pub proof fn lemma_rank_value_round_trip(r: Rank, v: nat)
    ensures
        r.value() <= 12,
        Rank::of_value(r.value()) == Some(r),
        Rank::of_value(v) is Some <==> v <= 12,
        Rank::of_value(v) is Some ==> Rank::of_value(v)->0.value() == v,
{
}

/// Ranks are totally ordered by value: for any two, exactly one of less,
/// equal and greater holds, equal means the same rank, and swapping the two
/// swaps less and greater.
pub proof fn lemma_rank_order_total(a: Rank, b: Rank)
    ensures
        a.partial_cmp_spec(&b) is Some,
        a.partial_cmp_spec(&b) == Some(Ordering::Less) <==> a.value() < b.value(),
        a.partial_cmp_spec(&b) == Some(Ordering::Greater) <==> a.value() > b.value(),
        a.partial_cmp_spec(&b) == Some(Ordering::Equal) <==> a == b,
        a.partial_cmp_spec(&b) == Some(Ordering::Less) <==> b.partial_cmp_spec(&a) == Some(
            Ordering::Greater,
        ),
{
}

/// The order of ranks is transitive.
pub proof fn lemma_rank_order_transitive(a: Rank, b: Rank, c: Rank)
    requires
        a.partial_cmp_spec(&b) == Some(Ordering::Less),
        b.partial_cmp_spec(&c) == Some(Ordering::Less),
    ensures
        a.partial_cmp_spec(&c) == Some(Ordering::Less),
{
}

} // verus!
