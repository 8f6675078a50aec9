use vstd::prelude::*;

verus! {

/// Why a suit, rank or card could not be parsed or decoded.
#[derive(Debug, Clone, Copy, PartialEq, Eq, Structural)]
pub enum ParseError {
    /// The text is not a single suit letter.
    InvalidSuit,
    /// The integer is not a suit value (0 to 3).
    InvalidSuitValue,
    /// The text is not a single rank symbol.
    InvalidRank,
    /// The integer is not a rank value (0 to 12).
    InvalidRankValue,
    /// A card's text is not exactly two characters long.
    InvalidCardLength,
}

} // verus!
