//! Playing cards: suits, ranks, and a card packed into one byte.
pub mod error;
pub mod suit;
pub mod rank;
pub mod card;
