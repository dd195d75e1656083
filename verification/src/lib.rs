//! A single-player blackjack engine: cards and shoes, hands with the soft and
//! hard ace rule, the dealer's fixed policy and the resolution of a round.
//!
//! Every function states what it computes over mathematical models of the
//! data, and the statements are proved.

pub mod cards;
pub mod deck;
pub mod hand;
pub mod game;
pub mod pretty_printer;
