//! A verified engine for a turn-based word-guessing game.
//!
//! A player builds five-letter guesses against a hidden target word across a
//! fixed number of attempts. The crate covers the full game logic: decoding
//! raw key identifiers into actions, storing and editing guesses, scoring a
//! submitted guess letter by letter against the target (with correct handling
//! of duplicate letters), projecting the state onto a row/column board for a
//! renderer, and tracking the overall game phase.

pub mod action;
pub mod board;
pub mod engine;
pub mod feedback;
pub mod store;
