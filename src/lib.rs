//! A small model of Rock-Paper-Scissors: choices with their cyclic dominance,
//! timestamped picks, rounds with a derived outcome, and a game as an ordered
//! history of rounds.
pub mod choice;
pub mod game;
pub mod round;

pub use choice::Choice;
pub use game::Game;
pub use round::{Outcome, Participation, Player, Round, Timestamp};
