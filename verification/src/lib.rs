//! Scoring engine for the darts game "cricket", for up to ten players.
//!
//! Players throw at seven targets: the numbers 15 to 20 and the bullseye,
//! which counts 25. A player has closed a target after three hits on it.
//! Hits at or past the third earn points for as long as some opponent has
//! not closed the same target.

pub mod game;
pub mod laws;
pub mod model;
pub mod targets;

pub use game::{DartsCricket, GameStatus, Player};
pub use targets::{is_valid_target, BULLSEYE, CLOSING_HITS, MAX_PLAYERS, TARGETS};
