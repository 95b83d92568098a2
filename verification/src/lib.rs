//! A two-player dice game played for a stake.
//!
//! A [`DiceGameContract`] is a registry of [`Game`] records with a counter
//! that hands out their identifiers. A game is opened with `create_game`, a
//! second player takes a seat with `join_game`, the dice decide it with
//! `play_game`, and `view_game` shows its record at any time. Stakes are
//! recorded and never moved.
//!
//! - [`identity`]: who can sit at the table, and the placeholders.
//! - [`dice`]: the four dice, drawn from one timestamp.
//! - [`game`]: one record and what can happen to it.
//! - [`registry`]: the records, the counter and the four operations.
//! - [`laws`]: what holds over whole histories of calls.
//! - [`host`]: what is taken from the Soroban SDK on trust.

pub mod dice;
pub mod game;
pub mod host;
pub mod identity;
pub mod laws;
pub mod registry;

pub use game::{Game, GameError};
pub use identity::Identity;
pub use registry::{DiceGameContract, GameBook, RegistryState};
