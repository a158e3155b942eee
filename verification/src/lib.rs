//! A two-player, escrowed, commit-reveal rock-paper-scissors game engine.
//!
//! The engine is a pure state machine over an explicit typed store: a game is
//! configured once, two players each commit a digest binding them to a move
//! and a secret, the moves are revealed against the digests, and the game is
//! resolved either by evaluating the outcome or by a timeout cancellation.
//! The host environment is kept outside: the clock is passed in as an
//! argument, and transfers of the staked asset are recorded as instructions
//! for the host's asset ledger to perform.

pub mod game;
pub mod hash;
pub mod laws;
pub mod types;
