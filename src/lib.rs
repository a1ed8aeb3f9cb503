//! Tic-tac-toe: the board evaluator, the game state machine and a pure
//! projection of the game state onto what a screen shows.

pub mod board;
pub mod game;
pub mod laws;
pub mod view;
