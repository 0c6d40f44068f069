//! Rules engine of a falling-block puzzle game: the grid, piece geometry with
//! wall kicks, and the session state machine.

pub mod board;
pub mod game;
pub mod input;
pub mod positions;
mod random;
pub mod spawner;
pub mod tetramino_rules;
pub mod tetromino;
pub mod ui;
