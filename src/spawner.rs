use vstd::prelude::*;

use rand::rngs::StdRng;

use crate::random::{draw_below, seeded_rng};
use crate::tetromino::{Colour, Orientation, Tetromino, TetrominoType};

verus! {

/// Column of the box corner of every new piece.
pub const SPAWN_COLUMN: i32 = 5;

/// Supplies new pieces of random kind, colour and orientation.
pub struct TetrominoSpawner {
    rng: StdRng,
}

impl TetrominoSpawner {
    /// A supplier whose pieces follow a fixed sequence for each `seed`.
    pub fn new(seed: u64) -> (r: Self) {
        Self { rng: seeded_rng(seed) }
    }

    /// A new piece with its box corner in row 0 of the spawn column.
    pub fn spawn(&mut self) -> (r: Tetromino)
        ensures
            r.box_corner@ == (SPAWN_COLUMN as int, 0int),
    {
        let colour = draw_below(&mut self.rng, 6);
        let orientation = draw_below(&mut self.rng, 4);
        let type_ = draw_below(&mut self.rng, 7);
        Tetromino::new(
            SPAWN_COLUMN,
            Colour::from_index(colour),
            Orientation::from_index(orientation),
            TetrominoType::from_index(type_),
        )
    }
}

} // verus!
