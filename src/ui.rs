use vstd::prelude::*;

use crate::tetramino_rules::Blocks;
use crate::tetromino::Colour;

verus! {

/// What a renderer needs to draw one frame. The cells of the falling piece are
/// drawn over the board's own colours.
#[derive(Debug)]
pub struct UIState {
    pub game_over: bool,
    pub board: Vec<Vec<Option<Colour>>>,
    pub tetromino_blocks: Option<Blocks>,
    pub tetromino_colour: Option<Colour>,
    pub score: u32,
}

} // verus!
