use vstd::prelude::*;

use crate::positions::Position;

verus! {

/// Display colour of a piece or of a filled cell.
#[derive(Debug, Clone, Copy, PartialEq, Eq, Hash, Structural)]
pub enum Colour {
    Red,
    Green,
    Blue,
    Yellow,
    Cyan,
    Magenta,
}

/// The seven four-cell shapes.
#[derive(Debug, Clone, Copy, PartialEq, Eq, Hash, Structural)]
pub enum TetrominoType {
    I,
    J,
    L,
    O,
    S,
    T,
    Z,
}

/// The four rotational states of a piece.
#[derive(Debug, Clone, Copy, PartialEq, Eq, Hash, Structural)]
pub enum Orientation {
    Up,
    Right,
    Down,
    Left,
}

/// Number of clockwise quarter turns from `Up`.
pub open spec fn quarter_turns(o: Orientation) -> nat {
    match o {
        Orientation::Up => 0,
        Orientation::Right => 1,
        Orientation::Down => 2,
        Orientation::Left => 3,
    }
}

/// The orientation reached by one clockwise quarter turn.
pub open spec fn clockwise_of(o: Orientation) -> Orientation {
    match o {
        Orientation::Up => Orientation::Right,
        Orientation::Right => Orientation::Down,
        Orientation::Down => Orientation::Left,
        Orientation::Left => Orientation::Up,
    }
}

/// The orientation reached by one anticlockwise quarter turn.
pub open spec fn anticlockwise_of(o: Orientation) -> Orientation {
    match o {
        Orientation::Up => Orientation::Left,
        Orientation::Right => Orientation::Up,
        Orientation::Down => Orientation::Right,
        Orientation::Left => Orientation::Down,
    }
}

impl Orientation {
    pub fn rotate_clockwise(&self) -> (r: Orientation)
        ensures
            r == clockwise_of(*self),
            quarter_turns(r) == (quarter_turns(*self) + 1) % 4,
    {
        match self {
            Orientation::Up => Orientation::Right,
            Orientation::Right => Orientation::Down,
            Orientation::Down => Orientation::Left,
            Orientation::Left => Orientation::Up,
        }
    }

    pub fn rotate_anticlockwise(&self) -> (r: Orientation)
        ensures
            r == anticlockwise_of(*self),
            quarter_turns(r) == (quarter_turns(*self) + 3) % 4,
    {
        match self {
            Orientation::Up => Orientation::Left,
            Orientation::Right => Orientation::Up,
            Orientation::Down => Orientation::Right,
            Orientation::Left => Orientation::Down,
        }
    }
}

/// Clockwise and anticlockwise quarter turns undo each other.
pub proof fn lemma_turns_inverse(o: Orientation)
    ensures
        anticlockwise_of(clockwise_of(o)) == o,
        clockwise_of(anticlockwise_of(o)) == o,
{
}

impl Colour {
    /// The colour with number `n`, in declaration order.
    pub fn from_index(n: u8) -> (r: Colour)
        requires
            n < 6,
        ensures
            n == 0 ==> r == Colour::Red,
            n == 1 ==> r == Colour::Green,
            n == 2 ==> r == Colour::Blue,
            n == 3 ==> r == Colour::Yellow,
            n == 4 ==> r == Colour::Cyan,
            n == 5 ==> r == Colour::Magenta,
    {
        match n {
            0 => Colour::Red,
            1 => Colour::Green,
            2 => Colour::Blue,
            3 => Colour::Yellow,
            4 => Colour::Cyan,
            _ => Colour::Magenta,
        }
    }
}

impl TetrominoType {
    /// The kind with number `n`, in declaration order.
    pub fn from_index(n: u8) -> (r: TetrominoType)
        requires
            n < 7,
        ensures
            n == 0 ==> r == TetrominoType::I,
            n == 1 ==> r == TetrominoType::J,
            n == 2 ==> r == TetrominoType::L,
            n == 3 ==> r == TetrominoType::O,
            n == 4 ==> r == TetrominoType::S,
            n == 5 ==> r == TetrominoType::T,
            n == 6 ==> r == TetrominoType::Z,
    {
        match n {
            0 => TetrominoType::I,
            1 => TetrominoType::J,
            2 => TetrominoType::L,
            3 => TetrominoType::O,
            4 => TetrominoType::S,
            5 => TetrominoType::T,
            _ => TetrominoType::Z,
        }
    }
}

impl Orientation {
    /// The orientation with number `n`: `n` clockwise quarter turns from `Up`.
    pub fn from_index(n: u8) -> (r: Orientation)
        requires
            n < 4,
        ensures
            quarter_turns(r) == n,
    {
        match n {
            0 => Orientation::Up,
            1 => Orientation::Right,
            2 => Orientation::Down,
            _ => Orientation::Left,
        }
    }
}

/// A piece: its shape, rotation, colour and the top-left corner of its
/// square bounding box.
#[derive(Debug, Clone, Copy, PartialEq, Eq, Structural)]
pub struct Tetromino {
    pub orientation: Orientation,
    pub colour: Colour,
    pub type_: TetrominoType,
    pub box_corner: Position,
}

impl Tetromino {
    /// A piece whose box corner stands in row 0, column `x`.
    pub fn new(x: i32, colour: Colour, orientation: Orientation, type_: TetrominoType) -> (r: Self)
        ensures
            r.box_corner@ == (x as int, 0int),
            r.colour == colour,
            r.orientation == orientation,
            r.type_ == type_,
    {
        Self { box_corner: Position { x, y: 0 }, orientation, colour, type_ }
    }
}

} // verus!
