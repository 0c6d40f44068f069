use vstd::prelude::*;

verus! {

/// A point or an offset on the board; `y` grows downwards.
#[derive(Debug, Clone, Copy, PartialEq, Eq, Hash, Structural)]
pub struct Position {
    pub x: i32,
    pub y: i32,
}

impl View for Position {
    type V = (int, int);

    open spec fn view(&self) -> (int, int) {
        (self.x as int, self.y as int)
    }
}

/// The sum of two points, coordinate by coordinate.
pub open spec fn add_spec(a: (int, int), b: (int, int)) -> (int, int) {
    (a.0 + b.0, a.1 + b.1)
}

/// A pair of integers that a `Position` can hold.
pub open spec fn fits_i32(p: (int, int)) -> bool {
    i32::MIN <= p.0 <= i32::MAX && i32::MIN <= p.1 <= i32::MAX
}

impl Position {
    /// Vector addition.
    pub fn add(self, rhs: Position) -> (r: Position)
        requires
            fits_i32(add_spec(self@, rhs@)),
        ensures
            r@ == add_spec(self@, rhs@),
    {
        Position { x: self.x + rhs.x, y: self.y + rhs.y }
    }
}

} // verus!
