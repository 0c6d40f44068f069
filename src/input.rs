use vstd::prelude::*;

verus! {

/// A player's command.
#[derive(Debug, Clone, Copy, PartialEq, Eq)]
pub enum Action {
    RotateClockwise,
    RotateAntiClockwise,
    MoveLeft,
    MoveDown,
    MoveRight,
    Drop,
    Switch,
    Restart,
    Quit,
}

} // verus!
