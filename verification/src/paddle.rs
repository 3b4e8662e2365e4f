//! The paddle's discrete control vocabulary.

use vstd::prelude::*;

verus! {

/// Which side of the play field a paddle guards.
#[derive(Clone, Copy, Debug, PartialEq, Eq, Structural)]
pub enum PaddleSide {
    Left,
    Right,
}

/// The control input fed to a paddle each tick by an outside input handler.
/// It is consumed once per tick to derive that tick's velocity and is never
/// stored on the body.
#[derive(Clone, Copy, Debug, PartialEq, Eq, Structural)]
pub enum PaddleState {
    MoveUp,
    MoveDown,
    DoNothing,
}

} // verus!
