//! The two sides of a chess match.
use vstd::prelude::*;

verus! {

/// One of the two sides of the match.  Equality and "the other side" are the
/// only operations the orchestrator needs.
#[derive(Clone, Copy, Debug, PartialEq, Eq, Structural, Hash)]
pub enum Player {
    White,
    Black,
}

impl Player {
    /// The opposing side.
    pub open spec fn spec_other(self) -> Player {
        match self {
            Player::White => Player::Black,
            Player::Black => Player::White,
        }
    }

    /// Returns the opposing side.
    pub fn other(&self) -> (r: Player)
        ensures
            r == self.spec_other(),
    {
        match self {
            Player::White => Player::Black,
            Player::Black => Player::White,
        }
    }
}

} // verus!
