//! Board squares, numbered as the rules engine numbers them.
use vstd::prelude::*;

verus! {

/// A board square as a rank-major index: a1 is 0, b1 is 1, ... h8 is 63.
#[derive(Clone, Copy, Debug, PartialEq, Eq, Structural, Hash)]
pub struct Square {
    pub index: u8,
}

impl Square {
    /// A square index always fits on the 8x8 board.
    pub open spec fn wf(self) -> bool {
        self.index < 64
    }

    /// Builds the square with the given rank-major index.
    pub fn new(index: u8) -> (r: Square)
        requires
            index < 64,
        ensures
            r.index == index,
            r.wf(),
    {
        Square { index }
    }
}

} // verus!
