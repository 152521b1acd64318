//! Craters in the ground: the obstacles the rover has to jump.

use vstd::prelude::*;

verus! {

#[derive(Clone, Copy, Debug, PartialEq, Eq, Structural)]
pub struct Crater {
    pub col: u16,
    pub row: u16,
}

impl Crater {
    pub fn new(col: u16, row: u16) -> (crater: Crater)
        ensures
            crater == (Crater { col, row }),
    {
        Crater { col, row }
    }
}

} // verus!
