//! Ditches: ground obstacles of a buggy's track.

use vstd::prelude::*;

verus! {

#[derive(Clone, Copy, Debug, PartialEq, Eq, Structural)]
pub struct Ditch {
    pub col: u16,
    pub row: u16,
}

impl Ditch {
    pub fn new(col: u16, row: u16) -> (ditch: Ditch)
        ensures
            ditch == (Ditch { col, row }),
    {
        Ditch { col, row }
    }
}

} // verus!
