//! Projectiles fired by the rover.

use vstd::prelude::*;

verus! {

#[derive(Clone, Copy, Debug, PartialEq, Eq, Structural)]
pub struct Bullet {
    pub col: u16,
    pub row: u16,
}

impl Bullet {
    pub fn new(col: u16, row: u16) -> (bullet: Bullet)
        ensures
            bullet == (Bullet { col, row }),
    {
        Bullet { col, row }
    }
}

} // verus!
