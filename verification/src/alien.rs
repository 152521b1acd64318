//! Aliens: flying hazards of a buggy's track, some of which bob up and down
//! as monsters do.

use crate::monster::{next_phase, next_row, BOB_TURN};
use vstd::prelude::*;
use vstd::std_specs::convert::FromSpecImpl;

verus! {

#[derive(Clone, Copy, Debug, PartialEq, Eq, Structural)]
pub struct Alien {
    pub col: u16,
    pub row: u16,
    /// `None` for an alien that flies level, else the phase of its bob.
    pub jumping: Option<i32>,
}

impl Alien {
    /// The alien one tick of its bob later; its column is left alone.
    pub open spec fn after_jump(self) -> Alien {
        match self.jumping {
            None => self,
            Some(x) => Alien {
                col: self.col,
                row: next_row(self.row as int, x as int) as u16,
                jumping: Some(next_phase(x as int) as i32),
            },
        }
    }

    /// The phase, if any, is one of the bob cycle.
    pub open spec fn wf(self) -> bool {
        self.jumping matches Some(x) ==> -BOB_TURN <= x <= BOB_TURN
    }

    /// An alien that flies level.
    pub fn new(col: u16, row: u16) -> (alien: Alien)
        ensures
            alien == (Alien { col, row, jumping: None }),
    {
        Alien { col, row, jumping: None }
    }

    /// An alien at the start of its bob.
    pub fn jumping(col: u16, row: u16) -> (alien: Alien)
        ensures
            alien == (Alien { col, row, jumping: Some(0) }),
    {
        Alien { col, row, jumping: Some(0) }
    }

    /// Advances the bob by one tick.
    pub fn jump(&mut self)
        ensures
            *final(self) == old(self).after_jump(),
            old(self).wf() ==> final(self).wf(),
    {
        if let Some(x) = self.jumping {
            if 0 <= x && x < BOB_TURN {
                self.jumping = Some(x + 1);
                self.row = self.row.saturating_sub(1);
            } else if x == BOB_TURN {
                self.jumping = Some(-BOB_TURN);
            } else {
                if x < i32::MAX {
                    self.jumping = Some(x + 1);
                }
                self.row = self.row.saturating_add(1);
            }
        }
    }

    /// The glyph of an alien.
    pub fn glyph(&self) -> (s: String)
        ensures
            s@ == "o"@,
    {
        "o".to_owned()
    }
}

impl From<Alien> for String {
    fn from(alien: Alien) -> (s: String)
        ensures
            s@ == "o"@,
    {
        alien.glyph()
    }
}

impl FromSpecImpl<Alien> for String {
    open spec fn obeys_from_spec() -> bool {
        false
    }

    open spec fn from_spec(alien: Alien) -> String {
        arbitrary()
    }
}

} // verus!
