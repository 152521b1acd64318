//! Flying monsters, some of which bob up and down.

use vstd::prelude::*;

verus! {

/// Phase at which a bobbing monster turns from rising to falling.
pub const BOB_TURN: i32 = 2;

#[derive(Clone, Copy, Debug, PartialEq, Eq, Structural)]
pub struct Monster {
    pub col: u16,
    pub row: u16,
    /// `None` for a monster that flies level, else the phase of its bob.
    pub jumping: Option<i32>,
}

/// The phase that follows `x`: up to the turn, over to its negative, and
/// back up to zero.
pub open spec fn next_phase(x: int) -> int {
    if x == BOB_TURN {
        -BOB_TURN
    } else if x < i32::MAX {
        x + 1
    } else {
        x
    }
}

/// The row of a monster that was in `row` at phase `x`, one tick later: up
/// one row before the turn, unmoved at the turn, down one row after it, and
/// never off the range of rows.
pub open spec fn next_row(row: int, x: int) -> int {
    if 0 <= x < BOB_TURN {
        if row > 0 {
            row - 1
        } else {
            0
        }
    } else if x == BOB_TURN {
        row
    } else if row < u16::MAX {
        row + 1
    } else {
        row
    }
}

impl Monster {
    /// The monster one tick of its bob later; its column is left alone.
    pub open spec fn after_jump(self) -> Monster {
        match self.jumping {
            None => self,
            Some(x) => Monster {
                col: self.col,
                row: next_row(self.row as int, x as int) as u16,
                jumping: Some(next_phase(x as int) as i32),
            },
        }
    }

    /// The phase, if any, is one of the bob cycle.
    pub open spec fn wf(self) -> bool {
        self.jumping matches Some(x) ==> -BOB_TURN <= x <= BOB_TURN
    }

    /// A monster that flies level.
    pub fn new(col: u16, row: u16) -> (monster: Monster)
        ensures
            monster == (Monster { col, row, jumping: None }),
    {
        Monster { col, row, jumping: None }
    }

    /// A monster at the start of its bob.
    pub fn jumping(col: u16, row: u16) -> (monster: Monster)
        ensures
            monster == (Monster { col, row, jumping: Some(0) }),
    {
        Monster { col, row, jumping: Some(0) }
    }

    /// Advances the bob by one tick.
    pub fn jump(&mut self)
        ensures
            *final(self) == old(self).after_jump(),
            old(self).wf() ==> final(self).wf(),
    {
        if let Some(x) = self.jumping {
            if 0 <= x && x < BOB_TURN {
                self.jumping = Some(x + 1);
                self.row = self.row.saturating_sub(1);
            } else if x == BOB_TURN {
                self.jumping = Some(-BOB_TURN);
            } else {
                if x < i32::MAX {
                    self.jumping = Some(x + 1);
                }
                self.row = self.row.saturating_add(1);
            }
        }
    }
}

} // verus!
