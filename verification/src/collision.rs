//! What happens to the rover when the hazards of the world reach it.

use crate::rover::Rover;
use crate::world::{World, WorldModel};
use vstd::prelude::*;

verus! {

/// Points for a crater that passes under the rover.
pub const CRATER_POINTS: u16 = 4;

/// Columns between the rover and the column in which a monster catches it.
pub const REACH: u16 = 5;

impl WorldModel {
    /// A crater is in the rover's own column: the rover is crossing it.
    pub open spec fn crossing(self) -> bool {
        exists|i: int| 0 <= i < self.craters.len() && (#[trigger] self.craters[i]).col == self.rover.col
    }

    /// A crater is in the band ahead of the rover.
    pub open spec fn crater_ahead(self) -> bool {
        exists|i: int|
            0 <= i < self.craters.len() && self.rover.in_hitbox((#[trigger] self.craters[i]).col as int)
    }

    /// A monster is in the column where it catches the rover, whatever its
    /// row.
    pub open spec fn monster_near(self) -> bool {
        exists|i: int|
            0 <= i < self.monsters.len() && (#[trigger] self.monsters[i]).col == self.rover.col
                + REACH
    }

    /// The rover drives into a crater: it moves, does not jump, and a crater
    /// is ahead.
    pub open spec fn wrecks(self) -> bool {
        self.rover.state.is_moving() && !(self.rover.state is Jump) && self.crater_ahead()
    }

    /// A monster catches the rover: the rover moves, does not drive into a
    /// crater in the same tick, and a monster is near.
    pub open spec fn caught(self) -> bool {
        self.rover.state.is_moving() && !self.wrecks() && self.monster_near()
    }

    /// The rover scores: it moves and is crossing a crater.
    pub open spec fn scores(self) -> bool {
        self.rover.state.is_moving() && self.crossing()
    }

    /// The rover after the collisions of one tick: it scores for a crater
    /// it crosses, and it loses one life, and no more than one, when it
    /// drives into a crater or else is caught by a monster. A rover with no
    /// life left has none to lose.
    pub open spec fn collided_rover(self) -> Rover {
        let scored = Rover {
            points: if self.scores() {
                (self.rover.points + CRATER_POINTS) as u16
            } else {
                self.rover.points
            },
            ..self.rover
        };
        if self.wrecks() {
            scored.crashed()
        } else if self.caught() {
            scored.stunned()
        } else {
            scored
        }
    }

    /// The world after the collisions of one tick: only the rover changes.
    pub open spec fn collided(self) -> WorldModel {
        WorldModel { rover: self.collided_rover(), ..self }
    }
}

impl World {
    /// Whether a crater is in the rover's own column.
    pub fn crossing(&self) -> (b: bool)
        ensures
            b == self@.crossing(),
    {
        let mut i: usize = 0;
        while i < self.craters.len()
            invariant
                i <= self.craters.len(),
                forall|k: int| 0 <= k < i ==> (#[trigger] self.craters[k]).col != self.rover.col,
            decreases self.craters.len() - i,
        {
            if self.craters[i].col == self.rover.col {
                assert(self@.craters[i as int].col == self.rover.col);
                return true;
            }
            i += 1;
        }
        false
    }

    /// Whether a crater is in the band ahead of the rover.
    pub fn crater_ahead(&self) -> (b: bool)
        ensures
            b == self@.crater_ahead(),
    {
        let mut i: usize = 0;
        while i < self.craters.len()
            invariant
                i <= self.craters.len(),
                forall|k: int|
                    0 <= k < i ==> !self.rover.in_hitbox((#[trigger] self.craters[k]).col as int),
            decreases self.craters.len() - i,
        {
            if self.rover.covers(self.craters[i].col) {
                assert(self.rover.in_hitbox(self@.craters[i as int].col as int));
                return true;
            }
            i += 1;
        }
        false
    }

    /// Whether a monster is in the column where it catches the rover.
    pub fn monster_near(&self) -> (b: bool)
        ensures
            b == self@.monster_near(),
    {
        let mut i: usize = 0;
        while i < self.monsters.len()
            invariant
                i <= self.monsters.len(),
                forall|k: int|
                    0 <= k < i ==> (#[trigger] self.monsters[k]).col != self.rover.col + REACH,
            decreases self.monsters.len() - i,
        {
            let c: u16 = self.monsters[i].col;
            if c >= REACH && c - REACH == self.rover.col {
                return true;
            }
            i += 1;
        }
        false
    }

    /// Resolves the collisions of one tick between the rover and the
    /// hazards. The rover must have room on its score if it scores.
    pub fn collide(&mut self)
        requires
            old(self)@.scores() ==> old(self).rover.points + CRATER_POINTS <= u16::MAX,
        ensures
            final(self)@ == old(self)@.collided(),
    {
        if self.rover.moving() {
            let scores = self.crossing();
            let wrecks = !self.rover.jumping() && self.crater_ahead();
            let caught = !wrecks && self.monster_near();
            if scores {
                self.rover.points = self.rover.points + CRATER_POINTS;
            }
            if wrecks {
                self.rover.crash();
            } else if caught {
                self.rover.monstercrash();
            }
        }
    }
}

} // verus!
