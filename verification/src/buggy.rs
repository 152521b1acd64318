//! The buggy: a second vehicle, built like the rover and driven the same way.

use crate::rover::{ANIMATION_CYCLE, JUMP_FRAMES, START_COL, START_LIVES, WRECK_FRAMES};
use vstd::prelude::*;

verus! {

/// What the buggy is doing; the number counts the ticks spent in the state.
#[derive(Clone, Copy, Debug, PartialEq, Eq, Structural)]
pub enum BuggyState {
    Run,
    Jump(u32),
    Crash(u32),
    Monster(u32),
}

impl BuggyState {
    /// The frame counter stays within the budget of its state.
    pub open spec fn in_budget(self) -> bool {
        match self {
            BuggyState::Run => true,
            BuggyState::Jump(x) => x <= JUMP_FRAMES,
            BuggyState::Crash(x) => x <= WRECK_FRAMES,
            BuggyState::Monster(x) => x <= WRECK_FRAMES,
        }
    }

    /// The state one tick later, when nothing else happens.
    pub open spec fn after_tick(self) -> BuggyState {
        match self {
            BuggyState::Run => BuggyState::Run,
            BuggyState::Jump(x) => if x < JUMP_FRAMES {
                BuggyState::Jump((x + 1) as u32)
            } else {
                BuggyState::Run
            },
            BuggyState::Crash(x) => if x < WRECK_FRAMES {
                BuggyState::Crash((x + 1) as u32)
            } else {
                BuggyState::Run
            },
            BuggyState::Monster(x) => if x < WRECK_FRAMES {
                BuggyState::Monster((x + 1) as u32)
            } else {
                BuggyState::Run
            },
        }
    }

    /// The state `n` ticks later, when nothing else happens.
    pub open spec fn after_ticks(self, n: nat) -> BuggyState
        decreases n,
    {
        if n == 0 {
            self
        } else {
            self.after_ticks((n - 1) as nat).after_tick()
        }
    }

    /// The state after a jump command: a running buggy takes off, a jumping
    /// buggy lands at once, and a wrecked buggy does not answer.
    pub open spec fn after_jump(self) -> BuggyState {
        match self {
            BuggyState::Run => BuggyState::Jump(0),
            BuggyState::Jump(_) => BuggyState::Run,
            BuggyState::Crash(x) => BuggyState::Crash(x),
            BuggyState::Monster(x) => BuggyState::Monster(x),
        }
    }

    /// Running or jumping: the buggy scrolls the world and can collide.
    pub open spec fn is_moving(self) -> bool {
        self is Run || self is Jump
    }

    /// The wreck animation has played to its end.
    pub open spec fn is_rebooting(self) -> bool {
        self == BuggyState::Crash(WRECK_FRAMES) || self == BuggyState::Monster(WRECK_FRAMES)
    }

    /// Rows by which a buggy in this state is lifted off the ground: two
    /// while rising, one on take-off and while falling.
    pub open spec fn lift(self) -> int {
        match self {
            BuggyState::Jump(x) => if 1 <= x <= 6 {
                2
            } else {
                1
            },
            _ => 0,
        }
    }
}

#[derive(Clone, Copy, Debug)]
pub struct Buggy {
    pub col: u16,
    pub row: u16,
    pub state: BuggyState,
    pub lives: u16,
    pub points: u16,
    pub tick: usize,
}

impl Default for Buggy {
    fn default() -> (buggy: Buggy)
        ensures
            buggy == Buggy::fresh(),
    {
        Buggy {
            col: START_COL,
            row: 0,
            state: BuggyState::Run,
            lives: START_LIVES,
            points: 0,
            tick: 0,
        }
    }
}

impl Buggy {
    /// The buggy at the start of a session: running, with all its lives and
    /// no points.
    pub open spec fn fresh() -> Buggy {
        Buggy {
            col: START_COL,
            row: 0,
            state: BuggyState::Run,
            lives: START_LIVES,
            points: 0,
            tick: 0,
        }
    }

    /// The frame counter is within its budget and the animation counter
    /// within its cycle.
    pub open spec fn wf(&self) -> bool {
        self.state.in_budget() && self.tick < ANIMATION_CYCLE
    }

    /// The row the buggy is drawn and shoots at: the ground row less the
    /// lift of a jump, never above the top of the screen.
    pub open spec fn effective_row(&self) -> int {
        if self.row >= self.state.lift() {
            self.row - self.state.lift()
        } else {
            0
        }
    }

    /// `c` lies in the band of four columns ahead of the buggy.
    pub open spec fn in_hitbox(&self, c: int) -> bool {
        self.col + 1 <= c < self.col + 5
    }

    /// The buggy at the anchor `col`, `row`.
    pub open spec fn anchored(self, col: u16, row: u16) -> Buggy {
        Buggy { col, row, ..self }
    }

    /// The buggy one tick later: the animation counter has advanced within
    /// its cycle and the state by one frame.
    pub open spec fn ticked(self) -> Buggy {
        Buggy {
            tick: ((self.tick + 1) % (ANIMATION_CYCLE as int)) as usize,
            state: self.state.after_tick(),
            ..self
        }
    }

    /// The buggy after a jump command.
    pub open spec fn jumped(self) -> Buggy {
        Buggy { state: self.state.after_jump(), ..self }
    }

    /// The lives that are left after one is lost; there is none below zero.
    pub open spec fn lives_left(self) -> u16 {
        if self.lives > 0 {
            (self.lives - 1) as u16
        } else {
            0
        }
    }

    /// The buggy after it drove into a crater: a moving buggy starts to
    /// crash and has one life less; a wrecked buggy is not wrecked again.
    pub open spec fn crashed(self) -> Buggy {
        if self.state.is_moving() {
            Buggy { state: BuggyState::Crash(0), lives: self.lives_left(), ..self }
        } else {
            self
        }
    }

    /// The buggy after a monster caught it: a moving buggy is stunned and
    /// has one life less; a wrecked buggy is not wrecked again.
    pub open spec fn stunned(self) -> Buggy {
        if self.state.is_moving() {
            Buggy { state: BuggyState::Monster(0), lives: self.lives_left(), ..self }
        } else {
            self
        }
    }

    /// Moves the buggy to its anchor on the screen.
    pub fn update(&mut self, col: u16, row: u16)
        ensures
            *final(self) == old(self).anchored(col, row),
    {
        self.col = col;
        self.row = row;
    }

    /// One tick of time: the animation counter advances within its cycle and
    /// the state moves on by one frame.
    pub fn tick(&mut self)
        ensures
            *final(self) == old(self).ticked(),
    {
        self.tick = (self.tick % ANIMATION_CYCLE + 1) % ANIMATION_CYCLE;
        match self.state {
            BuggyState::Run => {},
            BuggyState::Jump(x) => {
                if x < JUMP_FRAMES {
                    self.state = BuggyState::Jump(x + 1);
                } else {
                    self.state = BuggyState::Run;
                }
            },
            BuggyState::Crash(x) => {
                if x < WRECK_FRAMES {
                    self.state = BuggyState::Crash(x + 1);
                } else {
                    self.state = BuggyState::Run;
                }
            },
            BuggyState::Monster(x) => {
                if x < WRECK_FRAMES {
                    self.state = BuggyState::Monster(x + 1);
                } else {
                    self.state = BuggyState::Run;
                }
            },
        }
    }

    pub fn moving(&self) -> (b: bool)
        ensures
            b == self.state.is_moving(),
    {
        match self.state {
            BuggyState::Run => true,
            BuggyState::Jump(_) => true,
            _ => false,
        }
    }

    pub fn rebooting(&self) -> (b: bool)
        ensures
            b == self.state.is_rebooting(),
    {
        match self.state {
            BuggyState::Crash(x) => x == WRECK_FRAMES,
            BuggyState::Monster(x) => x == WRECK_FRAMES,
            _ => false,
        }
    }

    /// The jump command: a toggle, not a double jump, and of no effect
    /// during a wreck.
    pub fn jump(&mut self)
        ensures
            *final(self) == old(self).jumped(),
    {
        match self.state {
            BuggyState::Run => {
                self.state = BuggyState::Jump(0);
            },
            BuggyState::Jump(_) => {
                self.state = BuggyState::Run;
            },
            BuggyState::Crash(_) => {},
            BuggyState::Monster(_) => {},
        }
    }

    /// The buggy drove into a crater: if it was moving, it starts to crash
    /// and loses a life, if it has one.
    pub fn crash(&mut self)
        ensures
            *final(self) == old(self).crashed(),
    {
        if self.moving() {
            self.state = BuggyState::Crash(0);
            self.lives = self.lives.saturating_sub(1);
        }
    }

    /// A monster reached the buggy: if it was moving, it is stunned and
    /// loses a life, if it has one.
    pub fn monstercrash(&mut self)
        ensures
            *final(self) == old(self).stunned(),
    {
        if self.moving() {
            self.state = BuggyState::Monster(0);
            self.lives = self.lives.saturating_sub(1);
        }
    }

    pub fn jumping(&self) -> (b: bool)
        ensures
            b == (self.state is Jump),
    {
        match self.state {
            BuggyState::Jump(_) => true,
            _ => false,
        }
    }

    pub fn row(&self) -> (r: u16)
        ensures
            r == self.effective_row(),
    {
        match self.state {
            BuggyState::Jump(x) => {
                if 1 <= x && x <= 6 {
                    self.row.saturating_sub(2)
                } else {
                    self.row.saturating_sub(1)
                }
            },
            _ => self.row,
        }
    }

    /// The columns in which a crater wrecks the buggy.
    pub fn range(&self) -> (r: std::ops::Range<u16>)
        requires
            self.col + 5 <= u16::MAX,
        ensures
            r.start == self.col + 1,
            r.end == self.col + 5,
            forall|c: u16| self.in_hitbox(c as int) <==> r.start <= c < r.end,
    {
        self.col + 1..self.col + 5
    }

    /// Whether a crater in column `c` wrecks the buggy.
    pub fn covers(&self, c: u16) -> (b: bool)
        ensures
            b == self.in_hitbox(c as int),
    {
        c > self.col && c - self.col <= 4
    }
}

} // verus!
