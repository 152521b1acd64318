//! The player's vehicle and its state machine.

use vstd::prelude::*;

verus! {

/// Last frame of a jump: one tick later the rover runs again.
pub const JUMP_FRAMES: u32 = 9;

/// Last frame of a crash or stun animation: the rover is then rebooting.
pub const WRECK_FRAMES: u32 = 32;

/// Length of the cosmetic animation cycle.
pub const ANIMATION_CYCLE: usize = 16;

/// Column in which a rover starts.
pub const START_COL: u16 = 20;

/// Lives with which a rover starts.
pub const START_LIVES: u16 = 3;

/// What the rover is doing; the number counts the ticks spent in the state.
#[derive(Clone, Copy, Debug, PartialEq, Eq, Structural)]
pub enum RoverState {
    Run,
    Jump(u32),
    Crash(u32),
    Monster(u32),
}

impl RoverState {
    /// The frame counter stays within the budget of its state.
    pub open spec fn in_budget(self) -> bool {
        match self {
            RoverState::Run => true,
            RoverState::Jump(x) => x <= JUMP_FRAMES,
            RoverState::Crash(x) => x <= WRECK_FRAMES,
            RoverState::Monster(x) => x <= WRECK_FRAMES,
        }
    }

    /// The state one tick later, when nothing else happens.
    pub open spec fn after_tick(self) -> RoverState {
        match self {
            RoverState::Run => RoverState::Run,
            RoverState::Jump(x) => if x < JUMP_FRAMES {
                RoverState::Jump((x + 1) as u32)
            } else {
                RoverState::Run
            },
            RoverState::Crash(x) => if x < WRECK_FRAMES {
                RoverState::Crash((x + 1) as u32)
            } else {
                RoverState::Run
            },
            RoverState::Monster(x) => if x < WRECK_FRAMES {
                RoverState::Monster((x + 1) as u32)
            } else {
                RoverState::Run
            },
        }
    }

    /// The state `n` ticks later, when nothing else happens.
    pub open spec fn after_ticks(self, n: nat) -> RoverState
        decreases n,
    {
        if n == 0 {
            self
        } else {
            self.after_ticks((n - 1) as nat).after_tick()
        }
    }

    /// The state after a jump command: a running rover takes off, a jumping
    /// rover lands at once, and a wrecked rover does not answer.
    pub open spec fn after_jump(self) -> RoverState {
        match self {
            RoverState::Run => RoverState::Jump(0),
            RoverState::Jump(_) => RoverState::Run,
            RoverState::Crash(x) => RoverState::Crash(x),
            RoverState::Monster(x) => RoverState::Monster(x),
        }
    }

    /// Running or jumping: the rover scrolls the world and can collide.
    pub open spec fn is_moving(self) -> bool {
        self is Run || self is Jump
    }

    /// The wreck animation has played to its end.
    pub open spec fn is_rebooting(self) -> bool {
        self == RoverState::Crash(WRECK_FRAMES) || self == RoverState::Monster(WRECK_FRAMES)
    }

    /// Rows by which a rover in this state is lifted off the ground: two
    /// while rising, one on take-off and while falling.
    pub open spec fn lift(self) -> int {
        match self {
            RoverState::Jump(x) => if 1 <= x <= 6 {
                2
            } else {
                1
            },
            _ => 0,
        }
    }
}

#[derive(Clone, Copy, Debug)]
pub struct Rover {
    pub col: u16,
    pub row: u16,
    pub state: RoverState,
    pub lives: u16,
    pub points: u16,
    pub tick: usize,
}

impl Default for Rover {
    fn default() -> (rover: Rover)
        ensures
            rover == Rover::fresh(),
    {
        Rover {
            col: START_COL,
            row: 0,
            state: RoverState::Run,
            lives: START_LIVES,
            points: 0,
            tick: 0,
        }
    }
}

impl Rover {
    /// The rover at the start of a session: running, with all its lives and
    /// no points.
    pub open spec fn fresh() -> Rover {
        Rover {
            col: START_COL,
            row: 0,
            state: RoverState::Run,
            lives: START_LIVES,
            points: 0,
            tick: 0,
        }
    }

    /// The frame counter is within its budget and the animation counter
    /// within its cycle.
    pub open spec fn wf(&self) -> bool {
        self.state.in_budget() && self.tick < ANIMATION_CYCLE
    }

    /// The row the rover is drawn and shoots at: the ground row less the
    /// lift of a jump, never above the top of the screen.
    pub open spec fn effective_row(&self) -> int {
        if self.row >= self.state.lift() {
            self.row - self.state.lift()
        } else {
            0
        }
    }

    /// `c` lies in the band of four columns ahead of the rover.
    pub open spec fn in_hitbox(&self, c: int) -> bool {
        self.col + 1 <= c < self.col + 5
    }

    /// The rover at the anchor `col`, `row`.
    pub open spec fn anchored(self, col: u16, row: u16) -> Rover {
        Rover { col, row, ..self }
    }

    /// The rover one tick later: the animation counter has advanced within
    /// its cycle and the state by one frame.
    pub open spec fn ticked(self) -> Rover {
        Rover {
            tick: ((self.tick + 1) % (ANIMATION_CYCLE as int)) as usize,
            state: self.state.after_tick(),
            ..self
        }
    }

    /// The rover after a jump command.
    pub open spec fn jumped(self) -> Rover {
        Rover { state: self.state.after_jump(), ..self }
    }

    /// The lives that are left after one is lost; there is none below zero.
    pub open spec fn lives_left(self) -> u16 {
        if self.lives > 0 {
            (self.lives - 1) as u16
        } else {
            0
        }
    }

    /// The rover after it drove into a crater: a moving rover starts to
    /// crash and has one life less; a wrecked rover is not wrecked again.
    pub open spec fn crashed(self) -> Rover {
        if self.state.is_moving() {
            Rover { state: RoverState::Crash(0), lives: self.lives_left(), ..self }
        } else {
            self
        }
    }

    /// The rover after a monster caught it: a moving rover is stunned and
    /// has one life less; a wrecked rover is not wrecked again.
    pub open spec fn stunned(self) -> Rover {
        if self.state.is_moving() {
            Rover { state: RoverState::Monster(0), lives: self.lives_left(), ..self }
        } else {
            self
        }
    }

    /// Moves the rover to its anchor on the screen.
    pub fn update(&mut self, col: u16, row: u16)
        ensures
            *final(self) == old(self).anchored(col, row),
    {
        self.col = col;
        self.row = row;
    }

    /// One tick of time: the animation counter advances within its cycle and
    /// the state moves on by one frame.
    pub fn tick(&mut self)
        ensures
            *final(self) == old(self).ticked(),
    {
        self.tick = (self.tick % ANIMATION_CYCLE + 1) % ANIMATION_CYCLE;
        match self.state {
            RoverState::Run => {},
            RoverState::Jump(x) => {
                if x < JUMP_FRAMES {
                    self.state = RoverState::Jump(x + 1);
                } else {
                    self.state = RoverState::Run;
                }
            },
            RoverState::Crash(x) => {
                if x < WRECK_FRAMES {
                    self.state = RoverState::Crash(x + 1);
                } else {
                    self.state = RoverState::Run;
                }
            },
            RoverState::Monster(x) => {
                if x < WRECK_FRAMES {
                    self.state = RoverState::Monster(x + 1);
                } else {
                    self.state = RoverState::Run;
                }
            },
        }
    }

    pub fn moving(&self) -> (b: bool)
        ensures
            b == self.state.is_moving(),
    {
        match self.state {
            RoverState::Run => true,
            RoverState::Jump(_) => true,
            _ => false,
        }
    }

    pub fn rebooting(&self) -> (b: bool)
        ensures
            b == self.state.is_rebooting(),
    {
        match self.state {
            RoverState::Crash(x) => x == WRECK_FRAMES,
            RoverState::Monster(x) => x == WRECK_FRAMES,
            _ => false,
        }
    }

    /// The jump command: a toggle, not a double jump, and of no effect
    /// during a wreck.
    pub fn jump(&mut self)
        ensures
            *final(self) == old(self).jumped(),
    {
        match self.state {
            RoverState::Run => {
                self.state = RoverState::Jump(0);
            },
            RoverState::Jump(_) => {
                self.state = RoverState::Run;
            },
            RoverState::Crash(_) => {},
            RoverState::Monster(_) => {},
        }
    }

    /// The rover drove into a crater: if it was moving, it starts to crash
    /// and loses a life, if it has one.
    pub fn crash(&mut self)
        ensures
            *final(self) == old(self).crashed(),
    {
        if self.moving() {
            self.state = RoverState::Crash(0);
            self.lives = self.lives.saturating_sub(1);
        }
    }

    /// A monster reached the rover: if it was moving, it is stunned and
    /// loses a life, if it has one.
    pub fn monstercrash(&mut self)
        ensures
            *final(self) == old(self).stunned(),
    {
        if self.moving() {
            self.state = RoverState::Monster(0);
            self.lives = self.lives.saturating_sub(1);
        }
    }

    pub fn jumping(&self) -> (b: bool)
        ensures
            b == (self.state is Jump),
    {
        match self.state {
            RoverState::Jump(_) => true,
            _ => false,
        }
    }

    pub fn row(&self) -> (r: u16)
        ensures
            r == self.effective_row(),
    {
        match self.state {
            RoverState::Jump(x) => {
                if 1 <= x && x <= 6 {
                    self.row.saturating_sub(2)
                } else {
                    self.row.saturating_sub(1)
                }
            },
            _ => self.row,
        }
    }

    /// The columns in which a crater wrecks the rover.
    pub fn range(&self) -> (r: std::ops::Range<u16>)
        requires
            self.col + 5 <= u16::MAX,
        ensures
            r.start == self.col + 1,
            r.end == self.col + 5,
            forall|c: u16| self.in_hitbox(c as int) <==> r.start <= c < r.end,
    {
        self.col + 1..self.col + 5
    }

    /// Whether a crater in column `c` wrecks the rover.
    pub fn covers(&self, c: u16) -> (b: bool)
        ensures
            b == self.in_hitbox(c as int),
    {
        c > self.col && c - self.col <= 4
    }
}

} // verus!
