//! The world: the rover and everything that moves past it, advanced one
//! tick at a time.

use crate::background::Background;
use crate::bullet::Bullet;
use crate::config::Level;
use crate::crater::Crater;
use crate::dice;
use crate::monster::Monster;
use crate::motion::{
    fire, fly, move_backgrounds, move_craters, move_monsters, scroll_backgrounds, scroll_craters,
    scroll_monsters, volley,
};
use crate::rover::Rover;
use crate::spawn::Spawn;
use vstd::prelude::*;

verus! {

/// Column at which the rover is anchored on every screen.
pub const ANCHOR_COL: u16 = 20;

/// Rows between the bottom of the screen and the row the rover drives on.
pub const GROUND_OFFSET: u16 = 4;

/// Columns between the rover and the muzzle of its gun.
pub const MUZZLE_OFFSET: u16 = 6;

/// Width of the band at the right edge that must be empty of hazards
/// before a new one appears.
pub const LANE_WIDTH: u16 = 10;

/// The particles of the sky move on ticks of the rover's animation that are
/// a multiple of this.
pub const SKY_PERIOD: usize = 8;

/// A particle appears with a chance of one in this many per tick.
pub const SPARKLE_ODDS: u32 = 50;

/// The coordinate nearest to `x`.
pub open spec fn clamp(x: int) -> u16 {
    if x < 0 {
        0
    } else if x > u16::MAX {
        u16::MAX
    } else {
        x as u16
    }
}

pub struct World {
    pub cols: u16,
    pub rows: u16,
    pub rover: Rover,
    pub bullets: Vec<Bullet>,
    pub monsters: Vec<Monster>,
    pub craters: Vec<Crater>,
    pub backgrounds: Vec<Background>,
}

/// A world as a value of mathematics: each collection is the sequence of
/// its items, in the order in which they were added.
pub struct WorldModel {
    pub cols: u16,
    pub rows: u16,
    pub rover: Rover,
    pub bullets: Seq<Bullet>,
    pub monsters: Seq<Monster>,
    pub craters: Seq<Crater>,
    pub backgrounds: Seq<Background>,
}

impl View for World {
    type V = WorldModel;

    open spec fn view(&self) -> WorldModel {
        WorldModel {
            cols: self.cols,
            rows: self.rows,
            rover: self.rover,
            bullets: self.bullets@,
            monsters: self.monsters@,
            craters: self.craters@,
            backgrounds: self.backgrounds@,
        }
    }
}

impl WorldModel {
    /// An empty world around a fresh rover, with no screen yet.
    pub open spec fn fresh() -> WorldModel {
        WorldModel {
            cols: 0,
            rows: 0,
            rover: Rover::fresh(),
            bullets: Seq::empty(),
            monsters: Seq::empty(),
            craters: Seq::empty(),
            backgrounds: Seq::empty(),
        }
    }

    /// The row that the rover drives on and that monsters fly in.
    pub open spec fn ground_row(self) -> u16 {
        clamp(self.rows - GROUND_OFFSET)
    }

    /// Column `c` lies in the lane: among the last `LANE_WIDTH` columns of
    /// the screen.
    pub open spec fn in_lane(self, c: u16) -> bool {
        self.cols - LANE_WIDTH <= c < self.cols
    }

    /// No crater and no monster is in the lane.
    pub open spec fn lane_clear(self) -> bool {
        &&& forall|i: int| 0 <= i < self.monsters.len() ==> !self.in_lane(#[trigger] self.monsters[i].col)
        &&& forall|i: int| 0 <= i < self.craters.len() ==> !self.in_lane(#[trigger] self.craters[i].col)
    }

    /// The world after the rover has fired: one more bullet, at the muzzle
    /// and at the height of the rover.
    pub open spec fn shot(self) -> WorldModel {
        WorldModel {
            bullets: self.bullets.push(
                Bullet {
                    col: clamp(self.rover.col + MUZZLE_OFFSET),
                    row: self.rover.effective_row() as u16,
                },
            ),
            ..self
        }
    }

    /// The world without its hazards; bullets, particles and the rover
    /// with its score stay.
    pub open spec fn cleared(self) -> WorldModel {
        WorldModel { monsters: Seq::empty(), craters: Seq::empty(), ..self }
    }

    /// The craters that `kind` digs: side by side from the column just right
    /// of the screen, all in row zero.
    pub open spec fn new_craters(self, kind: Spawn) -> Seq<Crater> {
        Seq::new(kind.craters(), |k: int| Crater { col: clamp(self.cols + k), row: 0 })
    }

    /// The monsters that `kind` sends: at most one, just right of the
    /// screen in the ground row.
    pub open spec fn new_monsters(self, kind: Spawn) -> Seq<Monster> {
        match kind {
            Spawn::Monster => seq![Monster { col: self.cols, row: self.ground_row(), jumping: None }],
            Spawn::MonsterJumping => seq![
                Monster { col: self.cols, row: self.ground_row(), jumping: Some(0) },
            ],
            _ => Seq::empty(),
        }
    }

    /// The world with the hazard of `kind` added behind those it holds.
    pub open spec fn spawned(self, kind: Spawn) -> WorldModel {
        WorldModel {
            craters: self.craters + self.new_craters(kind),
            monsters: self.monsters + self.new_monsters(kind),
            ..self
        }
    }

    /// The world after the part of a tick that no chance enters, on a screen
    /// of `cols` by `rows`: the rover is at its anchor, the bullets have
    /// flown and met the monsters, and, if the rover is moving, craters,
    /// monsters and particles have scrolled and those that reached column
    /// zero are gone. The particles only move on every `SKY_PERIOD`-th
    /// tick of the rover's animation.
    pub open spec fn settled(self, cols: u16, rows: u16) -> WorldModel {
        let rover = self.rover.anchored(ANCHOR_COL, clamp(rows - GROUND_OFFSET));
        let after = volley(fly(self.bullets), self.monsters, cols);
        if self.rover.state.is_moving() {
            WorldModel {
                cols,
                rows,
                rover,
                bullets: after.0,
                monsters: scroll_monsters(after.1),
                craters: scroll_craters(self.craters),
                backgrounds: scroll_backgrounds(
                    self.backgrounds,
                    self.rover.tick % SKY_PERIOD == 0,
                ),
            }
        } else {
            WorldModel { cols, rows, rover, bullets: after.0, monsters: after.1, ..self }
        }
    }

    /// The world one tick later, when the dice chose `kind` and `particle`:
    /// settled, and, if the rover is moving, with the hazard added where the
    /// lane is clear, and with the particle.
    pub open spec fn stepped(
        self,
        cols: u16,
        rows: u16,
        kind: Spawn,
        particle: Option<Background>,
    ) -> WorldModel {
        let w = self.settled(cols, rows);
        if w.rover.state.is_moving() {
            (if w.lane_clear() {
                w.spawned(kind)
            } else {
                w
            }).sparkled(particle)
        } else {
            w
        }
    }

    /// No crater, monster or particle is in column zero.
    pub open spec fn swept(self) -> bool {
        &&& forall|i: int| 0 <= i < self.craters.len() ==> (#[trigger] self.craters[i]).col > 0
        &&& forall|i: int| 0 <= i < self.monsters.len() ==> (#[trigger] self.monsters[i]).col > 0
        &&& forall|i: int|
            0 <= i < self.backgrounds.len() ==> (#[trigger] self.backgrounds[i]).col > 0
    }

    /// The world with the particle, if there is one, added to its sky.
    pub open spec fn sparkled(self, particle: Option<Background>) -> WorldModel {
        match particle {
            Some(p) => WorldModel { backgrounds: self.backgrounds.push(p), ..self },
            None => self,
        }
    }
}

impl Default for World {
    fn default() -> (world: World)
        ensures
            world@ == WorldModel::fresh(),
    {
        World {
            cols: 0,
            rows: 0,
            rover: Rover::default(),
            bullets: Vec::new(),
            monsters: Vec::new(),
            craters: Vec::new(),
            backgrounds: Vec::new(),
        }
    }
}

impl World {
    /// Fires the gun.
    pub fn shoot(&mut self)
        ensures
            final(self)@ == old(self)@.shot(),
    {
        let col: u16 = self.rover.col.saturating_add(MUZZLE_OFFSET);
        let row: u16 = self.rover.row();
        self.bullets.push(Bullet::new(col, row));
    }

    /// Removes every crater and every monster.
    pub fn reset(&mut self)
        ensures
            final(self)@ == old(self)@.cleared(),
    {
        self.craters.clear();
        self.monsters.clear();
    }

    /// The part of a tick that no chance enters.
    pub fn settle(&mut self, cols: u16, rows: u16)
        ensures
            final(self)@ == old(self)@.settled(cols, rows),
    {
        let sky_moves: bool = self.rover.tick % SKY_PERIOD == 0;
        self.cols = cols;
        self.rows = rows;
        self.rover.update(ANCHOR_COL, rows.saturating_sub(GROUND_OFFSET));
        let kept = fire(&self.bullets, &mut self.monsters, cols);
        self.bullets = kept;
        if self.rover.moving() {
            let craters = move_craters(&self.craters);
            self.craters = craters;
            let monsters = move_monsters(&self.monsters);
            self.monsters = monsters;
            let particles = move_backgrounds(&self.backgrounds, sky_moves);
            self.backgrounds = particles;
        }
    }

    /// One tick on a screen of `cols` by `rows`, with the choices of the
    /// dice handed in: `kind` is added if the rover moves and the lane is
    /// clear, `particle` if the rover moves.
    pub fn step(&mut self, cols: u16, rows: u16, kind: Spawn, particle: Option<Background>)
        ensures
            final(self)@ == old(self)@.stepped(cols, rows, kind, particle),
    {
        self.settle(cols, rows);
        if self.rover.moving() {
            if self.lane_clear() {
                self.spawn(kind);
            }
            if let Some(p) = particle {
                self.backgrounds.push(p);
            }
        }
    }

    /// One tick on a screen of `cols` by `rows`: rolls the dice on `level`
    /// for a hazard, and at odds of one in `SPARKLE_ODDS` for a particle,
    /// and steps with what they chose.
    pub fn update(&mut self, cols: u16, rows: u16, level: &Level)
        requires
            level.wf(),
        ensures
            exists|kind: Spawn, particle: Option<Background>|
                {
                    &&& kind.possible(level)
                    &&& particle matches Some(p) ==> p.fits(cols, rows)
                    &&& final(self)@ == #[trigger] old(self)@.stepped(cols, rows, kind, particle)
                },
    {
        let kind = Spawn::roll(level);
        let particle = if dice::chance(1, SPARKLE_ODDS) {
            Background::new(cols, rows)
        } else {
            None
        };
        self.step(cols, rows, kind, particle);
    }

    /// Whether the lane at the right edge is empty of hazards.
    pub fn lane_clear(&self) -> (clear: bool)
        ensures
            clear == self@.lane_clear(),
    {
        let low: u16 = self.cols.saturating_sub(LANE_WIDTH);
        let mut i: usize = 0;
        while i < self.monsters.len()
            invariant
                i <= self.monsters.len(),
                low == clamp(self.cols - LANE_WIDTH),
                forall|k: int| 0 <= k < i ==> !self@.in_lane(#[trigger] self.monsters[k].col),
            decreases self.monsters.len() - i,
        {
            let c: u16 = self.monsters[i].col;
            if low <= c && c < self.cols {
                assert(self@.in_lane(self@.monsters[i as int].col));
                return false;
            }
            i += 1;
        }
        let mut j: usize = 0;
        while j < self.craters.len()
            invariant
                j <= self.craters.len(),
                low == clamp(self.cols - LANE_WIDTH),
                forall|k: int|
                    0 <= k < self.monsters.len() ==> !self@.in_lane(#[trigger] self.monsters[k].col),
                forall|k: int| 0 <= k < j ==> !self@.in_lane(#[trigger] self.craters[k].col),
            decreases self.craters.len() - j,
        {
            let c: u16 = self.craters[j].col;
            if low <= c && c < self.cols {
                assert(self@.in_lane(self@.craters[j as int].col));
                return false;
            }
            j += 1;
        }
        true
    }

    /// Adds the hazard of `kind` just right of the screen.
    pub fn spawn(&mut self, kind: Spawn)
        ensures
            final(self)@ == old(self)@.spawned(kind),
    {
        let cols: u16 = self.cols;
        let ground: u16 = self.rows.saturating_sub(GROUND_OFFSET);
        match kind {
            Spawn::Nothing => {},
            Spawn::CraterOne => {
                self.craters.push(Crater::new(cols, 0));
            },
            Spawn::CraterTwo => {
                self.craters.push(Crater::new(cols, 0));
                self.craters.push(Crater::new(cols.saturating_add(1), 0));
            },
            Spawn::CraterThree => {
                self.craters.push(Crater::new(cols, 0));
                self.craters.push(Crater::new(cols.saturating_add(1), 0));
                self.craters.push(Crater::new(cols.saturating_add(2), 0));
            },
            Spawn::Monster => {
                self.monsters.push(Monster::new(cols, ground));
            },
            Spawn::MonsterJumping => {
                self.monsters.push(Monster::jumping(cols, ground));
            },
        }
        assert(self.craters@ =~= old(self).craters@ + old(self)@.new_craters(kind));
        assert(self.monsters@ =~= old(self).monsters@ + old(self)@.new_monsters(kind));
    }
}

} // verus!
