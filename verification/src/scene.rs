//! The world as a grid of tiles, ready to be painted.

use crate::background::Background;
use crate::monster::Monster;
use crate::world::{World, WorldModel};
use vstd::prelude::*;

verus! {

/// Rows between the bottom of the screen and the upper row of the ground,
/// the one that craters break.
pub const SURFACE_OFFSET: u16 = 3;

/// Rows between the bottom of the screen and the lower row of the ground.
pub const BEDROCK_OFFSET: u16 = 2;

/// What is to be seen in one cell of the screen.
#[derive(Clone, Copy, Debug, PartialEq, Eq, Structural)]
pub enum Tile {
    Empty,
    Ground,
    Monster,
    MonsterJumping,
    Bullet,
    Star(char),
}

/// The tile of a monster.
pub open spec fn monster_tile(m: Monster) -> Tile {
    if m.jumping is Some {
        Tile::MonsterJumping
    } else {
        Tile::Monster
    }
}

/// The tile of the last monster in the cell at column `c` and row `r`, if
/// there is a monster in it.
pub open spec fn monster_at(ms: Seq<Monster>, r: int, c: int) -> Option<Tile>
    decreases ms.len(),
{
    if ms.len() == 0 {
        None
    } else if ms.last().col == c && ms.last().row == r {
        Some(monster_tile(ms.last()))
    } else {
        monster_at(ms.drop_last(), r, c)
    }
}

/// The tile of the last particle in the cell at column `c` and row `r`,
/// if there is a particle in it.
pub open spec fn star_at(ps: Seq<Background>, r: int, c: int) -> Option<Tile>
    decreases ps.len(),
{
    if ps.len() == 0 {
        None
    } else if ps.last().col == c && ps.last().row == r {
        Some(Tile::Star(ps.last().chr))
    } else {
        star_at(ps.drop_last(), r, c)
    }
}

impl WorldModel {
    /// A bullet is in the cell at column `c` and row `r`.
    pub open spec fn bullet_at(self, r: int, c: int) -> bool {
        exists|i: int|
            0 <= i < self.bullets.len() && (#[trigger] self.bullets[i]).col == c
                && self.bullets[i].row == r
    }

    /// A crater whose row is on the screen is in column `c`.
    pub open spec fn gap_at(self, c: int) -> bool {
        exists|i: int|
            0 <= i < self.craters.len() && (#[trigger] self.craters[i]).col == c
                && self.craters[i].row < self.rows
    }

    /// The tile in the cell at column `c` and row `r`. What is painted
    /// later covers what was painted before: first the two rows of ground,
    /// then the craters as gaps in the upper one, the monsters, the bullets
    /// and the particles.
    pub open spec fn tile_at(self, r: int, c: int) -> Tile {
        if star_at(self.backgrounds, r, c) is Some {
            star_at(self.backgrounds, r, c)->0
        } else if self.bullet_at(r, c) {
            Tile::Bullet
        } else if monster_at(self.monsters, r, c) is Some {
            monster_at(self.monsters, r, c)->0
        } else if r == self.rows - SURFACE_OFFSET && self.gap_at(c) {
            Tile::Empty
        } else if r == self.rows - SURFACE_OFFSET || r == self.rows - BEDROCK_OFFSET {
            Tile::Ground
        } else {
            Tile::Empty
        }
    }
}

impl World {
    fn star_at(&self, r: u16, c: u16) -> (t: Option<Tile>)
        ensures
            t == star_at(self.backgrounds@, r as int, c as int),
    {
        let mut i: usize = self.backgrounds.len();
        assert(self.backgrounds@.take(i as int) =~= self.backgrounds@);
        while i > 0
            invariant
                i <= self.backgrounds.len(),
                star_at(self.backgrounds@, r as int, c as int) == star_at(
                    self.backgrounds@.take(i as int),
                    r as int,
                    c as int,
                ),
            decreases i,
        {
            let p = self.backgrounds[i - 1];
            assert(self.backgrounds@.take(i as int).drop_last() =~= self.backgrounds@.take(i - 1));
            if p.col == c && p.row == r {
                return Some(Tile::Star(p.chr));
            }
            i -= 1;
        }
        None
    }

    fn monster_at(&self, r: u16, c: u16) -> (t: Option<Tile>)
        ensures
            t == monster_at(self.monsters@, r as int, c as int),
    {
        let mut i: usize = self.monsters.len();
        assert(self.monsters@.take(i as int) =~= self.monsters@);
        while i > 0
            invariant
                i <= self.monsters.len(),
                monster_at(self.monsters@, r as int, c as int) == monster_at(
                    self.monsters@.take(i as int),
                    r as int,
                    c as int,
                ),
            decreases i,
        {
            let m = self.monsters[i - 1];
            assert(self.monsters@.take(i as int).drop_last() =~= self.monsters@.take(i - 1));
            if m.col == c && m.row == r {
                if m.jumping.is_some() {
                    return Some(Tile::MonsterJumping);
                } else {
                    return Some(Tile::Monster);
                }
            }
            i -= 1;
        }
        None
    }

    fn bullet_at(&self, r: u16, c: u16) -> (b: bool)
        ensures
            b == self@.bullet_at(r as int, c as int),
    {
        let mut i: usize = 0;
        while i < self.bullets.len()
            invariant
                i <= self.bullets.len(),
                forall|k: int|
                    0 <= k < i ==> !((#[trigger] self.bullets[k]).col == c && self.bullets[k].row
                        == r),
            decreases self.bullets.len() - i,
        {
            if self.bullets[i].col == c && self.bullets[i].row == r {
                assert(self@.bullets[i as int].col == c && self@.bullets[i as int].row == r);
                return true;
            }
            i += 1;
        }
        false
    }

    fn gap_at(&self, c: u16) -> (b: bool)
        ensures
            b == self@.gap_at(c as int),
    {
        let mut i: usize = 0;
        while i < self.craters.len()
            invariant
                i <= self.craters.len(),
                forall|k: int|
                    0 <= k < i ==> !((#[trigger] self.craters[k]).col == c && self.craters[k].row
                        < self.rows),
            decreases self.craters.len() - i,
        {
            if self.craters[i].col == c && self.craters[i].row < self.rows {
                assert(self@.craters[i as int].col == c && self@.craters[i as int].row < self.rows);
                return true;
            }
            i += 1;
        }
        false
    }

    /// The tile in the cell at column `c` and row `r`.
    pub fn tile(&self, r: u16, c: u16) -> (t: Tile)
        ensures
            t == self@.tile_at(r as int, c as int),
    {
        if let Some(t) = self.star_at(r, c) {
            return t;
        }
        if self.bullet_at(r, c) {
            return Tile::Bullet;
        }
        if let Some(t) = self.monster_at(r, c) {
            return t;
        }
        let surface: bool = self.rows >= SURFACE_OFFSET && r == self.rows - SURFACE_OFFSET;
        let bedrock: bool = self.rows >= BEDROCK_OFFSET && r == self.rows - BEDROCK_OFFSET;
        if surface && self.gap_at(c) {
            Tile::Empty
        } else if surface || bedrock {
            Tile::Ground
        } else {
            Tile::Empty
        }
    }

    /// The screen, row by row from the top: as many rows as the world has,
    /// each as wide as the world, every cell with its tile. There must be
    /// room for the two rows of ground.
    pub fn scene(&self) -> (grid: Vec<Vec<Tile>>)
        requires
            self.rows >= SURFACE_OFFSET,
        ensures
            grid@.len() == self.rows,
            forall|r: int| 0 <= r < self.rows ==> (#[trigger] grid@[r])@.len() == self.cols,
            forall|r: int, c: int|
                0 <= r < self.rows && 0 <= c < self.cols ==> #[trigger] grid@[r]@[c]
                    == self@.tile_at(r, c),
    {
        let mut grid: Vec<Vec<Tile>> = Vec::new();
        let mut r: u16 = 0;
        while r < self.rows
            invariant
                r <= self.rows,
                grid@.len() == r,
                forall|k: int| 0 <= k < r ==> (#[trigger] grid@[k])@.len() == self.cols,
                forall|k: int, c: int|
                    0 <= k < r && 0 <= c < self.cols ==> #[trigger] grid@[k]@[c] == self@.tile_at(
                        k,
                        c,
                    ),
            decreases self.rows - r,
        {
            let mut line: Vec<Tile> = Vec::new();
            let mut c: u16 = 0;
            while c < self.cols
                invariant
                    c <= self.cols,
                    line@.len() == c,
                    forall|k: int| 0 <= k < c ==> #[trigger] line@[k] == self@.tile_at(r as int, k),
                decreases self.cols - c,
            {
                line.push(self.tile(r, c));
                c += 1;
            }
            grid.push(line);
            r += 1;
        }
        grid
    }
}

} // verus!
