//! Levels and the cosmetic choices of a game.

use crate::dice;
use vstd::prelude::*;

verus! {

/// A probability is a number of parts in this many.
pub const PROB_SCALE: u32 = 1_000_000;

/// One part in five, the chance of every hazard that a stock level has.
pub const PROB_FIFTH: u32 = 200_000;

/// Points that a stock level asks for.
pub const STOCK_POINTS: u16 = 100;

#[derive(Clone, Copy, Debug, PartialEq, Eq, Structural)]
pub enum Color {
    Black,
    DarkGrey,
    Red,
    DarkRed,
    Green,
    DarkGreen,
    Yellow,
    DarkYellow,
    Blue,
    DarkBlue,
    Magenta,
    DarkMagenta,
    Cyan,
    DarkCyan,
    White,
    Grey,
}

/// The spawn chances of one level, each in parts of `PROB_SCALE`, and the
/// points it takes to leave the level behind.
#[derive(Clone, Debug)]
pub struct Level {
    pub prob_crater_one: u32,
    pub prob_crater_two: u32,
    pub prob_crater_three: u32,
    pub prob_monster: u32,
    pub prob_monster_jumping: u32,
    pub points: u16,
    pub desc: String,
}

impl Default for Level {
    /// The first stock level: single craters only.
    fn default() -> (level: Level)
        ensures
            level.is_stock(0, 0, 0, 0, Seq::empty()),
            level.wf(),
    {
        Level {
            prob_crater_one: PROB_FIFTH,
            prob_crater_two: 0,
            prob_crater_three: 0,
            prob_monster: 0,
            prob_monster_jumping: 0,
            points: STOCK_POINTS,
            desc: String::new(),
        }
    }
}

impl Level {
    /// Every chance is a probability: at most `PROB_SCALE` parts.
    pub open spec fn wf(&self) -> bool {
        &&& self.prob_crater_one <= PROB_SCALE
        &&& self.prob_crater_two <= PROB_SCALE
        &&& self.prob_crater_three <= PROB_SCALE
        &&& self.prob_monster <= PROB_SCALE
        &&& self.prob_monster_jumping <= PROB_SCALE
    }

    /// A stock level: single craters at one in five, the other hazards at
    /// the chances given, a hundred points to pass.
    pub open spec fn is_stock(
        &self,
        two: int,
        three: int,
        monster: int,
        jumping: int,
        desc: Seq<char>,
    ) -> bool {
        &&& self.prob_crater_one == PROB_FIFTH
        &&& self.prob_crater_two == two
        &&& self.prob_crater_three == three
        &&& self.prob_monster == monster
        &&& self.prob_monster_jumping == jumping
        &&& self.points == STOCK_POINTS
        &&& self.desc@ == desc
    }

    /// A level drawn at random: craters of one, two and three columns with
    /// a chance below 0.5, 0.6 and 0.7, monsters below 0.8, bobbing monsters
    /// below 0.9, and between 20 and 59 points to pass.
    pub open spec fn is_random(&self) -> bool {
        &&& self.prob_crater_one < 500_000
        &&& self.prob_crater_two < 600_000
        &&& self.prob_crater_three < 700_000
        &&& self.prob_monster < 800_000
        &&& self.prob_monster_jumping < 900_000
        &&& 20 <= self.points < 60
        &&& self.desc@ == "Wohoo! This level is completely random!"@
    }

    /// Whether every chance of the level is a probability.
    pub fn playable(&self) -> (b: bool)
        ensures
            b == self.wf(),
    {
        self.prob_crater_one <= PROB_SCALE && self.prob_crater_two <= PROB_SCALE
            && self.prob_crater_three <= PROB_SCALE && self.prob_monster <= PROB_SCALE
            && self.prob_monster_jumping <= PROB_SCALE
    }

    /// Builds the stock level with the given chances and description.
    pub fn stock(two: u32, three: u32, monster: u32, jumping: u32, desc: &str) -> (level: Level)
        ensures
            level.is_stock(two as int, three as int, monster as int, jumping as int, desc@),
    {
        Level {
            prob_crater_one: PROB_FIFTH,
            prob_crater_two: two,
            prob_crater_three: three,
            prob_monster: monster,
            prob_monster_jumping: jumping,
            points: STOCK_POINTS,
            desc: desc.to_owned(),
        }
    }

    /// Draws a level at random.
    pub fn random() -> (level: Level)
        ensures
            level.is_random(),
            level.wf(),
    {
        let one: u32 = dice::roll(0, 500_000);
        let two: u32 = dice::roll(0, 600_000);
        let three: u32 = dice::roll(0, 700_000);
        let monster: u32 = dice::roll(0, 800_000);
        let jumping: u32 = dice::roll(0, 900_000);
        let points: u32 = dice::roll(20, 60);
        Level {
            prob_crater_one: one,
            prob_crater_two: two,
            prob_crater_three: three,
            prob_monster: monster,
            prob_monster_jumping: jumping,
            points: points as u16,
            desc: "Wohoo! This level is completely random!".to_owned(),
        }
    }
}

#[derive(Clone, Debug)]
pub struct Config {
    pub color_context: Color,
    pub color_ground: Color,
    pub char_ground: char,
    pub color_rover: Color,
    pub color_monster: Color,
    pub char_monster: char,
    pub color_monster_jumping: Color,
    pub char_monster_jumping: char,
    pub color_bullet: Color,
    pub char_bullet: char,
    pub color_background: Color,
    pub levels: Vec<Level>,
}

impl Config {
    /// The stock glyphs and colours.
    pub open spec fn stock_look(&self) -> bool {
        &&& self.color_context == Color::DarkYellow
        &&& self.color_ground == Color::DarkGreen
        &&& self.char_ground == '#'
        &&& self.color_rover == Color::DarkBlue
        &&& self.color_monster == Color::DarkMagenta
        &&& self.char_monster == 'o'
        &&& self.color_monster_jumping == Color::DarkCyan
        &&& self.char_monster_jumping == 'O'
        &&& self.color_bullet == Color::DarkRed
        &&& self.char_bullet == '-'
        &&& self.color_background == Color::DarkYellow
    }

    /// The five stock levels: each adds one hazard to the one before.
    pub open spec fn stock_levels(&self) -> bool {
        &&& self.levels@.len() == 5
        &&& self.levels[0].is_stock(0, 0, 0, 0, Seq::empty())
        &&& self.levels[1].is_stock(
            PROB_FIFTH as int,
            0,
            0,
            0,
            "In level one the craters are a bit wider!"@,
        )
        &&& self.levels[2].is_stock(
            PROB_FIFTH as int,
            PROB_FIFTH as int,
            0,
            0,
            "In level two the craters can be three wide!"@,
        )
        &&& self.levels[3].is_stock(
            PROB_FIFTH as int,
            PROB_FIFTH as int,
            PROB_FIFTH as int,
            0,
            "Oh now! There might be monsters. Shoot them!"@,
        )
        &&& self.levels[4].is_stock(
            PROB_FIFTH as int,
            PROB_FIFTH as int,
            PROB_FIFTH as int,
            PROB_FIFTH as int,
            "Some monsters are jumping to evade the bullets!"@,
        )
    }

    /// There is a level to play and every level holds probabilities.
    pub open spec fn wf(&self) -> bool {
        &&& self.levels@.len() > 0
        &&& forall|i: int| 0 <= i < self.levels@.len() ==> (#[trigger] self.levels[i]).wf()
    }

    /// Whether the game can be played on these settings.
    pub fn playable(&self) -> (b: bool)
        ensures
            b == self.wf(),
    {
        if self.levels.len() == 0 {
            return false;
        }
        let mut i: usize = 0;
        while i < self.levels.len()
            invariant
                i <= self.levels.len(),
                forall|k: int| 0 <= k < i ==> (#[trigger] self.levels[k]).wf(),
            decreases self.levels.len() - i,
        {
            if !self.levels[i].playable() {
                return false;
            }
            i += 1;
        }
        true
    }
}

impl Default for Config {
    fn default() -> (config: Config)
        ensures
            config.stock_look(),
            config.stock_levels(),
            config.wf(),
    {
        let mut levels: Vec<Level> = Vec::new();
        levels.push(Level::default());
        levels.push(Level::stock(PROB_FIFTH, 0, 0, 0, "In level one the craters are a bit wider!"));
        levels.push(
            Level::stock(PROB_FIFTH, PROB_FIFTH, 0, 0, "In level two the craters can be three wide!"),
        );
        levels.push(
            Level::stock(
                PROB_FIFTH,
                PROB_FIFTH,
                PROB_FIFTH,
                0,
                "Oh now! There might be monsters. Shoot them!",
            ),
        );
        levels.push(
            Level::stock(
                PROB_FIFTH,
                PROB_FIFTH,
                PROB_FIFTH,
                PROB_FIFTH,
                "Some monsters are jumping to evade the bullets!",
            ),
        );
        Config {
            color_context: Color::DarkYellow,
            color_ground: Color::DarkGreen,
            char_ground: '#',
            color_rover: Color::DarkBlue,
            color_bullet: Color::DarkRed,
            char_bullet: '-',
            color_monster: Color::DarkMagenta,
            char_monster: 'o',
            color_monster_jumping: Color::DarkCyan,
            char_monster_jumping: 'O',
            color_background: Color::DarkYellow,
            levels,
        }
    }
}

} // verus!
