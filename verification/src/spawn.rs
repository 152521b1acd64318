//! What a tick may add at the right edge of the world, and how the dice
//! decide it.

use crate::config::{Level, PROB_SCALE};
use crate::dice;
use vstd::prelude::*;

verus! {

/// The hazard, if any, that appears at the right edge.
#[derive(Clone, Copy, Debug, PartialEq, Eq, Structural)]
pub enum Spawn {
    Nothing,
    CraterOne,
    CraterTwo,
    CraterThree,
    Monster,
    MonsterJumping,
}

impl Spawn {
    /// The choice that six trials lead to: nothing unless the coin came up,
    /// else the first hazard, in the order of the variants, whose own trial
    /// succeeded. A later trial is only looked at when all before it failed.
    pub open spec fn chosen(
        coin: bool,
        one: bool,
        two: bool,
        three: bool,
        monster: bool,
        jumping: bool,
    ) -> Spawn {
        if !coin {
            Spawn::Nothing
        } else if one {
            Spawn::CraterOne
        } else if two {
            Spawn::CraterTwo
        } else if three {
            Spawn::CraterThree
        } else if monster {
            Spawn::Monster
        } else if jumping {
            Spawn::MonsterJumping
        } else {
            Spawn::Nothing
        }
    }

    /// Number of craters that the choice digs.
    pub open spec fn craters(self) -> nat {
        match self {
            Spawn::CraterOne => 1,
            Spawn::CraterTwo => 2,
            Spawn::CraterThree => 3,
            _ => 0,
        }
    }

    /// The choice can come out of a roll on `level`: a hazard with no chance
    /// never appears, and none appears behind a hazard that is certain.
    pub open spec fn possible(self, level: &Level) -> bool {
        match self {
            Spawn::Nothing => true,
            Spawn::CraterOne => level.prob_crater_one > 0,
            Spawn::CraterTwo => level.prob_crater_one < PROB_SCALE && level.prob_crater_two > 0,
            Spawn::CraterThree => {
                &&& level.prob_crater_one < PROB_SCALE
                &&& level.prob_crater_two < PROB_SCALE
                &&& level.prob_crater_three > 0
            },
            Spawn::Monster => {
                &&& level.prob_crater_one < PROB_SCALE
                &&& level.prob_crater_two < PROB_SCALE
                &&& level.prob_crater_three < PROB_SCALE
                &&& level.prob_monster > 0
            },
            Spawn::MonsterJumping => {
                &&& level.prob_crater_one < PROB_SCALE
                &&& level.prob_crater_two < PROB_SCALE
                &&& level.prob_crater_three < PROB_SCALE
                &&& level.prob_monster < PROB_SCALE
                &&& level.prob_monster_jumping > 0
            },
        }
    }

    /// Decides on the outcome of the six trials.
    pub fn select(coin: bool, one: bool, two: bool, three: bool, monster: bool, jumping: bool) -> (kind:
        Spawn)
        ensures
            kind == Spawn::chosen(coin, one, two, three, monster, jumping),
    {
        if !coin {
            Spawn::Nothing
        } else if one {
            Spawn::CraterOne
        } else if two {
            Spawn::CraterTwo
        } else if three {
            Spawn::CraterThree
        } else if monster {
            Spawn::Monster
        } else if jumping {
            Spawn::MonsterJumping
        } else {
            Spawn::Nothing
        }
    }

    /// Flips a fair coin, makes one independent trial for each hazard with
    /// the chance that the level gives it, and decides on the outcome.
    pub fn roll(level: &Level) -> (kind: Spawn)
        requires
            level.wf(),
        ensures
            kind.possible(level),
    {
        let coin = dice::chance(1, 2);
        let one = dice::chance(level.prob_crater_one, PROB_SCALE);
        let two = dice::chance(level.prob_crater_two, PROB_SCALE);
        let three = dice::chance(level.prob_crater_three, PROB_SCALE);
        let monster = dice::chance(level.prob_monster, PROB_SCALE);
        let jumping = dice::chance(level.prob_monster_jumping, PROB_SCALE);
        Spawn::select(coin, one, two, three, monster, jumping)
    }
}

} // verus!
