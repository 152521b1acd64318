//! Laws of the engine: what holds of every rover, every world and every
//! roll of the dice.

use crate::background::Background;
use crate::bullet::Bullet;
use crate::monster::Monster;
use crate::motion::{
    first_hit, fly, lemma_first_hit, scroll_backgrounds, scroll_craters, scroll_monsters, volley,
};
use crate::rover::{Rover, RoverState, JUMP_FRAMES, WRECK_FRAMES};
use crate::spawn::Spawn;
use crate::world::WorldModel;
use vstd::prelude::*;

verus! {

/// What can happen to a rover.
pub enum Event {
    /// A tick of time passes.
    Tick,
    /// The player asks for a jump.
    Jump,
    /// The rover drives into a crater.
    CraterHit,
    /// A monster catches the rover.
    MonsterHit,
    /// The rover is put at its anchor on a screen.
    Anchor(u16, u16),
}

impl Event {
    /// The event is a collision with a hazard.
    pub open spec fn is_collision(self) -> bool {
        self is CraterHit || self is MonsterHit
    }
}

/// The rover after the event.
pub open spec fn after(r: Rover, e: Event) -> Rover {
    match e {
        Event::Tick => r.ticked(),
        Event::Jump => r.jumped(),
        Event::CraterHit => r.crashed(),
        Event::MonsterHit => r.stunned(),
        Event::Anchor(col, row) => r.anchored(col, row),
    }
}

/// The rover after the events, in their order.
pub open spec fn after_all(r: Rover, es: Seq<Event>) -> Rover
    decreases es.len(),
{
    if es.len() == 0 {
        r
    } else {
        after(after_all(r, es.drop_last()), es.last())
    }
}

/// Number of collisions among the events.
pub open spec fn collisions(es: Seq<Event>) -> nat
    decreases es.len(),
{
    if es.len() == 0 {
        0
    } else {
        collisions(es.drop_last()) + if es.last().is_collision() {
            1nat
        } else {
            0nat
        }
    }
}

/// A rover is in exactly one of its four states.
pub proof fn law_one_state(s: RoverState)
    ensures
        s is Run || s is Jump || s is Crash || s is Monster,
        !(s is Run && s is Jump),
        !(s is Run && s is Crash),
        !(s is Run && s is Monster),
        !(s is Jump && s is Crash),
        !(s is Jump && s is Monster),
        !(s is Crash && s is Monster),
{
}

/// The table of what a tick does to a state: a running rover runs on; a
/// jump, a crash and a stun count one frame up to their last frame and end
/// in running. The frame counter never leaves its budget.
pub proof fn law_tick_table(s: RoverState)
    ensures
        s is Run ==> s.after_tick() == RoverState::Run,
        s matches RoverState::Jump(f) ==> s.after_tick() == if f < JUMP_FRAMES {
            RoverState::Jump((f + 1) as u32)
        } else {
            RoverState::Run
        },
        s matches RoverState::Crash(f) ==> s.after_tick() == if f < WRECK_FRAMES {
            RoverState::Crash((f + 1) as u32)
        } else {
            RoverState::Run
        },
        s matches RoverState::Monster(f) ==> s.after_tick() == if f < WRECK_FRAMES {
            RoverState::Monster((f + 1) as u32)
        } else {
            RoverState::Run
        },
        s.in_budget() ==> s.after_tick().in_budget(),
{
}

/// The last frame of a jump is followed by running; the last frame of a
/// crash and of a stun is the signal to reboot and is followed by running.
/// No other state gives that signal.
pub proof fn law_last_frames(s: RoverState)
    ensures
        RoverState::Jump(JUMP_FRAMES).after_tick() == RoverState::Run,
        RoverState::Crash(WRECK_FRAMES).is_rebooting(),
        RoverState::Crash(WRECK_FRAMES).after_tick() == RoverState::Run,
        RoverState::Monster(WRECK_FRAMES).is_rebooting(),
        RoverState::Monster(WRECK_FRAMES).after_tick() == RoverState::Run,
        s.is_rebooting() ==> !s.is_moving() && s.after_tick() == RoverState::Run,
{
}

/// A jump that nothing disturbs is in frame `n` after `n` ticks, up to its
/// last frame, and over one tick later.
pub proof fn law_jump_runs_out(n: nat)
    ensures
        n <= JUMP_FRAMES ==> RoverState::Jump(0).after_ticks(n) == RoverState::Jump(n as u32),
        n == JUMP_FRAMES + 1 ==> RoverState::Jump(0).after_ticks(n) == RoverState::Run,
    decreases n,
{
    if n > 0 {
        law_jump_runs_out((n - 1) as nat);
    }
}

/// A crash and a stun that nothing disturbs are in frame `n` after `n`
/// ticks, give the signal to reboot after `WRECK_FRAMES` ticks, and are
/// over one tick later.
pub proof fn law_wreck_runs_out(n: nat)
    ensures
        n <= WRECK_FRAMES ==> RoverState::Crash(0).after_ticks(n) == RoverState::Crash(n as u32),
        n <= WRECK_FRAMES ==> RoverState::Monster(0).after_ticks(n) == RoverState::Monster(
            n as u32,
        ),
        n == WRECK_FRAMES ==> RoverState::Crash(0).after_ticks(n).is_rebooting(),
        n == WRECK_FRAMES ==> RoverState::Monster(0).after_ticks(n).is_rebooting(),
        n == WRECK_FRAMES + 1 ==> RoverState::Crash(0).after_ticks(n) == RoverState::Run,
        n == WRECK_FRAMES + 1 ==> RoverState::Monster(0).after_ticks(n) == RoverState::Run,
    decreases n,
{
    if n > 0 {
        law_wreck_runs_out((n - 1) as nat);
    }
}

/// No event takes the frame counter out of its budget or the animation
/// counter out of its cycle.
pub proof fn law_wf_kept(r: Rover, e: Event)
    requires
        r.wf(),
    ensures
        after(r, e).wf(),
{
}

/// An event costs a life exactly when it is a collision of a moving rover
/// that has a life left, and then it costs one. No event gives a life.
pub proof fn law_life_per_event(r: Rover, e: Event)
    ensures
        after(r, e).lives == if e.is_collision() && r.state.is_moving() && r.lives > 0 {
            r.lives - 1
        } else {
            r.lives as int
        },
        after(r, e).lives <= r.lives,
{
}

/// Over any sequence of events the lives of a rover never grow, and they
/// fall by no more than the number of collisions among the events.
pub proof fn law_lives(r: Rover, es: Seq<Event>)
    ensures
        after_all(r, es).lives <= r.lives,
        r.lives - after_all(r, es).lives <= collisions(es),
    decreases es.len(),
{
    if es.len() > 0 {
        law_lives(r, es.drop_last());
        law_life_per_event(after_all(r, es.drop_last()), es.last());
    }
}

/// The table of what a jump command does to a state: a running rover takes
/// off, a jumping rover lands, and a crash and a stun go on as if nothing
/// had been asked.
pub proof fn law_jump_table(s: RoverState)
    ensures
        s is Run ==> s.after_jump() == RoverState::Jump(0),
        s is Jump ==> s.after_jump() == RoverState::Run,
        s is Crash || s is Monster ==> s.after_jump() == s,
        s.is_moving() == s.after_jump().is_moving(),
        s.in_budget() ==> s.after_jump().in_budget(),
{
}

/// A collision is taken by a moving rover only: a rover that is crashing
/// or stunned is left as it is, with its frame and its lives.
pub proof fn law_wreck_is_not_wrecked_again(r: Rover)
    requires
        !r.state.is_moving(),
    ensures
        r.crashed() == r,
        r.stunned() == r,
{
}

/// Number of ticks among the events.
pub open spec fn ticks(es: Seq<Event>) -> nat
    decreases es.len(),
{
    if es.len() == 0 {
        0
    } else {
        ticks(es.drop_last()) + if es.last() is Tick {
            1nat
        } else {
            0nat
        }
    }
}

/// A wreck plays to its end whatever the player asks: through ticks and
/// jump commands in any order, a crash or a stun in frame `f` is in frame
/// `f` plus the number of ticks, up to its last frame, and costs no further
/// life. So the signal to reboot always comes.
pub proof fn law_wreck_plays_out(r: Rover, es: Seq<Event>, f: u32)
    requires
        r.state == RoverState::Crash(f) || r.state == RoverState::Monster(f),
        forall|i: int| 0 <= i < es.len() ==> (#[trigger] es[i]) is Tick || es[i] is Jump,
        f + ticks(es) <= WRECK_FRAMES,
    ensures
        r.state is Crash ==> after_all(r, es).state == RoverState::Crash((f + ticks(es)) as u32),
        r.state is Monster ==> after_all(r, es).state == RoverState::Monster(
            (f + ticks(es)) as u32,
        ),
        f + ticks(es) == WRECK_FRAMES ==> after_all(r, es).state.is_rebooting(),
        after_all(r, es).lives == r.lives,
    decreases es.len(),
{
    if es.len() > 0 {
        let before = es.drop_last();
        assert forall|i: int| 0 <= i < before.len() implies (#[trigger] before[i]) is Tick
            || before[i] is Jump by {
            assert(before[i] == es[i]);
        }
        law_wreck_plays_out(r, before, f);
        assert(es.last() == es[es.len() - 1]);
    }
}

/// A tick of the world costs no life and brings no point, whatever the dice
/// chose: it only puts the rover at its anchor.
pub proof fn law_step_spares_rover(
    w: WorldModel,
    cols: u16,
    rows: u16,
    kind: Spawn,
    particle: Option<Background>,
)
    ensures
        w.stepped(cols, rows, kind, particle).rover == w.rover.anchored(
            crate::world::ANCHOR_COL,
            w.settled(cols, rows).ground_row(),
        ),
        w.stepped(cols, rows, kind, particle).rover.lives == w.rover.lives,
        w.stepped(cols, rows, kind, particle).rover.points == w.rover.points,
        w.stepped(cols, rows, kind, particle).rover.state == w.rover.state,
{
}

/// The collisions of one tick cost the rover at most one life: exactly one
/// when it drives into a crater or is caught by a monster and has a life
/// left, and none otherwise. A rover that does not move is left alone.
pub proof fn law_one_life_per_tick(w: WorldModel)
    ensures
        w.collided().rover.lives == if (w.wrecks() || w.caught()) && w.rover.lives > 0 {
            w.rover.lives - 1
        } else {
            w.rover.lives as int
        },
        w.collided().rover.lives <= w.rover.lives,
        !w.rover.state.is_moving() ==> w.collided() == w,
{
}

/// A rover that moves and does not jump drives into a crater exactly when
/// a crater is in one of the four columns from one ahead of the rover.
pub proof fn law_hitbox(w: WorldModel)
    requires
        w.rover.state is Run,
    ensures
        w.collided().rover.state == RoverState::Crash(0) <==> exists|i: int|
            0 <= i < w.craters.len() && w.rover.col + 1 <= (#[trigger] w.craters[i]).col
                < w.rover.col + 5,
{
    if w.crater_ahead() {
        let i = choose|i: int|
            0 <= i < w.craters.len() && w.rover.in_hitbox((#[trigger] w.craters[i]).col as int);
        assert(w.rover.col + 1 <= w.craters[i].col < w.rover.col + 5);
    }
    if exists|i: int|
        0 <= i < w.craters.len() && w.rover.col + 1 <= (#[trigger] w.craters[i]).col < w.rover.col
            + 5 {
        let i = choose|i: int|
            0 <= i < w.craters.len() && w.rover.col + 1 <= (#[trigger] w.craters[i]).col
                < w.rover.col + 5;
        assert(w.rover.in_hitbox(w.craters[i].col as int));
    }
}

/// A crater alone in the world, in column `c`, wrecks a running rover
/// exactly when `c` is in the band from one to four columns ahead of it; a
/// jumping rover it never wrecks.
pub proof fn law_single_crater(w: WorldModel, c: u16)
    requires
        w.craters.len() == 1,
        w.craters[0].col == c,
        w.rover.state.is_moving(),
    ensures
        w.wrecks() <==> w.rover.state is Run && w.rover.col + 1 <= c < w.rover.col + 5,
{
    if w.rover.col + 1 <= c < w.rover.col + 5 {
        assert(w.rover.in_hitbox(w.craters[0].col as int));
    }
}

/// Where a crater or a monster is in the lane after the world has settled,
/// the tick adds neither of them, whatever the dice chose.
pub proof fn law_occupied_lane(
    w: WorldModel,
    cols: u16,
    rows: u16,
    kind: Spawn,
    particle: Option<Background>,
)
    requires
        !w.settled(cols, rows).lane_clear(),
    ensures
        w.stepped(cols, rows, kind, particle).craters == w.settled(cols, rows).craters,
        w.stepped(cols, rows, kind, particle).monsters == w.settled(cols, rows).monsters,
{
}

/// What a tick adds is never in the lane: every new crater and monster is
/// right of the screen.
pub proof fn law_spawn_beside_lane(w: WorldModel, kind: Spawn)
    ensures
        forall|k: int|
            0 <= k < w.new_craters(kind).len() ==> !w.in_lane((#[trigger] w.new_craters(kind)[k]).col),
        forall|k: int|
            0 <= k < w.new_monsters(kind).len() ==> !w.in_lane(
                (#[trigger] w.new_monsters(kind)[k]).col,
            ),
        w.spawned(kind).lane_clear() == w.lane_clear(),
{
    let s = w.spawned(kind);
    if w.lane_clear() {
        assert forall|i: int| 0 <= i < s.monsters.len() implies !s.in_lane(
            #[trigger] s.monsters[i].col,
        ) by {
            if i < w.monsters.len() {
                assert(s.monsters[i] == w.monsters[i]);
            } else {
                assert(s.monsters[i] == w.new_monsters(kind)[i - w.monsters.len()]);
            }
        }
        assert forall|i: int| 0 <= i < s.craters.len() implies !s.in_lane(
            #[trigger] s.craters[i].col,
        ) by {
            if i < w.craters.len() {
                assert(s.craters[i] == w.craters[i]);
            } else {
                assert(s.craters[i] == w.new_craters(kind)[i - w.craters.len()]);
            }
        }
    }
    if s.lane_clear() {
        assert forall|i: int| 0 <= i < w.monsters.len() implies !w.in_lane(
            #[trigger] w.monsters[i].col,
        ) by {
            assert(s.monsters[i] == w.monsters[i]);
        }
        assert forall|i: int| 0 <= i < w.craters.len() implies !w.in_lane(
            #[trigger] w.craters[i].col,
        ) by {
            assert(s.craters[i] == w.craters[i]);
        }
    }
}

/// Every bullet that a volley leaves was fired into it and is on the
/// screen, and every monster that lives through it was there before.
pub proof fn lemma_volley_members(bs: Seq<Bullet>, ms: Seq<Monster>, cols: u16)
    ensures
        forall|i: int|
            0 <= i < volley(bs, ms, cols).0.len() ==> bs.contains(#[trigger] volley(bs, ms, cols).0[i])
                && volley(bs, ms, cols).0[i].col < cols,
        forall|i: int|
            0 <= i < volley(bs, ms, cols).1.len() ==> ms.contains(#[trigger] volley(bs, ms, cols).1[i]),
    decreases bs.len(),
{
    if bs.len() > 0 {
        let b = bs[0];
        let rest = bs.drop_first();
        let k = first_hit(ms, b, 0);
        lemma_first_hit(ms, b, 0);
        let out = volley(bs, ms, cols);
        if k < ms.len() {
            let fewer = ms.remove(k);
            lemma_volley_members(rest, fewer, cols);
            let sub = volley(rest, fewer, cols);
            assert(out == sub);
            assert forall|i: int| 0 <= i < out.0.len() implies bs.contains(#[trigger] out.0[i])
                && out.0[i].col < cols by {
                assert(rest.contains(sub.0[i]));
                let j = choose|j: int| 0 <= j < rest.len() && rest[j] == sub.0[i];
                assert(bs[j + 1] == out.0[i]);
            }
            assert forall|i: int| 0 <= i < out.1.len() implies ms.contains(#[trigger] out.1[i]) by {
                assert(fewer.contains(sub.1[i]));
                let j = choose|j: int| 0 <= j < fewer.len() && fewer[j] == sub.1[i];
                if j < k {
                    assert(ms[j] == out.1[i]);
                } else {
                    assert(ms[j + 1] == out.1[i]);
                }
            }
        } else {
            lemma_volley_members(rest, ms, cols);
            let sub = volley(rest, ms, cols);
            assert forall|i: int| 0 <= i < out.0.len() implies bs.contains(#[trigger] out.0[i])
                && out.0[i].col < cols by {
                if b.col < cols && i == 0 {
                    assert(bs[0] == out.0[i]);
                } else {
                    let at = if b.col < cols {
                        i - 1
                    } else {
                        i
                    };
                    assert(out.0[i] == sub.0[at]);
                    assert(rest.contains(sub.0[at]));
                    let j = choose|j: int| 0 <= j < rest.len() && rest[j] == sub.0[at];
                    assert(bs[j + 1] == out.0[i]);
                }
            }
        }
    }
}

/// After a tick on a screen that has a column, nothing is in column zero:
/// neither bullet nor crater, monster or particle. This holds of the tick
/// of a moving rover, and of any tick on a world that was swept before it.
/// The particle handed in must itself not be in column zero.
pub proof fn law_swept(
    w: WorldModel,
    cols: u16,
    rows: u16,
    kind: Spawn,
    particle: Option<Background>,
)
    requires
        cols > 0,
        w.swept() || w.rover.state.is_moving(),
        particle matches Some(p) ==> p.col > 0,
    ensures
        w.stepped(cols, rows, kind, particle).swept(),
        forall|i: int|
            0 <= i < w.stepped(cols, rows, kind, particle).bullets.len() ==> (
            #[trigger] w.stepped(cols, rows, kind, particle).bullets[i]).col > 0,
{
    let base = w.settled(cols, rows);
    let out = w.stepped(cols, rows, kind, particle);
    let after = volley(fly(w.bullets), w.monsters, cols);
    lemma_volley_members(fly(w.bullets), w.monsters, cols);
    assert forall|i: int| 0 <= i < out.bullets.len() implies (#[trigger] out.bullets[i]).col > 0 by {
        assert(out.bullets[i] == after.0[i]);
        assert(fly(w.bullets).contains(after.0[i]));
        let j = choose|j: int| 0 <= j < fly(w.bullets).len() && fly(w.bullets)[j] == after.0[i];
        assert(fly(w.bullets)[j].col > 0);
    }
    if w.rover.state.is_moving() {
        broadcast use Seq::lemma_filter_pred;

        assert forall|i: int| 0 <= i < base.craters.len() implies (#[trigger] base.craters[i]).col
            > 0 by {
            assert(base.craters == scroll_craters(w.craters));
        }
        assert forall|i: int| 0 <= i < base.monsters.len() implies (#[trigger] base.monsters[i]).col
            > 0 by {
            assert(base.monsters == scroll_monsters(after.1));
        }
        assert forall|i: int| 0 <= i < base.backgrounds.len() implies (
        #[trigger] base.backgrounds[i]).col > 0 by {
            assert(base.backgrounds == scroll_backgrounds(
                w.backgrounds,
                w.rover.tick % crate::world::SKY_PERIOD == 0,
            ));
        }
        assert(base.swept());
        let grown = if base.lane_clear() {
            base.spawned(kind)
        } else {
            base
        };
        assert forall|i: int| 0 <= i < grown.craters.len() implies (#[trigger] grown.craters[i]).col
            > 0 by {
            if i < base.craters.len() {
                assert(grown.craters[i] == base.craters[i]);
            } else {
                assert(grown.craters[i] == base.new_craters(kind)[i - base.craters.len()]);
            }
        }
        assert forall|i: int| 0 <= i < grown.monsters.len() implies (
        #[trigger] grown.monsters[i]).col > 0 by {
            if i < base.monsters.len() {
                assert(grown.monsters[i] == base.monsters[i]);
            } else {
                assert(grown.monsters[i] == base.new_monsters(kind)[i - base.monsters.len()]);
            }
        }
        assert forall|i: int| 0 <= i < out.backgrounds.len() implies (
        #[trigger] out.backgrounds[i]).col > 0 by {
            if i < base.backgrounds.len() {
                assert(out.backgrounds[i] == base.backgrounds[i]);
            }
        }
    } else {
        assert forall|i: int| 0 <= i < out.monsters.len() implies (#[trigger] out.monsters[i]).col
            > 0 by {
            assert(out.monsters[i] == after.1[i]);
            assert(w.monsters.contains(after.1[i]));
            let j = choose|j: int| 0 <= j < w.monsters.len() && w.monsters[j] == after.1[i];
            assert(w.monsters[j].col > 0);
        }
    }
}

/// Clearing the world for a reboot takes every crater and every monster
/// away and leaves the rover with its lives and its score, the bullets and
/// the particles as they were.
pub proof fn law_reboot_keeps_score(w: WorldModel)
    ensures
        w.cleared().craters.len() == 0,
        w.cleared().monsters.len() == 0,
        w.cleared().rover == w.rover,
        w.cleared().bullets == w.bullets,
        w.cleared().backgrounds == w.backgrounds,
        w.cleared().lane_clear(),
{
}

} // verus!
