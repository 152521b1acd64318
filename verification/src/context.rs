//! A session of the game: the world, the level reached, and the messages
//! on the screen.

use crate::background::Background;
use crate::config::{Config, Level};
use crate::motion::left_of;
use crate::scene::{Tile, SURFACE_OFFSET};
use crate::spawn::Spawn;
use crate::text::{decimal, push_decimal};
use crate::world::{World, WorldModel};
use vstd::prelude::*;

verus! {

/// Ticks for which the messages of a new level are queued.
pub const BANNER_TICKS: u16 = 40;

#[derive(Clone, Copy, Debug, PartialEq, Eq, Structural)]
pub enum State {
    Run,
    Quit,
}

/// A line of text with the ticks it has left.
#[derive(Debug)]
pub struct Message {
    pub message: String,
    pub tick: u16,
}

/// What the player asks for in one tick.
#[derive(Clone, Copy, Debug, PartialEq, Eq, Structural)]
pub enum Command {
    Idle,
    Jump,
    Shoot,
    Quit,
}

pub struct Context {
    pub state: State,
    pub config: Config,
    pub level: usize,
    pub messages: Vec<Message>,
    pub world: World,
}

/// Points that it takes to pass the first `count` levels.
pub open spec fn owed(levels: Seq<Level>, count: nat) -> int
    decreases count,
{
    if count == 0 {
        0
    } else {
        owed(levels, (count - 1) as nat) + levels[count - 1].points
    }
}

/// The message with one tick less to live.
pub open spec fn aged(m: Message) -> Message {
    Message { message: m.message, tick: left_of(m.tick) }
}

/// The messages one tick later: each has aged, and those with no tick
/// left are gone.
pub open spec fn faded(ms: Seq<Message>) -> Seq<Message> {
    Seq::new(ms.len(), |i: int| aged(ms[i])).filter(|m: Message| m.tick > 0)
}

/// The status of a session in one line.
pub open spec fn status_line(lives: nat, points: nat, level: nat, levels: nat) -> Seq<char> {
    "Lives: "@ + decimal(lives) + " Points: "@ + decimal(points) + ", Level: "@ + decimal(level)
        + "/"@ + decimal(levels)
}

/// The headline of the message that announces `level`.
pub open spec fn banner(level: nat) -> Seq<char> {
    "Level up! You're now on level "@ + decimal(level)
}

impl Command {
    /// The command that a key stands for: space jumps, `j` shoots, `q`
    /// quits, any other key does nothing.
    pub open spec fn of_key(key: char) -> Command {
        if key == ' ' {
            Command::Jump
        } else if key == 'j' {
            Command::Shoot
        } else if key == 'q' {
            Command::Quit
        } else {
            Command::Idle
        }
    }

    pub fn from_key(key: char) -> (command: Command)
        ensures
            command == Command::of_key(key),
    {
        if key == ' ' {
            Command::Jump
        } else if key == 'j' {
            Command::Shoot
        } else if key == 'q' {
            Command::Quit
        } else {
            Command::Idle
        }
    }
}

impl Context {
    /// The level played is one of the levels, and every level holds
    /// probabilities.
    pub open spec fn wf(&self) -> bool {
        self.config.wf() && self.level < self.config.levels@.len()
    }

    /// The session goes on: nobody quit and the rover has a life left.
    pub open spec fn running(&self) -> bool {
        self.state == State::Run && self.world.rover.lives > 0
    }

    /// The score has reached what the levels up to the one played ask for.
    pub open spec fn level_passed(&self) -> bool {
        owed(self.config.levels@, (self.level + 1) as nat) <= self.world.rover.points
    }

    /// A fresh session on the levels of `config`.
    pub fn new(config: Config) -> (ctx: Context)
        ensures
            ctx.state == State::Run,
            ctx.config == config,
            ctx.level == 0,
            ctx.messages@.len() == 0,
            ctx.world@ == WorldModel::fresh(),
            ctx.running(),
            config.wf() ==> ctx.wf(),
    {
        Context {
            state: State::Run,
            config,
            level: 0,
            messages: Vec::new(),
            world: World::default(),
        }
    }

    /// Whether the session can be played: the level played is one of the
    /// levels, and every level holds probabilities.
    pub fn playable(&self) -> (b: bool)
        ensures
            b == self.wf(),
    {
        self.config.playable() && self.level < self.config.levels.len()
    }

    /// The lives and points of the rover, the level played and the number
    /// of levels, in one line.
    pub fn status(&self) -> (s: String)
        ensures
            s@ == status_line(
                self.world.rover.lives as nat,
                self.world.rover.points as nat,
                self.level as nat,
                self.config.levels@.len(),
            ),
    {
        let mut s: String = "Lives: ".to_owned();
        push_decimal(&mut s, self.world.rover.lives as usize);
        s.push_str(" Points: ");
        push_decimal(&mut s, self.world.rover.points as usize);
        s.push_str(", Level: ");
        push_decimal(&mut s, self.level);
        s.push_str("/");
        push_decimal(&mut s, self.config.levels.len());
        s
    }

    pub fn run(&self) -> (b: bool)
        ensures
            b == self.running(),
    {
        match self.state {
            State::Run => self.world.rover.lives > 0,
            State::Quit => false,
        }
    }

    pub fn quit(&mut self)
        ensures
            *final(self) == (Context { state: State::Quit, ..*old(self) }),
    {
        self.state = State::Quit;
    }

    /// Queues a message for `tick` ticks.
    pub fn addmessage(&mut self, message: String, tick: u16)
        ensures
            *final(self) == (Context { messages: final(self).messages, ..*old(self) }),
            final(self).messages@ == old(self).messages@.push(Message { message, tick }),
    {
        let msg = Message { message, tick };
        self.messages.push(msg);
    }

    /// Carries out the player's command.
    pub fn command(&mut self, command: Command)
        ensures
            final(self).config == old(self).config,
            final(self).level == old(self).level,
            final(self).messages == old(self).messages,
            final(self).state == if command == Command::Quit {
                State::Quit
            } else {
                old(self).state
            },
            final(self).world@ == match command {
                Command::Shoot => old(self).world@.shot(),
                Command::Jump => WorldModel {
                    rover: old(self).world.rover.jumped(),
                    ..old(self).world@
                },
                _ => old(self).world@,
            },
    {
        match command {
            Command::Idle => {},
            Command::Jump => {
                self.world.rover.jump();
            },
            Command::Shoot => {
                self.world.shoot();
            },
            Command::Quit => {
                self.quit();
            },
        }
    }

    /// Whether the score has reached what the levels so far ask for.
    pub fn passed(&self) -> (b: bool)
        requires
            self.level < self.config.levels@.len(),
        ensures
            b == self.level_passed(),
    {
        let total: usize = self.config.levels.len();
        let count: usize = self.level + 1;
        let mut sum: u128 = 0;
        let mut i: usize = 0;
        while i < count
            invariant
                i <= count <= total,
                total == self.config.levels@.len(),
                sum == owed(self.config.levels@, i as nat),
                sum <= i * 0xffff,
            decreases count - i,
        {
            sum = sum + self.config.levels[i].points as u128;
            i += 1;
        }
        sum <= self.world.rover.points as u128
    }

    /// Moves on when the score has reached what the levels so far ask for:
    /// to the next level, with two messages, if there is one; else a level
    /// drawn at random is added behind the last, to be entered on a later
    /// tick. The level never moves by more than one.
    pub fn progress(&mut self)
        requires
            old(self).wf(),
        ensures
            final(self).wf(),
            final(self).state == old(self).state,
            final(self).world == old(self).world,
            final(self).config == (Config { levels: final(self).config.levels, ..old(self).config }),
            final(self).level == old(self).level + if old(self).level_passed() && old(self).level
                + 1 < old(self).config.levels@.len() {
                1int
            } else {
                0int
            },
            !old(self).level_passed() ==> {
                &&& final(self).level == old(self).level
                &&& final(self).config.levels == old(self).config.levels
                &&& final(self).messages == old(self).messages
            },
            old(self).level_passed() && old(self).level + 1 < old(self).config.levels@.len() ==> {
                &&& final(self).level == old(self).level + 1
                &&& final(self).config.levels == old(self).config.levels
                &&& final(self).messages@.len() == old(self).messages@.len() + 2
                &&& final(self).messages@.take(old(self).messages@.len() as int) == old(
                    self,
                ).messages@
                &&& final(self).messages@[old(self).messages@.len() as int].message@ == banner(
                    final(self).level as nat,
                )
                &&& final(self).messages@[old(self).messages@.len() as int].tick == BANNER_TICKS
                &&& final(self).messages@[old(self).messages@.len() as int + 1].message == old(
                    self,
                ).config.levels@[final(self).level as int].desc
                &&& final(self).messages@[old(self).messages@.len() as int + 1].tick == BANNER_TICKS
            },
            old(self).level_passed() && old(self).level + 1 == old(self).config.levels@.len() ==> {
                &&& final(self).level == old(self).level
                &&& final(self).messages == old(self).messages
                &&& final(self).config.levels@.len() == old(self).config.levels@.len() + 1
                &&& final(self).config.levels@.drop_last() == old(self).config.levels@
                &&& final(self).config.levels@.last().is_random()
            },
    {
        if self.passed() {
            if self.level < self.config.levels.len() - 1 {
                self.level = self.level + 1;
                let mut headline: String = "Level up! You're now on level ".to_owned();
                push_decimal(&mut headline, self.level);
                let desc: String = self.config.levels[self.level].desc.clone();
                let ghost before = self.messages@;
                self.messages.push(Message { message: headline, tick: BANNER_TICKS });
                self.messages.push(Message { message: desc, tick: BANNER_TICKS });
                assert(self.messages@.take(before.len() as int) =~= before);
            } else {
                let ghost before = self.config.levels@;
                self.config.levels.push(Level::random());
                assert(self.config.levels@.drop_last() =~= before);
            }
        }
    }

    /// Ages the messages by one tick and drops those that have none left.
    pub fn fade(&mut self)
        ensures
            *final(self) == (Context { messages: final(self).messages, ..*old(self) }),
            final(self).messages@ == faded(old(self).messages@),
    {
        let mut out: Vec<Message> = Vec::new();
        let mut i: usize = 0;
        assert(faded(self.messages@.take(0)) =~= Seq::empty()) by {
            reveal(Seq::filter);
        }
        while i < self.messages.len()
            invariant
                i <= self.messages.len(),
                out@ == faded(self.messages@.take(i as int)),
            decreases self.messages.len() - i,
        {
            let tick: u16 = self.messages[i].tick.saturating_sub(1);
            let m = Message { message: self.messages[i].message.clone(), tick };
            proof {
                let next = self.messages@.take(i + 1);
                let older = Seq::new(next.len(), |j: int| aged(next[j]));
                let prior = self.messages@.take(i as int);
                assert(older.drop_last() =~= Seq::new(prior.len(), |j: int| aged(prior[j])));
                assert(older.last() == m);
                reveal(Seq::filter);
            }
            if tick > 0 {
                out.push(m);
            }
            i += 1;
        }
        assert(self.messages@.take(i as int) =~= self.messages@);
        self.messages = out;
    }

    /// The screen as rows of tiles. There must be room for the two rows of
    /// ground.
    pub fn worldtolines(&self) -> (lines: Vec<Vec<Tile>>)
        requires
            self.world.rows >= SURFACE_OFFSET,
        ensures
            lines@.len() == self.world.rows,
            forall|r: int|
                0 <= r < self.world.rows ==> (#[trigger] lines@[r])@.len() == self.world.cols,
            forall|r: int, c: int|
                0 <= r < self.world.rows && 0 <= c < self.world.cols ==> #[trigger] lines@[r]@[c]
                    == self.world@.tile_at(r, c),
    {
        self.world.scene()
    }

    /// Clears the hazards of the world when the rover has played its wreck
    /// to the end.
    pub fn reboot(&mut self)
        ensures
            *final(self) == (Context { world: final(self).world, ..*old(self) }),
            final(self).world@ == if old(self).world.rover.state.is_rebooting() {
                old(self).world@.cleared()
            } else {
                old(self).world@
            },
    {
        if self.world.rover.rebooting() {
            self.world.reset();
        }
    }

    /// One tick of the world on a screen of `cols` by `rows`, with the
    /// chances of the level played.
    pub fn update(&mut self, cols: u16, rows: u16)
        requires
            old(self).wf(),
        ensures
            *final(self) == (Context { world: final(self).world, ..*old(self) }),
            exists|kind: Spawn, particle: Option<Background>|
                {
                    &&& kind.possible(&old(self).config.levels@[old(self).level as int])
                    &&& particle matches Some(p) ==> p.fits(cols, rows)
                    &&& final(self).world@ == #[trigger] old(self).world@.stepped(
                        cols,
                        rows,
                        kind,
                        particle,
                    )
                },
    {
        self.world.update(cols, rows, &self.config.levels[self.level]);
    }
}

} // verus!
