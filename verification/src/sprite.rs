//! The vehicle as two lines of text.

use crate::buggy::{Buggy, BuggyState};
use crate::rover::{Rover, RoverState};
use vstd::prelude::*;
use vstd::std_specs::convert::FromSpecImpl;

verus! {

/// Width to which the body and the rear tire are padded.
pub const BODY_WIDTH: usize = 10;

/// `n` blanks.
pub open spec fn blanks(n: nat) -> Seq<char> {
    Seq::new(n, |i: int| ' ')
}

/// The text padded with blanks on its right to `width` characters.
pub open spec fn padded(text: Seq<char>, width: nat) -> Seq<char> {
    if text.len() < width {
        text + blanks((width - text.len()) as nat)
    } else {
        text
    }
}

/// A tire; it turns through four shapes with the animation.
pub open spec fn tire(tick: usize) -> Seq<char> {
    if tick % 4 == 0 {
        "(|)"@
    } else if tick % 4 == 1 {
        "(/)"@
    } else if tick % 4 == 2 {
        "(-)"@
    } else {
        "(\\)"@
    }
}

/// The exhaust; a puff drifts off in the first four ticks of the cycle.
pub open spec fn exhaust(tick: usize) -> Seq<char> {
    if tick == 0 {
        "   ."@
    } else if tick == 1 {
        "  o."@
    } else if tick == 2 {
        " oo "@
    } else if tick == 3 {
        "0o  "@
    } else {
        "    "@
    }
}

/// What flies off a crashing vehicle: a wheel that rolls away for five
/// frames, then wreckage that lies still.
pub open spec fn debris(frame: u32) -> Seq<char> {
    if frame <= 5 {
        blanks(
            if frame > 0 {
                (frame - 1) as nat
            } else {
                0
            },
        ) + "o"@
    } else {
        blanks(5) + "_"@
    }
}

/// A stunned vehicle: the longer the stun, the more it wonders.
pub open spec fn daze(frame: u32) -> Seq<char> {
    if frame <= 2 {
        "(_) mm0(_)"@
    } else if frame <= 5 {
        "(o)/mm0(o)?"@
    } else if frame <= 8 {
        ".o)_mm0(o.??"@
    } else {
        ".o).mm0(o.???"@
    }
}

/// The two lines of a vehicle, the upper one first, with a line feed
/// between them. A stunned vehicle has one line only.
pub open spec fn sprite(tick: usize, state: RoverState) -> Seq<char> {
    match state {
        RoverState::Run => exhaust(tick) + padded(" mm0"@, BODY_WIDTH as nat) + "\n    "@ + tire(tick)
            + "-"@ + tire(tick),
        RoverState::Jump(_) => exhaust(tick) + padded(" mm0"@, BODY_WIDTH as nat) + "\n    "@
            + tire(tick) + "-"@ + padded(tire(tick), BODY_WIDTH as nat),
        RoverState::Crash(frame) => padded("_"@, BODY_WIDTH as nat) + "\ncnOMMnb"@ + debris(frame),
        RoverState::Monster(frame) => daze(frame),
    }
}

/// The state of a rover that stands for the state of a buggy.
pub open spec fn rover_state(state: BuggyState) -> RoverState {
    match state {
        BuggyState::Run => RoverState::Run,
        BuggyState::Jump(x) => RoverState::Jump(x),
        BuggyState::Crash(x) => RoverState::Crash(x),
        BuggyState::Monster(x) => RoverState::Monster(x),
    }
}

fn push_blanks(s: &mut String, n: usize)
    ensures
        final(s)@ == old(s)@ + blanks(n as nat),
{
    let mut i: usize = 0;
    assert(s@ =~= old(s)@ + blanks(0));
    while i < n
        invariant
            i <= n,
            s@ == old(s)@ + blanks(i as nat),
        decreases n - i,
    {
        s.push(' ');
        i += 1;
        assert(s@ =~= old(s)@ + blanks(i as nat));
    }
}

fn tire_text(tick: usize) -> (t: &'static str)
    ensures
        t@ == tire(tick),
        t@.len() == 3,
{
    proof {
        reveal_strlit("(|)");
        reveal_strlit("(/)");
        reveal_strlit("(-)");
        reveal_strlit("(\\)");
    }
    if tick % 4 == 0 {
        "(|)"
    } else if tick % 4 == 1 {
        "(/)"
    } else if tick % 4 == 2 {
        "(-)"
    } else {
        "(\\)"
    }
}

fn exhaust_text(tick: usize) -> (t: &'static str)
    ensures
        t@ == exhaust(tick),
{
    if tick == 0 {
        "   ."
    } else if tick == 1 {
        "  o."
    } else if tick == 2 {
        " oo "
    } else if tick == 3 {
        "0o  "
    } else {
        "    "
    }
}

fn daze_text(frame: u32) -> (t: &'static str)
    ensures
        t@ == daze(frame),
{
    if frame <= 2 {
        "(_) mm0(_)"
    } else if frame <= 5 {
        "(o)/mm0(o)?"
    } else if frame <= 8 {
        ".o)_mm0(o.??"
    } else {
        ".o).mm0(o.???"
    }
}

/// Draws the vehicle.
pub fn draw(tick: usize, state: RoverState) -> (s: String)
    ensures
        s@ == sprite(tick, state),
{
    proof {
        reveal_strlit(" mm0");
        reveal_strlit("_");
    }
    match state {
        RoverState::Run => {
            let mut s: String = exhaust_text(tick).to_owned();
            s.push_str(" mm0");
            push_blanks(&mut s, BODY_WIDTH - 4);
            s.push_str("\n    ");
            s.push_str(tire_text(tick));
            s.push_str("-");
            s.push_str(tire_text(tick));
            assert(s@ =~= sprite(tick, state));
            s
        },
        RoverState::Jump(_) => {
            let mut s: String = exhaust_text(tick).to_owned();
            s.push_str(" mm0");
            push_blanks(&mut s, BODY_WIDTH - 4);
            s.push_str("\n    ");
            s.push_str(tire_text(tick));
            s.push_str("-");
            s.push_str(tire_text(tick));
            push_blanks(&mut s, BODY_WIDTH - 3);
            assert(s@ =~= sprite(tick, state));
            s
        },
        RoverState::Crash(frame) => {
            let mut s: String = "_".to_owned();
            push_blanks(&mut s, BODY_WIDTH - 1);
            s.push_str("\ncnOMMnb");
            if frame <= 5 {
                if frame > 0 {
                    push_blanks(&mut s, (frame - 1) as usize);
                } else {
                    push_blanks(&mut s, 0);
                }
                s.push_str("o");
            } else {
                push_blanks(&mut s, 5);
                s.push_str("_");
            }
            assert(s@ =~= sprite(tick, state));
            s
        },
        RoverState::Monster(frame) => daze_text(frame).to_owned(),
    }
}

impl From<Rover> for String {
    fn from(rover: Rover) -> (s: String)
        ensures
            s@ == sprite(rover.tick, rover.state),
    {
        draw(rover.tick, rover.state)
    }
}

impl FromSpecImpl<Rover> for String {
    open spec fn obeys_from_spec() -> bool {
        false
    }

    open spec fn from_spec(rover: Rover) -> String {
        arbitrary()
    }
}

impl From<Buggy> for String {
    fn from(buggy: Buggy) -> (s: String)
        ensures
            s@ == sprite(buggy.tick, rover_state(buggy.state)),
    {
        let state = match buggy.state {
            BuggyState::Run => RoverState::Run,
            BuggyState::Jump(x) => RoverState::Jump(x),
            BuggyState::Crash(x) => RoverState::Crash(x),
            BuggyState::Monster(x) => RoverState::Monster(x),
        };
        draw(buggy.tick, state)
    }
}

impl FromSpecImpl<Buggy> for String {
    open spec fn obeys_from_spec() -> bool {
        false
    }

    open spec fn from_spec(buggy: Buggy) -> String {
        arbitrary()
    }
}

} // verus!
