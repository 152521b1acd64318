use marsrover::buggy::{Buggy, BuggyState};
use marsrover::rover::{Rover, RoverState};
use marsrover::sprite::draw;

fn rover(tick: usize, state: RoverState) -> Rover {
    let mut rover = Rover::default();
    rover.tick = tick;
    rover.state = state;
    rover
}

#[test]
fn running_rover_puffs_and_rolls() {
    assert_eq!(String::from(rover(0, RoverState::Run)), "   . mm0      \n    (|)-(|)");
    assert_eq!(String::from(rover(1, RoverState::Run)), "  o. mm0      \n    (/)-(/)");
    assert_eq!(String::from(rover(2, RoverState::Run)), " oo  mm0      \n    (-)-(-)");
    assert_eq!(String::from(rover(3, RoverState::Run)), "0o   mm0      \n    (\\)-(\\)");
    assert_eq!(String::from(rover(4, RoverState::Run)), "     mm0      \n    (|)-(|)");
    assert_eq!(String::from(rover(15, RoverState::Run)), "     mm0      \n    (\\)-(\\)");
}

#[test]
fn jumping_rover_has_a_padded_rear_tire() {
    assert_eq!(
        String::from(rover(5, RoverState::Jump(3))),
        "     mm0      \n    (/)-(/)       "
    );
    assert_eq!(
        String::from(rover(0, RoverState::Jump(9))),
        "   . mm0      \n    (|)-(|)       "
    );
}

#[test]
fn crashing_rover_loses_a_wheel() {
    let upper = "_         \ncnOMMnb";
    assert_eq!(draw(0, RoverState::Crash(0)), format!("{}o", upper));
    assert_eq!(draw(0, RoverState::Crash(1)), format!("{}o", upper));
    assert_eq!(draw(0, RoverState::Crash(2)), format!("{} o", upper));
    assert_eq!(draw(0, RoverState::Crash(5)), format!("{}    o", upper));
    assert_eq!(draw(0, RoverState::Crash(6)), format!("{}     _", upper));
    assert_eq!(draw(9, RoverState::Crash(32)), format!("{}     _", upper));
}

#[test]
fn stunned_rover_wonders_more_and_more() {
    let expected = [
        (0, "(_) mm0(_)"),
        (2, "(_) mm0(_)"),
        (3, "(o)/mm0(o)?"),
        (5, "(o)/mm0(o)?"),
        (6, ".o)_mm0(o.??"),
        (8, ".o)_mm0(o.??"),
        (9, ".o).mm0(o.???"),
        (32, ".o).mm0(o.???"),
    ];
    for (frame, text) in expected {
        assert_eq!(draw(7, RoverState::Monster(frame)), text);
    }
}

#[test]
fn sprite_matches_the_format_strings() {
    for tick in 0..16usize {
        let tire = ["(|)", "(/)", "(-)", "(\\)"][tick % 4];
        let exhaust = match tick {
            0 => "   .",
            1 => "  o.",
            2 => " oo ",
            3 => "0o  ",
            _ => "    ",
        };
        assert_eq!(
            draw(tick, RoverState::Run),
            format!("{}{:10}\n    {}-{}", exhaust, " mm0", tire, tire)
        );
        assert_eq!(
            draw(tick, RoverState::Jump(0)),
            format!("{}{:10}\n    {}-{:10}", exhaust, " mm0", tire, tire)
        );
    }
    for frame in 0..=5usize {
        assert_eq!(
            draw(0, RoverState::Crash(frame as u32)),
            format!("{:10}\ncnOMMnb{:>w$}", "_", "o", w = frame)
        );
    }
    assert_eq!(draw(0, RoverState::Crash(6)), format!("{:10}\ncnOMMnb{:>6}", "_", "_"));
}

#[test]
fn buggy_looks_like_a_rover() {
    let mut buggy = Buggy::default();
    buggy.tick = 2;
    assert_eq!(String::from(buggy), draw(2, RoverState::Run));
    buggy.state = BuggyState::Jump(1);
    assert_eq!(String::from(buggy), draw(2, RoverState::Jump(1)));
    buggy.state = BuggyState::Crash(4);
    assert_eq!(String::from(buggy), draw(2, RoverState::Crash(4)));
    buggy.state = BuggyState::Monster(7);
    assert_eq!(String::from(buggy), ".o)_mm0(o.??");
}
