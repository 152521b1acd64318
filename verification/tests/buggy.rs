use marsrover::alien::Alien;
use marsrover::buggy::{Buggy, BuggyState};
use marsrover::ditch::Ditch;

#[test]
fn default_buggy_runs_with_three_lives() {
    let buggy = Buggy::default();
    assert_eq!(buggy.col, 20);
    assert_eq!(buggy.lives, 3);
    assert_eq!(buggy.points, 0);
    assert_eq!(buggy.state, BuggyState::Run);
}

#[test]
fn buggy_jump_lasts_ten_ticks() {
    let mut buggy = Buggy::default();
    buggy.update(20, 30);
    buggy.jump();
    assert!(buggy.jumping());
    assert_eq!(buggy.row(), 29);
    for _ in 0..3 {
        buggy.tick();
    }
    assert_eq!(buggy.state, BuggyState::Jump(3));
    assert_eq!(buggy.row(), 28);
    for _ in 0..7 {
        buggy.tick();
    }
    assert_eq!(buggy.state, BuggyState::Run);
    assert_eq!(buggy.row(), 30);
    assert_eq!(buggy.tick, 10);
}

#[test]
fn buggy_crash_and_stun_cost_a_life_each() {
    let mut buggy = Buggy::default();
    buggy.crash();
    assert_eq!(buggy.lives, 2);
    assert_eq!(buggy.state, BuggyState::Crash(0));
    assert!(!buggy.moving());
    for _ in 0..32 {
        buggy.tick();
    }
    assert!(buggy.rebooting());
    buggy.tick();
    assert!(buggy.moving());
    buggy.monstercrash();
    assert_eq!(buggy.lives, 1);
    assert_eq!(buggy.state, BuggyState::Monster(0));
    assert_eq!(buggy.range(), 21..25);
    assert!(buggy.covers(24));
    assert!(!buggy.covers(25));
}

#[test]
fn wrecked_buggy_answers_neither_jump_nor_collision() {
    let mut buggy = Buggy::default();
    buggy.monstercrash();
    buggy.jump();
    assert_eq!(buggy.state, BuggyState::Monster(0));
    buggy.crash();
    assert_eq!(buggy.state, BuggyState::Monster(0));
    assert_eq!(buggy.lives, 2);
    let mut buggy = Buggy::default();
    buggy.lives = 0;
    buggy.crash();
    assert_eq!(buggy.lives, 0);
    assert_eq!(buggy.state, BuggyState::Crash(0));
    let mut buggy = Buggy::default();
    buggy.jump();
    buggy.jump();
    assert_eq!(buggy.state, BuggyState::Run);
}

#[test]
fn alien_bobs_like_a_monster() {
    let mut alien = Alien::jumping(50, 20);
    let mut rows = vec![];
    let mut phases = vec![];
    for _ in 0..10 {
        alien.jump();
        rows.push(alien.row);
        phases.push(alien.jumping.unwrap());
    }
    assert_eq!(rows, vec![19, 18, 18, 19, 20, 19, 18, 18, 19, 20]);
    assert_eq!(phases, vec![1, 2, -2, -1, 0, 1, 2, -2, -1, 0]);
    assert_eq!(alien.col, 50);
    let mut level = Alien::new(3, 4);
    level.jump();
    assert_eq!(level, Alien { col: 3, row: 4, jumping: None });
    assert_eq!(String::from(level), "o");
    assert_eq!(level.glyph(), "o");
}

#[test]
fn ditch_is_where_it_was_dug() {
    let ditch = Ditch::new(9, 2);
    assert_eq!(ditch.col, 9);
    assert_eq!(ditch.row, 2);
}
