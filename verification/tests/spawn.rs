use marsrover::config::{Level, PROB_SCALE};
use marsrover::spawn::Spawn;

#[test]
fn no_coin_no_hazard() {
    assert_eq!(Spawn::select(false, true, true, true, true, true), Spawn::Nothing);
    assert_eq!(Spawn::select(false, false, false, false, false, false), Spawn::Nothing);
}

#[test]
fn first_success_in_priority_order_wins() {
    assert_eq!(Spawn::select(true, true, true, true, true, true), Spawn::CraterOne);
    assert_eq!(Spawn::select(true, true, false, false, false, false), Spawn::CraterOne);
    assert_eq!(Spawn::select(true, false, true, true, true, true), Spawn::CraterTwo);
    assert_eq!(Spawn::select(true, false, false, true, true, true), Spawn::CraterThree);
    assert_eq!(Spawn::select(true, false, false, false, true, true), Spawn::Monster);
    assert_eq!(Spawn::select(true, false, false, false, false, true), Spawn::MonsterJumping);
    assert_eq!(Spawn::select(true, false, false, false, false, false), Spawn::Nothing);
}

#[test]
fn select_agrees_with_the_chain_on_every_input() {
    for bits in 0..64u32 {
        let flag = |k: u32| bits & (1 << k) != 0;
        let expected = if !flag(0) {
            Spawn::Nothing
        } else if flag(1) {
            Spawn::CraterOne
        } else if flag(2) {
            Spawn::CraterTwo
        } else if flag(3) {
            Spawn::CraterThree
        } else if flag(4) {
            Spawn::Monster
        } else if flag(5) {
            Spawn::MonsterJumping
        } else {
            Spawn::Nothing
        };
        assert_eq!(
            Spawn::select(flag(0), flag(1), flag(2), flag(3), flag(4), flag(5)),
            expected
        );
    }
}

#[test]
fn roll_on_the_first_level_gives_single_craters_or_nothing() {
    let level = Level::default();
    let mut craters = 0;
    let mut nothing = 0;
    for _ in 0..2000 {
        match Spawn::roll(&level) {
            Spawn::CraterOne => craters += 1,
            Spawn::Nothing => nothing += 1,
            other => panic!("a level of single craters gave {:?}", other),
        }
    }
    assert!(craters > 0);
    assert!(nothing > craters);
}

#[test]
fn roll_is_fair_between_something_and_nothing() {
    let level = Level {
        prob_crater_one: 0,
        prob_crater_two: PROB_SCALE,
        prob_crater_three: 0,
        prob_monster: 0,
        prob_monster_jumping: 0,
        points: 100,
        desc: String::new(),
    };
    let mut twos = 0;
    for _ in 0..4000 {
        match Spawn::roll(&level) {
            Spawn::CraterTwo => twos += 1,
            Spawn::Nothing => {}
            other => panic!("a level of double craters gave {:?}", other),
        }
    }
    assert!(twos > 1600 && twos < 2400, "{} of 4000", twos);
}
