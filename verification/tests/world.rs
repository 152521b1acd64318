use marsrover::background::Background;
use marsrover::bullet::Bullet;
use marsrover::config::{Level, PROB_SCALE};
use marsrover::crater::Crater;
use marsrover::monster::Monster;
use marsrover::rover::RoverState;
use marsrover::spawn::Spawn;
use marsrover::world::World;

fn certain(one: u32, two: u32, three: u32, monster: u32, jumping: u32) -> Level {
    Level {
        prob_crater_one: one,
        prob_crater_two: two,
        prob_crater_three: three,
        prob_monster: monster,
        prob_monster_jumping: jumping,
        points: 100,
        desc: String::new(),
    }
}

#[test]
fn default_world_is_empty() {
    let world = World::default();
    assert_eq!(world.cols, 0);
    assert_eq!(world.rows, 0);
    assert!(world.bullets.is_empty());
    assert!(world.monsters.is_empty());
    assert!(world.craters.is_empty());
    assert!(world.backgrounds.is_empty());
    assert_eq!(world.rover.col, 20);
    assert_eq!(world.rover.lives, 3);
}

#[test]
fn step_anchors_the_rover_above_the_ground() {
    let mut world = World::default();
    world.step(80, 24, Spawn::Nothing, None);
    assert_eq!(world.cols, 80);
    assert_eq!(world.rows, 24);
    assert_eq!(world.rover.col, 20);
    assert_eq!(world.rover.row, 20);
    world.rover.col = 3;
    world.step(100, 50, Spawn::Nothing, None);
    assert_eq!(world.rover.col, 20);
    assert_eq!(world.rover.row, 46);
    world.step(100, 2, Spawn::Nothing, None);
    assert_eq!(world.rover.row, 0);
}

#[test]
fn shoot_puts_a_bullet_at_the_muzzle() {
    let mut world = World::default();
    world.step(80, 24, Spawn::Nothing, None);
    world.shoot();
    assert_eq!(world.bullets, vec![Bullet { col: 26, row: 20 }]);
    world.rover.jump();
    world.rover.tick();
    world.shoot();
    assert_eq!(world.bullets, vec![Bullet { col: 26, row: 20 }, Bullet { col: 26, row: 18 }]);
    world.rover.col = u16::MAX - 1;
    world.shoot();
    assert_eq!(world.bullets[2], Bullet { col: u16::MAX, row: 18 });
}

#[test]
fn reset_clears_hazards_only() {
    let mut world = World::default();
    world.craters.push(Crater::new(30, 0));
    world.monsters.push(Monster::new(40, 20));
    world.bullets.push(Bullet::new(26, 20));
    world.backgrounds.push(Background::at(50, 3, '*'));
    world.rover.points = 44;
    world.rover.lives = 2;
    world.reset();
    assert!(world.craters.is_empty());
    assert!(world.monsters.is_empty());
    assert_eq!(world.bullets, vec![Bullet { col: 26, row: 20 }]);
    assert_eq!(world.backgrounds, vec![Background { col: 50, row: 3, chr: '*' }]);
    assert_eq!(world.rover.points, 44);
    assert_eq!(world.rover.lives, 2);
}

#[test]
fn bullets_fly_one_column_per_tick() {
    let mut world = World::default();
    world.step(80, 24, Spawn::Nothing, None);
    world.shoot();
    for tick in 1..=5u16 {
        world.step(80, 24, Spawn::Nothing, None);
        assert_eq!(world.bullets, vec![Bullet { col: 26 + tick, row: 20 }]);
    }
}

#[test]
fn bullet_leaves_with_the_viewport() {
    let mut world = World::default();
    world.bullets.push(Bullet::new(77, 5));
    world.step(80, 24, Spawn::Nothing, None);
    assert_eq!(world.bullets, vec![Bullet { col: 78, row: 5 }]);
    world.step(80, 24, Spawn::Nothing, None);
    assert_eq!(world.bullets, vec![Bullet { col: 79, row: 5 }]);
    world.step(80, 24, Spawn::Nothing, None);
    assert!(world.bullets.is_empty());
    world.bullets.push(Bullet::new(u16::MAX, 5));
    world.step(u16::MAX, 24, Spawn::Nothing, None);
    assert!(world.bullets.is_empty());
}

#[test]
fn projectile_and_enemy_in_its_column_both_vanish() {
    let mut world = World::default();
    world.step(80, 24, Spawn::Nothing, None);
    world.shoot();
    let bullet = world.bullets[0];
    assert_eq!(bullet, Bullet { col: world.rover.col + 6, row: world.rover.row() });
    world.monsters.push(Monster::new(bullet.col + 1, bullet.row));
    world.step(80, 24, Spawn::Nothing, None);
    assert!(world.bullets.is_empty());
    assert!(world.monsters.is_empty());
}

#[test]
fn bullet_hits_the_right_half_of_a_monster() {
    let mut world = World::default();
    world.bullets.push(Bullet::new(30, 20));
    world.monsters.push(Monster::new(30, 20));
    world.step(80, 24, Spawn::Nothing, None);
    assert!(world.bullets.is_empty());
    assert!(world.monsters.is_empty());
}

#[test]
fn bullet_misses_what_is_not_in_its_way() {
    let mut world = World::default();
    world.rover.state = RoverState::Crash(0);
    world.bullets.push(Bullet::new(30, 20));
    world.monsters.push(Monster::new(32, 20));
    world.monsters.push(Monster::new(29, 20));
    world.monsters.push(Monster::new(31, 19));
    world.monsters.push(Monster::new(30, 21));
    world.step(80, 24, Spawn::Nothing, None);
    assert_eq!(world.bullets, vec![Bullet { col: 31, row: 20 }]);
    assert_eq!(world.monsters.len(), 4);
}

#[test]
fn one_bullet_removes_one_monster_the_first() {
    let mut world = World::default();
    world.rover.state = RoverState::Crash(0);
    world.bullets.push(Bullet::new(30, 20));
    world.monsters.push(Monster::new(40, 20));
    world.monsters.push(Monster::jumping(31, 20));
    world.monsters.push(Monster::new(30, 20));
    world.monsters.push(Monster::new(31, 20));
    world.step(80, 24, Spawn::Nothing, None);
    assert!(world.bullets.is_empty());
    assert_eq!(
        world.monsters,
        vec![Monster::new(40, 20), Monster::new(30, 20), Monster::new(31, 20)]
    );
}

#[test]
fn each_bullet_is_judged_on_its_own() {
    let mut world = World::default();
    world.rover.state = RoverState::Crash(0);
    world.bullets.push(Bullet::new(30, 20));
    world.bullets.push(Bullet::new(30, 7));
    world.bullets.push(Bullet::new(30, 20));
    world.bullets.push(Bullet::new(30, 20));
    world.monsters.push(Monster::new(31, 20));
    world.monsters.push(Monster::new(30, 20));
    world.step(80, 24, Spawn::Nothing, None);
    assert_eq!(world.bullets, vec![Bullet { col: 31, row: 7 }, Bullet { col: 31, row: 20 }]);
    assert!(world.monsters.is_empty());
}

#[test]
fn moving_rover_scrolls_the_hazards() {
    let mut world = World::default();
    world.craters.push(Crater::new(50, 0));
    world.monsters.push(Monster::new(60, 20));
    world.monsters.push(Monster::jumping(61, 20));
    world.step(80, 24, Spawn::Nothing, None);
    assert_eq!(world.craters, vec![Crater::new(49, 0)]);
    assert_eq!(
        world.monsters,
        vec![Monster::new(59, 20), Monster { col: 60, row: 19, jumping: Some(1) }]
    );
}

#[test]
fn wrecked_rover_stops_the_world() {
    let mut world = World::default();
    world.rover.state = RoverState::Monster(4);
    world.craters.push(Crater::new(50, 0));
    world.monsters.push(Monster::jumping(61, 20));
    world.backgrounds.push(Background::at(30, 2, '*'));
    world.step(80, 24, Spawn::CraterThree, Some(Background::at(80, 1, '+')));
    assert_eq!(world.craters, vec![Crater::new(50, 0)]);
    assert_eq!(world.monsters, vec![Monster::jumping(61, 20)]);
    assert_eq!(world.backgrounds, vec![Background::at(30, 2, '*')]);
    assert_eq!(world.rover.state, RoverState::Monster(4));
}

#[test]
fn particles_scroll_on_every_eighth_tick_only() {
    let mut world = World::default();
    world.backgrounds.push(Background::at(30, 2, '*'));
    let mut expected = 30;
    for tick in 0..32usize {
        world.rover.tick = tick % 16;
        world.step(80, 24, Spawn::Nothing, None);
        if tick % 8 == 0 {
            expected -= 1;
        }
        assert_eq!(world.backgrounds, vec![Background::at(expected, 2, '*')]);
    }
    assert_eq!(expected, 26);
}

#[test]
fn nothing_is_left_in_column_zero() {
    let mut world = World::default();
    world.craters.push(Crater::new(1, 0));
    world.craters.push(Crater::new(2, 0));
    world.craters.push(Crater::new(0, 0));
    world.monsters.push(Monster::new(1, 20));
    world.monsters.push(Monster::jumping(0, 20));
    world.monsters.push(Monster::new(3, 20));
    world.backgrounds.push(Background::at(1, 2, '*'));
    world.backgrounds.push(Background::at(0, 2, '*'));
    world.backgrounds.push(Background::at(9, 2, '+'));
    world.bullets.push(Bullet::new(0, 9));
    world.step(80, 24, Spawn::Nothing, None);
    assert_eq!(world.craters, vec![Crater::new(1, 0)]);
    assert_eq!(world.monsters, vec![Monster::new(2, 20)]);
    assert_eq!(world.backgrounds, vec![Background::at(8, 2, '+')]);
    assert_eq!(world.bullets, vec![Bullet::new(1, 9)]);
}

#[test]
fn particle_in_column_zero_goes_even_when_the_sky_stands_still() {
    let mut world = World::default();
    world.rover.tick = 3;
    world.backgrounds.push(Background::at(0, 2, '*'));
    world.backgrounds.push(Background::at(1, 2, '*'));
    world.step(80, 24, Spawn::Nothing, None);
    assert_eq!(world.backgrounds, vec![Background::at(1, 2, '*')]);
}

#[test]
fn spawn_places_hazards_right_of_the_screen() {
    let mut world = World::default();
    world.step(80, 24, Spawn::CraterOne, None);
    assert_eq!(world.craters, vec![Crater::new(80, 0)]);
    let mut world = World::default();
    world.step(80, 24, Spawn::CraterTwo, None);
    assert_eq!(world.craters, vec![Crater::new(80, 0), Crater::new(81, 0)]);
    let mut world = World::default();
    world.step(80, 24, Spawn::CraterThree, None);
    assert_eq!(
        world.craters,
        vec![Crater::new(80, 0), Crater::new(81, 0), Crater::new(82, 0)]
    );
    assert!(world.monsters.is_empty());
    let mut world = World::default();
    world.step(80, 24, Spawn::Monster, None);
    assert_eq!(world.monsters, vec![Monster::new(80, 20)]);
    assert!(world.craters.is_empty());
    let mut world = World::default();
    world.step(80, 24, Spawn::MonsterJumping, None);
    assert_eq!(world.monsters, vec![Monster::jumping(80, 20)]);
    let mut world = World::default();
    world.step(80, 24, Spawn::Nothing, None);
    assert!(world.monsters.is_empty() && world.craters.is_empty());
}

#[test]
fn spawn_waits_until_the_lane_is_clear() {
    let mut world = World::default();
    world.step(80, 24, Spawn::CraterOne, None);
    assert_eq!(world.craters.len(), 1);
    for tick in 1..=10u16 {
        assert!(world.lane_clear() == (tick == 1));
        world.step(80, 24, Spawn::CraterThree, None);
        assert_eq!(world.craters, vec![Crater::new(80 - tick, 0)]);
        assert!(world.monsters.is_empty());
    }
    world.step(80, 24, Spawn::Monster, None);
    assert_eq!(world.craters, vec![Crater::new(69, 0)]);
    assert_eq!(world.monsters, vec![Monster::new(80, 20)]);
}

#[test]
fn lane_is_the_last_ten_columns() {
    let mut world = World::default();
    world.cols = 80;
    world.rows = 24;
    for col in 0..100u16 {
        world.craters = vec![Crater::new(col, 0)];
        world.monsters = vec![];
        assert_eq!(world.lane_clear(), !(70..80).contains(&col));
        world.craters = vec![];
        world.monsters = vec![Monster::new(5, 5), Monster::new(col, 3)];
        assert_eq!(world.lane_clear(), !(70..80).contains(&col));
    }
    world.cols = 4;
    world.monsters = vec![Monster::new(0, 3)];
    assert!(!world.lane_clear());
    world.monsters = vec![Monster::new(4, 3)];
    assert!(world.lane_clear());
}

#[test]
fn monster_in_the_lane_blocks_craters_too() {
    let mut world = World::default();
    world.monsters.push(Monster::new(76, 20));
    world.step(80, 24, Spawn::CraterTwo, None);
    assert!(world.craters.is_empty());
    assert_eq!(world.monsters, vec![Monster::new(75, 20)]);
}

#[test]
fn particle_is_added_while_moving() {
    let mut world = World::default();
    world.step(80, 24, Spawn::Nothing, Some(Background::at(80, 4, '+')));
    assert_eq!(world.backgrounds, vec![Background::at(80, 4, '+')]);
    world.monsters.push(Monster::new(75, 20));
    world.step(80, 24, Spawn::CraterOne, Some(Background::at(80, 9, '*')));
    assert_eq!(world.backgrounds.len(), 2);
    assert!(world.craters.is_empty());
}

#[test]
fn update_never_spawns_what_has_no_chance() {
    let level = certain(0, 0, 0, 0, 0);
    let mut world = World::default();
    for _ in 0..300 {
        world.update(80, 24, &level);
        assert!(world.craters.is_empty());
        assert!(world.monsters.is_empty());
    }
    for particle in &world.backgrounds {
        assert!(particle.row < 10);
        assert!(particle.col <= 80 && particle.col > 0);
    }
}

#[test]
fn update_takes_the_first_certain_hazard() {
    let level = certain(PROB_SCALE, PROB_SCALE, PROB_SCALE, PROB_SCALE, PROB_SCALE);
    let mut world = World::default();
    for _ in 0..300 {
        world.update(80, 24, &level);
        assert!(world.monsters.is_empty());
    }
    assert!(!world.craters.is_empty());
    let level = certain(0, 0, 0, PROB_SCALE, PROB_SCALE);
    let mut world = World::default();
    for _ in 0..300 {
        world.update(80, 24, &level);
        assert!(world.craters.is_empty());
        assert!(world.monsters.iter().all(|m| m.jumping.is_none()));
    }
    assert!(!world.monsters.is_empty());
    let level = certain(0, 0, 0, 0, PROB_SCALE);
    let mut world = World::default();
    for _ in 0..300 {
        world.update(80, 24, &level);
    }
    assert!(!world.monsters.is_empty());
    assert!(world.monsters.iter().all(|m| m.jumping.is_some()));
}

#[test]
fn update_keeps_clusters_a_lane_apart() {
    let level = certain(0, 0, PROB_SCALE, 0, 0);
    let mut world = World::default();
    for _ in 0..500 {
        world.update(80, 24, &level);
        let mut cols: Vec<u16> = world.craters.iter().map(|c| c.col).collect();
        cols.sort();
        for pair in cols.windows(2) {
            let gap = pair[1] - pair[0];
            assert!(gap == 1 || gap >= 9, "craters at {} and {}", pair[0], pair[1]);
        }
        assert!(world.craters.iter().all(|c| c.col > 0 && c.col <= 82));
    }
    assert!(world.craters.len() >= 3);
}

#[test]
fn update_does_the_fixed_part_of_a_step() {
    let level = certain(0, 0, 0, 0, 0);
    let mut world = World::default();
    world.bullets.push(Bullet::new(30, 20));
    world.monsters.push(Monster::new(31, 20));
    world.craters.push(Crater::new(50, 0));
    world.update(80, 24, &level);
    assert!(world.bullets.is_empty());
    assert!(world.monsters.is_empty());
    assert_eq!(world.craters, vec![Crater::new(49, 0)]);
    assert_eq!(world.rover.row, 20);
}
