use marsrover::background::Background;
use marsrover::bullet::Bullet;
use marsrover::crater::Crater;
use marsrover::monster::Monster;
use marsrover::scene::Tile;
use marsrover::world::World;

fn small_world() -> World {
    let mut world = World::default();
    world.cols = 8;
    world.rows = 6;
    world
}

#[test]
fn empty_world_shows_two_rows_of_ground() {
    let world = small_world();
    let grid = world.scene();
    assert_eq!(grid.len(), 6);
    for (r, line) in grid.iter().enumerate() {
        assert_eq!(line.len(), 8);
        for tile in line {
            if r == 3 || r == 4 {
                assert_eq!(*tile, Tile::Ground);
            } else {
                assert_eq!(*tile, Tile::Empty);
            }
        }
    }
}

#[test]
fn craters_break_the_upper_ground_row_only() {
    let mut world = small_world();
    world.craters.push(Crater::new(2, 0));
    world.craters.push(Crater::new(5, 0));
    world.craters.push(Crater::new(8, 0));
    world.craters.push(Crater::new(6, 6));
    let grid = world.scene();
    assert_eq!(grid[3][2], Tile::Empty);
    assert_eq!(grid[3][5], Tile::Empty);
    assert_eq!(grid[3][6], Tile::Ground);
    assert_eq!(grid[4][2], Tile::Ground);
    assert_eq!(grid[3][1], Tile::Ground);
    assert_eq!(world.tile(3, 2), Tile::Empty);
    assert_eq!(world.tile(4, 5), Tile::Ground);
}

#[test]
fn every_kind_of_item_has_its_tile() {
    let mut world = small_world();
    world.monsters.push(Monster::new(1, 2));
    world.monsters.push(Monster::jumping(3, 1));
    world.bullets.push(Bullet::new(4, 2));
    world.backgrounds.push(Background::at(6, 0, '*'));
    world.backgrounds.push(Background::at(7, 1, '+'));
    let grid = world.scene();
    assert_eq!(grid[2][1], Tile::Monster);
    assert_eq!(grid[1][3], Tile::MonsterJumping);
    assert_eq!(grid[2][4], Tile::Bullet);
    assert_eq!(grid[0][6], Tile::Star('*'));
    assert_eq!(grid[1][7], Tile::Star('+'));
    assert_eq!(grid[0][0], Tile::Empty);
    let painted = grid.iter().flatten().filter(|t| **t != Tile::Empty && **t != Tile::Ground);
    assert_eq!(painted.count(), 5);
}

#[test]
fn later_layers_cover_earlier_ones() {
    let mut world = small_world();
    world.craters.push(Crater::new(1, 0));
    world.monsters.push(Monster::new(1, 3));
    assert_eq!(world.tile(3, 1), Tile::Monster);
    world.monsters.push(Monster::jumping(1, 3));
    assert_eq!(world.tile(3, 1), Tile::MonsterJumping);
    world.monsters.push(Monster::new(1, 3));
    assert_eq!(world.tile(3, 1), Tile::Monster);
    world.bullets.push(Bullet::new(1, 3));
    assert_eq!(world.tile(3, 1), Tile::Bullet);
    world.backgrounds.push(Background::at(1, 3, '*'));
    assert_eq!(world.tile(3, 1), Tile::Star('*'));
    world.backgrounds.push(Background::at(1, 3, '+'));
    assert_eq!(world.tile(3, 1), Tile::Star('+'));
    world.backgrounds.push(Background::at(2, 3, '*'));
    assert_eq!(world.tile(3, 1), Tile::Star('+'));
    assert_eq!(world.scene()[3][1], Tile::Star('+'));
}

#[test]
fn items_off_the_screen_are_not_shown() {
    let mut world = small_world();
    world.monsters.push(Monster::new(8, 2));
    world.monsters.push(Monster::new(2, 6));
    world.bullets.push(Bullet::new(9, 1));
    world.backgrounds.push(Background::at(8, 0, '*'));
    let grid = world.scene();
    for (r, line) in grid.iter().enumerate() {
        for tile in line {
            let ground = r == 3 || r == 4;
            assert_eq!(*tile, if ground { Tile::Ground } else { Tile::Empty });
        }
    }
}

#[test]
fn smallest_screen_is_all_ground_and_one_row_below() {
    let mut world = World::default();
    world.cols = 2;
    world.rows = 3;
    world.craters.push(Crater::new(1, 0));
    assert_eq!(
        world.scene(),
        vec![
            vec![Tile::Ground, Tile::Empty],
            vec![Tile::Ground, Tile::Ground],
            vec![Tile::Empty, Tile::Empty],
        ]
    );
    world.cols = 0;
    assert_eq!(world.scene(), vec![vec![], vec![], vec![]]);
}

#[test]
fn tile_is_total() {
    let mut world = World::default();
    world.cols = 0;
    world.rows = 0;
    assert_eq!(world.tile(0, 0), Tile::Empty);
    world.rows = 2;
    assert_eq!(world.tile(0, 0), Tile::Ground);
    assert_eq!(world.tile(1, 0), Tile::Empty);
}
