use hypoterra::entities::{Enemy, Facing, PatrolFacing, Player, PlayerAttackSphere, Tile, CellKind};
use hypoterra::geometry::Position;
use hypoterra::input::{walk_direction, Input, Key, KeySet};

fn at(x: i32, y: i32) -> Position {
    Position { x, y }
}

fn standing(x: i32, y: i32) -> Player {
    Player::new(at(x, y), 0, false, Facing::Idle, Facing::Down, true)
}

fn keys(list: &[Key]) -> KeySet {
    let mut set = KeySet::empty();
    for key in list {
        set.set(*key, true);
    }
    set
}

#[test]
fn key_sets_hold_what_was_put_in() {
    let mut set = KeySet::empty();
    for key in [Key::Left, Key::Right, Key::Up, Key::Down, Key::Attack, Key::Interact] {
        assert!(!set.contains(key));
    }
    set.set(Key::Up, true);
    set.set(Key::Attack, true);
    assert!(set.contains(Key::Up));
    assert!(set.contains(Key::Attack));
    assert!(!set.contains(Key::Left));
    set.set(Key::Up, false);
    assert!(!set.contains(Key::Up));
    assert!(set.contains(Key::Attack));
}

#[test]
fn idle_input_reports_no_key() {
    let input = Input::idle();
    for key in [Key::Left, Key::Right, Key::Up, Key::Down, Key::Attack, Key::Interact] {
        assert!(!input.is_key_down(key));
        assert!(!input.is_key_pressed(key));
    }
    assert_eq!(input.line_width, 0);
    let mut other = input;
    other.held.set(Key::Down, true);
    other.pressed.set(Key::Interact, true);
    assert!(other.is_key_down(Key::Down));
    assert!(!other.is_key_pressed(Key::Down));
    assert!(other.is_key_pressed(Key::Interact));
    assert!(!other.is_key_down(Key::Interact));
}

#[test]
fn the_first_held_key_decides_the_direction() {
    assert_eq!(walk_direction(keys(&[])), Facing::Idle);
    assert_eq!(walk_direction(keys(&[Key::Attack, Key::Interact])), Facing::Idle);
    assert_eq!(walk_direction(keys(&[Key::Down])), Facing::Down);
    assert_eq!(walk_direction(keys(&[Key::Down, Key::Up])), Facing::Up);
    assert_eq!(walk_direction(keys(&[Key::Down, Key::Up, Key::Right])), Facing::Right);
    assert_eq!(walk_direction(keys(&[Key::Down, Key::Up, Key::Right, Key::Left])), Facing::Left);
    assert_eq!(walk_direction(keys(&[Key::Left, Key::Down])), Facing::Left);
}

#[test]
fn the_player_walks_six_units_in_each_direction() {
    let mut p = standing(100, 100);
    p.step(Facing::Left);
    assert_eq!(p, Player::new(at(94, 100), -6, false, Facing::Left, Facing::Left, true));

    let mut p = standing(100, 100);
    p.step(Facing::Right);
    assert_eq!(p, Player::new(at(106, 100), 6, false, Facing::Right, Facing::Right, true));

    let mut p = standing(100, 100);
    p.step(Facing::Up);
    assert_eq!(p, Player::new(at(100, 94), 6, false, Facing::Up, Facing::Up, true));

    let mut p = standing(100, 100);
    p.step(Facing::Down);
    assert_eq!(p, Player::new(at(100, 106), 6, false, Facing::Down, Facing::Down, true));
}

#[test]
fn an_idle_player_keeps_the_direction_it_last_walked_in() {
    let mut p = standing(100, 100);
    p.step(Facing::Left);
    p.step(Facing::Idle);
    assert_eq!(p.facing, Facing::Idle);
    assert_eq!(p.prev_facing, Facing::Left);
    assert_eq!(p.position, at(94, 100));
    assert_eq!(p.velocity_x, -6);
}

#[test]
fn a_colliding_player_does_not_walk() {
    for direction in [Facing::Left, Facing::Right, Facing::Up, Facing::Down, Facing::Idle] {
        let mut p = Player::new(at(100, 100), 6, true, Facing::Right, Facing::Right, true);
        p.step(direction);
        assert_eq!(p, Player::new(at(100, 100), 6, true, Facing::Idle, Facing::Right, true));
    }
}

#[test]
fn a_dead_player_still_walks() {
    let mut p = Player::new(at(100, 100), 0, false, Facing::Idle, Facing::Down, false);
    p.step(Facing::Right);
    assert_eq!(p.position, at(106, 100));
    assert!(!p.alive);
}

#[test]
fn the_player_stops_at_the_end_of_the_range() {
    let mut p = standing(i32::MAX - 2, i32::MIN + 1);
    p.step(Facing::Right);
    assert_eq!(p.position, at(i32::MAX, i32::MIN + 1));
    p.step(Facing::Up);
    assert_eq!(p.position, at(i32::MAX, i32::MIN));
}

fn patrolling(x: i32, facing: PatrolFacing) -> Enemy {
    Enemy::new(at(x, 320), 3, 760, 965, facing)
}

#[test]
fn an_enemy_inside_its_range_keeps_its_facing() {
    let mut e = patrolling(960, PatrolFacing::Retreating);
    e.patrol();
    assert_eq!(e, patrolling(957, PatrolFacing::Retreating));

    let mut e = patrolling(960, PatrolFacing::Advancing);
    e.patrol();
    assert_eq!(e, patrolling(963, PatrolFacing::Advancing));
}

#[test]
fn an_enemy_below_its_range_turns_to_advancing() {
    let mut e = patrolling(759, PatrolFacing::Retreating);
    e.patrol();
    assert_eq!(e, patrolling(762, PatrolFacing::Advancing));

    let mut e = patrolling(700, PatrolFacing::Advancing);
    e.patrol();
    assert_eq!(e, patrolling(703, PatrolFacing::Advancing));
}

#[test]
fn an_enemy_above_its_range_turns_to_retreating() {
    let mut e = patrolling(966, PatrolFacing::Advancing);
    e.patrol();
    assert_eq!(e, patrolling(963, PatrolFacing::Retreating));

    let mut e = patrolling(1000, PatrolFacing::Retreating);
    e.patrol();
    assert_eq!(e, patrolling(997, PatrolFacing::Retreating));
}

#[test]
fn an_enemy_exactly_on_a_bound_stays() {
    for facing in [PatrolFacing::Retreating, PatrolFacing::Advancing] {
        let mut e = patrolling(760, facing);
        e.patrol();
        assert_eq!(e, patrolling(760, facing));
        let mut e = patrolling(965, facing);
        e.patrol();
        assert_eq!(e, patrolling(965, facing));
    }
}

#[test]
fn an_enemy_never_leaves_its_row() {
    let mut e = patrolling(960, PatrolFacing::Retreating);
    for _ in 0..500 {
        e.patrol();
        assert_eq!(e.position.y, 320);
        assert_eq!((e.velocity, e.range_end, e.range_start), (3, 760, 965));
    }
}

#[test]
fn a_patrol_stays_within_one_step_of_its_range() {
    for start in [760, 761, 800, 900, 960, 964, 965] {
        for facing in [PatrolFacing::Retreating, PatrolFacing::Advancing] {
            for speed in [0, 1, 3, 7, 250] {
                let mut e = Enemy::new(at(start, 0), speed, 760, 965, facing);
                for _ in 0..1000 {
                    e.patrol();
                    assert!(760 - speed <= e.position.x && e.position.x <= 965 + speed);
                }
            }
        }
    }
}

#[test]
fn a_patrol_turns_around_at_both_ends() {
    let mut e = patrolling(960, PatrolFacing::Retreating);
    let mut lowest = e.position.x;
    let mut highest = e.position.x;
    for _ in 0..400 {
        e.patrol();
        lowest = lowest.min(e.position.x);
        highest = highest.max(e.position.x);
    }
    assert_eq!(lowest, 759);
    assert_eq!(highest, 966);
}

#[test]
fn a_projectile_flies_straight() {
    let mut a = PlayerAttackSphere::new(at(100, 100), 10, Facing::Right, true);
    for _ in 0..3 {
        a.advance();
    }
    assert_eq!(a, PlayerAttackSphere::new(at(130, 100), 10, Facing::Right, true));

    let mut a = PlayerAttackSphere::new(at(100, 100), -10, Facing::Left, true);
    a.advance();
    assert_eq!(a.position, at(90, 100));

    let mut a = PlayerAttackSphere::new(at(100, 100), -10, Facing::Up, false);
    a.advance();
    a.advance();
    assert_eq!(a, PlayerAttackSphere::new(at(100, 80), -10, Facing::Up, false));

    let mut a = PlayerAttackSphere::new(at(100, 100), 10, Facing::Down, true);
    a.advance();
    assert_eq!(a.position, at(100, 110));
}

#[test]
fn a_projectile_without_a_facing_or_a_velocity_stays() {
    let mut a = PlayerAttackSphere::new(at(100, 100), 10, Facing::Idle, true);
    a.advance();
    assert_eq!(a.position, at(100, 100));
    let mut a = PlayerAttackSphere::new(at(100, 100), 0, Facing::Right, true);
    a.advance();
    assert_eq!(a.position, at(100, 100));
}

fn wall(x: i32, y: i32) -> Tile {
    Tile::new(CellKind::SolidA, at(x, y), true)
}

fn floor(x: i32, y: i32) -> Tile {
    Tile::new(CellKind::Decorative, at(x, y), false)
}

#[test]
fn a_blocking_tile_pushes_the_player_back() {
    let tiles = vec![wall(64, 100)];
    let mut p = Player::new(at(40, 100), 6, false, Facing::Right, Facing::Right, true);
    p.collide_with_tiles(&tiles);
    assert_eq!(p, Player::new(at(33, 100), 6, true, Facing::Right, Facing::Right, true));

    let mut p = Player::new(at(90, 100), -6, false, Facing::Left, Facing::Left, true);
    p.collide_with_tiles(&tiles);
    assert_eq!(p.position, at(97, 100));
    assert!(p.colliding);

    let mut p = Player::new(at(64, 130), 6, false, Facing::Up, Facing::Up, true);
    p.collide_with_tiles(&tiles);
    assert_eq!(p.position, at(64, 137));
    assert!(p.colliding);

    let mut p = Player::new(at(64, 60), 6, false, Facing::Down, Facing::Down, true);
    p.collide_with_tiles(&tiles);
    assert_eq!(p.position, at(64, 53));
    assert!(p.colliding);
}

#[test]
fn only_the_first_blocking_tile_answers() {
    let tiles = vec![floor(0, 0), wall(64, 100), wall(70, 100), wall(64, 110)];
    let mut p = Player::new(at(40, 100), 6, false, Facing::Right, Facing::Right, true);
    p.collide_with_tiles(&tiles);
    assert_eq!(p.position, at(33, 100));
    assert!(p.colliding);
}

#[test]
fn tiles_that_do_not_block_clear_the_flag() {
    let tiles = vec![floor(40, 100), wall(500, 500)];
    let mut p = Player::new(at(40, 100), 6, true, Facing::Idle, Facing::Right, true);
    p.collide_with_tiles(&tiles);
    assert_eq!(p, Player::new(at(40, 100), 6, false, Facing::Idle, Facing::Right, true));
}

#[test]
fn without_tiles_the_flag_stays() {
    let tiles: Vec<Tile> = Vec::new();
    let mut p = Player::new(at(40, 100), 6, true, Facing::Idle, Facing::Right, true);
    p.collide_with_tiles(&tiles);
    assert!(p.colliding);
    let mut p = Player::new(at(40, 100), 6, false, Facing::Right, Facing::Right, true);
    p.collide_with_tiles(&tiles);
    assert!(!p.colliding);
}

#[test]
fn a_blocked_player_that_faces_nowhere_is_not_pushed() {
    let mut p = Player::new(at(40, 100), 6, true, Facing::Idle, Facing::Right, true);
    p.collide_with_tiles(&vec![wall(64, 100)]);
    assert_eq!(p, Player::new(at(40, 100), 6, true, Facing::Idle, Facing::Right, true));

    let mut p = Player::new(at(40, 100), 6, false, Facing::Idle, Facing::Right, true);
    p.collide_with_tiles(&vec![wall(64, 100)]);
    assert!(!p.colliding);

    let mut p = Player::new(at(40, 100), 6, true, Facing::Idle, Facing::Right, true);
    p.collide_with_tiles(&vec![wall(900, 900), wall(64, 100)]);
    assert_eq!(p, Player::new(at(40, 100), 6, false, Facing::Idle, Facing::Right, true));
}

#[test]
fn an_enemy_that_touches_the_player_kills_it() {
    let enemies = vec![Enemy::new(at(500, 500), 3, 300, 505, PatrolFacing::Retreating)];
    let mut p = standing(460, 460);
    p.collide_with_enemies(&enemies);
    assert!(!p.alive);
    assert_eq!(p.position, at(460, 460));

    let mut p = standing(452, 460);
    p.collide_with_enemies(&enemies);
    assert!(p.alive);

    let mut p = standing(460, 460);
    p.collide_with_enemies(&Vec::new());
    assert!(p.alive);
}

#[test]
fn a_dead_player_stays_dead() {
    let mut p = Player::new(at(0, 0), 0, false, Facing::Idle, Facing::Down, false);
    p.collide_with_enemies(&Vec::new());
    assert!(!p.alive);
}
