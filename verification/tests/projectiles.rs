use hypoterra::entities::{CellKind, Enemy, Facing, PatrolFacing, Player, PlayerAttackSphere, Tile};
use hypoterra::geometry::{Camera, Position};
use hypoterra::movement::{advance_attacks, patrol_enemies};
use hypoterra::projectiles::{expire_attacks, fire, resolve_hits, sweep_hidden, MAX_ATTACKS};
use hypoterra::search::{first_blocking_tile, first_hidden_attack, first_touching_enemy};

fn at(x: i32, y: i32) -> Position {
    Position { x, y }
}

fn player(x: i32, y: i32, facing: Facing, prev_facing: Facing) -> Player {
    Player::new(at(x, y), 6, false, facing, prev_facing, true)
}

fn ball(x: i32, y: i32) -> PlayerAttackSphere {
    PlayerAttackSphere::new(at(x, y), 10, Facing::Right, true)
}

fn hidden_ball(x: i32, y: i32) -> PlayerAttackSphere {
    PlayerAttackSphere::new(at(x, y), 10, Facing::Right, false)
}

fn enemy(x: i32, y: i32) -> Enemy {
    Enemy::new(at(x, y), 3, x - 200, x + 5, PatrolFacing::Retreating)
}

fn camera() -> Camera {
    Camera { position: at(640, 480), viewport_width: 1280, viewport_height: 960 }
}

#[test]
fn an_attack_starts_a_quarter_box_inside_the_player() {
    let fired = player(100, 100, Facing::Right, Facing::Right).attack();
    assert_eq!(fired, PlayerAttackSphere::new(at(112, 112), 10, Facing::Right, true));
}

#[test]
fn an_attack_goes_where_the_player_faces() {
    let p = player(100, 100, Facing::Left, Facing::Up);
    assert_eq!(p.attack(), PlayerAttackSphere::new(at(112, 112), -10, Facing::Left, true));
    let p = player(100, 100, Facing::Up, Facing::Left);
    assert_eq!(p.attack(), PlayerAttackSphere::new(at(112, 112), -10, Facing::Up, true));
    let p = player(100, 100, Facing::Down, Facing::Left);
    assert_eq!(p.attack(), PlayerAttackSphere::new(at(112, 112), 10, Facing::Down, true));
}

#[test]
fn an_idle_player_attacks_where_it_last_walked() {
    let p = player(100, 100, Facing::Idle, Facing::Right);
    assert_eq!(p.attack(), PlayerAttackSphere::new(at(112, 112), 10, Facing::Right, true));
    let p = player(100, 100, Facing::Idle, Facing::Left);
    assert_eq!(p.attack(), PlayerAttackSphere::new(at(112, 112), -10, Facing::Left, true));
    let p = player(100, 100, Facing::Idle, Facing::Up);
    assert_eq!(p.attack(), PlayerAttackSphere::new(at(112, 112), -10, Facing::Up, true));
    let p = player(100, 100, Facing::Idle, Facing::Down);
    assert_eq!(p.attack(), PlayerAttackSphere::new(at(112, 112), 10, Facing::Down, true));
}

#[test]
fn a_player_that_never_walked_fires_an_inert_projectile() {
    let p = player(100, 100, Facing::Idle, Facing::Idle);
    let mut fired = p.attack();
    assert_eq!(fired, PlayerAttackSphere::new(at(112, 112), 0, Facing::Right, true));
    fired.advance();
    assert_eq!(fired.position, at(112, 112));
}

#[test]
fn firing_needs_the_key_a_living_player_and_room() {
    let p = player(100, 100, Facing::Right, Facing::Right);
    let mut attacks = Vec::new();
    assert!(!fire(&mut attacks, &p, false));
    assert!(attacks.is_empty());

    assert!(fire(&mut attacks, &p, true));
    assert_eq!(attacks, vec![PlayerAttackSphere::new(at(112, 112), 10, Facing::Right, true)]);

    let dead = Player::new(at(100, 100), 6, false, Facing::Right, Facing::Right, false);
    assert!(!fire(&mut attacks, &dead, true));
    assert_eq!(attacks.len(), 1);
}

#[test]
fn firing_stops_at_six_projectiles() {
    let p = player(100, 100, Facing::Right, Facing::Right);
    let mut attacks = Vec::new();
    for round in 1..=20 {
        let fired = fire(&mut attacks, &p, true);
        assert_eq!(fired, round <= MAX_ATTACKS);
        assert_eq!(attacks.len(), round.min(MAX_ATTACKS));
    }
    assert_eq!(MAX_ATTACKS, 6);
}

#[test]
fn a_fired_projectile_goes_to_the_end_of_the_list() {
    let p = player(100, 100, Facing::Down, Facing::Down);
    let mut attacks = vec![ball(1, 1), ball(2, 2)];
    assert!(fire(&mut attacks, &p, true));
    assert_eq!(attacks, vec![ball(1, 1), ball(2, 2), p.attack()]);
}

#[test]
fn a_projectile_defeats_the_first_enemy_it_overlaps() {
    let mut attacks = vec![ball(100, 100)];
    let mut enemies = vec![enemy(500, 500), enemy(110, 110), enemy(90, 90)];
    assert_eq!(resolve_hits(&mut attacks, &mut enemies), 1);
    assert_eq!(attacks, vec![hidden_ball(100, 100)]);
    assert_eq!(enemies, vec![enemy(500, 500), enemy(90, 90)]);
}

#[test]
fn each_projectile_defeats_one_enemy_at_most() {
    let mut attacks = vec![ball(100, 100), ball(105, 100), ball(900, 900)];
    let mut enemies = vec![enemy(110, 110)];
    assert_eq!(resolve_hits(&mut attacks, &mut enemies), 1);
    assert_eq!(attacks, vec![hidden_ball(100, 100), ball(105, 100), ball(900, 900)]);
    assert!(enemies.is_empty());

    let mut attacks = vec![ball(100, 100), ball(105, 100)];
    let mut enemies = vec![enemy(110, 110), enemy(111, 111), enemy(112, 112)];
    assert_eq!(resolve_hits(&mut attacks, &mut enemies), 2);
    assert_eq!(attacks, vec![hidden_ball(100, 100), hidden_ball(105, 100)]);
    assert_eq!(enemies, vec![enemy(112, 112)]);
}

#[test]
fn a_projectile_that_overlaps_no_enemy_changes_nothing() {
    let mut attacks = vec![ball(100, 100)];
    let mut enemies = vec![enemy(132, 100), enemy(100, 52)];
    assert_eq!(resolve_hits(&mut attacks, &mut enemies), 0);
    assert_eq!(attacks, vec![ball(100, 100)]);
    assert_eq!(enemies, vec![enemy(132, 100), enemy(100, 52)]);

    let mut none: Vec<PlayerAttackSphere> = Vec::new();
    assert_eq!(resolve_hits(&mut none, &mut enemies), 0);
    assert_eq!(enemies.len(), 2);
}

#[test]
fn a_projectile_out_of_view_expires() {
    let tiles = vec![Tile::new(CellKind::SolidA, at(0, 0), true)];
    let mut attacks = vec![ball(100, 100), ball(1280, 100), ball(200, 200), ball(5000, 5000), ball(-32, 0)];
    expire_attacks(&mut attacks, &tiles, camera());
    assert_eq!(attacks, vec![ball(100, 100), ball(200, 200)]);
}

#[test]
fn a_projectile_out_of_view_expires_without_tiles() {
    let mut attacks = vec![ball(1280, 100), ball(100, 100)];
    expire_attacks(&mut attacks, &Vec::new(), camera());
    assert_eq!(attacks, vec![ball(100, 100)]);
}

#[test]
fn a_projectile_in_a_wall_expires() {
    let tiles = vec![
        Tile::new(CellKind::Decorative, at(96, 96), false),
        Tile::new(CellKind::SolidA, at(320, 320), true),
        Tile::new(CellKind::SolidB, at(640, 320), true),
    ];
    let mut attacks = vec![ball(100, 100), ball(300, 300), ball(288, 320), ball(650, 330), ball(351, 351)];
    expire_attacks(&mut attacks, &tiles, camera());
    assert_eq!(attacks, vec![ball(100, 100), ball(288, 320)]);
}

#[test]
fn the_sweep_takes_the_first_flagged_projectile_only() {
    let mut attacks = vec![ball(1, 1), hidden_ball(2, 2), ball(3, 3), hidden_ball(4, 4)];
    sweep_hidden(&mut attacks);
    assert_eq!(attacks, vec![ball(1, 1), ball(3, 3), hidden_ball(4, 4)]);
    sweep_hidden(&mut attacks);
    assert_eq!(attacks, vec![ball(1, 1), ball(3, 3)]);
    sweep_hidden(&mut attacks);
    assert_eq!(attacks, vec![ball(1, 1), ball(3, 3)]);
}

#[test]
fn all_projectiles_move_together() {
    let mut attacks = vec![
        ball(100, 100),
        PlayerAttackSphere::new(at(50, 50), -10, Facing::Up, false),
        PlayerAttackSphere::new(at(10, 10), 0, Facing::Right, true),
    ];
    advance_attacks(&mut attacks);
    assert_eq!(
        attacks,
        vec![
            ball(110, 100),
            PlayerAttackSphere::new(at(50, 40), -10, Facing::Up, false),
            PlayerAttackSphere::new(at(10, 10), 0, Facing::Right, true),
        ]
    );
}

#[test]
fn all_enemies_patrol_together() {
    let mut enemies = vec![
        Enemy::new(at(960, 320), 3, 760, 965, PatrolFacing::Retreating),
        Enemy::new(at(700, 512), 3, 760, 965, PatrolFacing::Retreating),
        Enemy::new(at(970, 512), 5, 760, 965, PatrolFacing::Advancing),
    ];
    patrol_enemies(&mut enemies);
    assert_eq!(
        enemies,
        vec![
            Enemy::new(at(957, 320), 3, 760, 965, PatrolFacing::Retreating),
            Enemy::new(at(703, 512), 3, 760, 965, PatrolFacing::Advancing),
            Enemy::new(at(965, 512), 5, 760, 965, PatrolFacing::Retreating),
        ]
    );
}

#[test]
fn searches_report_the_first_match_or_none() {
    let tiles = vec![
        Tile::new(CellKind::Decorative, at(0, 0), false),
        Tile::new(CellKind::SolidA, at(500, 500), true),
        Tile::new(CellKind::SolidA, at(10, 10), true),
        Tile::new(CellKind::SolidB, at(0, 0), true),
    ];
    assert_eq!(first_blocking_tile(&tiles, at(0, 0), 48, 48), Some(2));
    assert_eq!(first_blocking_tile(&tiles, at(0, 0), 10, 10), Some(3));
    assert_eq!(first_blocking_tile(&tiles, at(200, 200), 48, 48), None);
    assert_eq!(first_blocking_tile(&Vec::new(), at(0, 0), 48, 48), None);

    let enemies = vec![enemy(500, 500), enemy(40, 0), enemy(0, 0)];
    assert_eq!(first_touching_enemy(&enemies, at(0, 0), 48, 48), Some(1));
    assert_eq!(first_touching_enemy(&enemies, at(0, 0), 32, 32), Some(2));
    assert_eq!(first_touching_enemy(&enemies, at(300, 0), 32, 32), None);

    assert_eq!(first_hidden_attack(&vec![ball(0, 0), hidden_ball(1, 1), hidden_ball(2, 2)]), Some(1));
    assert_eq!(first_hidden_attack(&vec![ball(0, 0)]), None);
}
