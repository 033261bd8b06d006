//! How each kind of entity moves in one tick.
//!
//! A move adds a step to one coordinate. A coordinate that would leave the
//! `i32` range stays at the end of that range, so every move is defined on
//! every state.

use vstd::prelude::*;
use crate::geometry::{Position, clamp_i32, shift, shift_back};
use crate::entities::{Facing, PatrolFacing, Player, Enemy, PlayerAttackSphere};

verus! {

/// The length of one step of the player.
pub const PLAYER_SPEED: i32 = 6;

/// `position` moved by `dx` along x.
pub open spec fn moved_x(position: Position, dx: int) -> Position {
    Position { x: clamp_i32(position.x + dx) as i32, y: position.y }
}

/// `position` moved by `dy` along y.
pub open spec fn moved_y(position: Position, dy: int) -> Position {
    Position { x: position.x, y: clamp_i32(position.y + dy) as i32 }
}

/// The player after one movement step in `direction`.
///
/// A player flagged as colliding does not move and ends the tick idle. So
/// does one that is asked for no direction. Otherwise the player takes one
/// step of `PLAYER_SPEED`, looks where it walked and remembers that
/// direction. "Up" is towards smaller y.
pub open spec fn player_after_step(player: Player, direction: Facing) -> Player {
    if player.colliding {
        Player { facing: Facing::Idle, ..player }
    } else {
        match direction {
            Facing::Left => Player {
                velocity_x: (-PLAYER_SPEED) as i32,
                position: moved_x(player.position, -PLAYER_SPEED),
                facing: Facing::Left,
                prev_facing: Facing::Left,
                ..player
            },
            Facing::Right => Player {
                velocity_x: PLAYER_SPEED,
                position: moved_x(player.position, PLAYER_SPEED as int),
                facing: Facing::Right,
                prev_facing: Facing::Right,
                ..player
            },
            Facing::Up => Player {
                velocity_x: PLAYER_SPEED,
                position: moved_y(player.position, -PLAYER_SPEED),
                facing: Facing::Up,
                prev_facing: Facing::Up,
                ..player
            },
            Facing::Down => Player {
                velocity_x: PLAYER_SPEED,
                position: moved_y(player.position, PLAYER_SPEED as int),
                facing: Facing::Down,
                prev_facing: Facing::Down,
                ..player
            },
            Facing::Idle => Player { facing: Facing::Idle, ..player },
        }
    }
}

/// The enemy after one tick of its patrol.
///
/// Below `range_end` it turns to advancing and moves by `+velocity`; above
/// `range_start` it turns to retreating and moves by `-velocity`; strictly
/// between the two it keeps its facing and moves that way. Exactly on a
/// bound it stays as it is.
pub open spec fn enemy_after_patrol(enemy: Enemy) -> Enemy {
    let x = enemy.position.x;
    if x < enemy.range_end {
        Enemy {
            facing: PatrolFacing::Advancing,
            position: moved_x(enemy.position, enemy.velocity as int),
            ..enemy
        }
    } else if enemy.range_end < x && x < enemy.range_start {
        match enemy.facing {
            PatrolFacing::Advancing => Enemy {
                position: moved_x(enemy.position, enemy.velocity as int),
                ..enemy
            },
            PatrolFacing::Retreating => Enemy {
                position: moved_x(enemy.position, -enemy.velocity),
                ..enemy
            },
        }
    } else if x > enemy.range_start {
        Enemy {
            facing: PatrolFacing::Retreating,
            position: moved_x(enemy.position, -enemy.velocity),
            ..enemy
        }
    } else {
        enemy
    }
}

/// The projectile after one tick: moved by its velocity along the axis of
/// the facing it was fired with. It never turns.
pub open spec fn attack_after_move(attack: PlayerAttackSphere) -> PlayerAttackSphere {
    match attack.facing {
        Facing::Right | Facing::Left => PlayerAttackSphere {
            position: moved_x(attack.position, attack.velocity as int),
            ..attack
        },
        Facing::Up | Facing::Down => PlayerAttackSphere {
            position: moved_y(attack.position, attack.velocity as int),
            ..attack
        },
        Facing::Idle => attack,
    }
}

impl Player {
    /// Moves the player by one step in `direction`, unless it is colliding.
    pub fn step(&mut self, direction: Facing)
        ensures
            *final(self) == player_after_step(*old(self), direction),
    {
        if self.colliding {
            self.facing = Facing::Idle;
            return ;
        }
        match direction {
            Facing::Left => {
                self.velocity_x = -PLAYER_SPEED;
                self.position.x = shift(self.position.x, -PLAYER_SPEED);
                self.facing = Facing::Left;
                self.prev_facing = Facing::Left;
            },
            Facing::Right => {
                self.velocity_x = PLAYER_SPEED;
                self.position.x = shift(self.position.x, PLAYER_SPEED);
                self.facing = Facing::Right;
                self.prev_facing = Facing::Right;
            },
            Facing::Up => {
                self.velocity_x = PLAYER_SPEED;
                self.position.y = shift_back(self.position.y, PLAYER_SPEED);
                self.facing = Facing::Up;
                self.prev_facing = Facing::Up;
            },
            Facing::Down => {
                self.velocity_x = PLAYER_SPEED;
                self.position.y = shift(self.position.y, PLAYER_SPEED);
                self.facing = Facing::Down;
                self.prev_facing = Facing::Down;
            },
            Facing::Idle => {
                self.facing = Facing::Idle;
            },
        }
    }
}

impl Enemy {
    /// Advances the enemy's patrol by one tick.
    pub fn patrol(&mut self)
        ensures
            *final(self) == enemy_after_patrol(*old(self)),
            old(self).well_formed() ==> final(self).well_formed(),
    {
        let x = self.position.x;
        if x < self.range_end {
            self.facing = PatrolFacing::Advancing;
            self.position.x = shift(x, self.velocity);
        } else if self.range_end < x && x < self.range_start {
            match self.facing {
                PatrolFacing::Advancing => {
                    self.position.x = shift(x, self.velocity);
                },
                PatrolFacing::Retreating => {
                    self.position.x = shift_back(x, self.velocity);
                },
            }
        } else if x > self.range_start {
            self.facing = PatrolFacing::Retreating;
            self.position.x = shift_back(x, self.velocity);
        }
    }
}

impl PlayerAttackSphere {
    /// Moves the projectile by one tick.
    pub fn advance(&mut self)
        ensures
            *final(self) == attack_after_move(*old(self)),
    {
        match self.facing {
            Facing::Right | Facing::Left => {
                self.position.x = shift(self.position.x, self.velocity);
            },
            Facing::Up | Facing::Down => {
                self.position.y = shift(self.position.y, self.velocity);
            },
            Facing::Idle => {},
        }
    }
}

/// Moves every projectile by one tick.
pub fn advance_attacks(attacks: &mut Vec<PlayerAttackSphere>)
    ensures
        final(attacks)@ == old(attacks)@.map_values(|attack: PlayerAttackSphere| attack_after_move(attack)),
{
    let ghost before = attacks@;
    let mut i: usize = 0;
    while i < attacks.len()
        invariant
            i <= attacks.len(),
            attacks@.len() == before.len(),
            forall|j: int| 0 <= j < i ==> attacks@[j] == attack_after_move(before[j]),
            forall|j: int| i <= j < before.len() ==> attacks@[j] == before[j],
        decreases attacks.len() - i,
    {
        let mut attack = attacks[i];
        attack.advance();
        attacks.set(i, attack);
        i += 1;
    }
}

/// Advances the patrol of every enemy by one tick.
pub fn patrol_enemies(enemies: &mut Vec<Enemy>)
    ensures
        final(enemies)@ == old(enemies)@.map_values(|enemy: Enemy| enemy_after_patrol(enemy)),
{
    let ghost before = enemies@;
    let mut i: usize = 0;
    while i < enemies.len()
        invariant
            i <= enemies.len(),
            enemies@.len() == before.len(),
            forall|j: int| 0 <= j < i ==> enemies@[j] == enemy_after_patrol(before[j]),
            forall|j: int| i <= j < before.len() ==> enemies@[j] == before[j],
        decreases enemies.len() - i,
    {
        let mut enemy = enemies[i];
        enemy.patrol();
        enemies.set(i, enemy);
        i += 1;
    }
}

/// A step never forgets the direction last walked in: `prev_facing` is the
/// direction of this step if the player walked, and as before if it did not.
pub proof fn lemma_step_remembers_direction(player: Player, direction: Facing)
    ensures
        player.colliding || direction == Facing::Idle ==> player_after_step(
            player,
            direction,
        ).prev_facing == player.prev_facing,
        !player.colliding && direction != Facing::Idle ==> player_after_step(
            player,
            direction,
        ).prev_facing == direction,
        player.prev_facing != Facing::Idle ==> player_after_step(player, direction).prev_facing
            != Facing::Idle,
        player_after_step(player, direction).alive == player.alive,
        player_after_step(player, direction).colliding == player.colliding,
{
}

/// The projectile after `ticks` ticks of flight.
pub open spec fn attack_after_ticks(attack: PlayerAttackSphere, ticks: nat) -> PlayerAttackSphere
    decreases ticks,
{
    if ticks == 0 {
        attack
    } else {
        attack_after_move(attack_after_ticks(attack, (ticks - 1) as nat))
    }
}

/// A projectile flies straight and at a constant velocity: after any number
/// of ticks it has moved by that many times its velocity along the axis of
/// its facing, as far as the `i32` range reaches, and not at all along the
/// other axis. Its velocity, facing and flag are as they were.
pub proof fn lemma_attack_flies_straight(attack: PlayerAttackSphere, ticks: nat)
    ensures
        ({
            let after = attack_after_ticks(attack, ticks);
            &&& after.velocity == attack.velocity
            &&& after.facing == attack.facing
            &&& after.visible == attack.visible
            &&& match attack.facing {
                Facing::Right | Facing::Left => {
                    &&& after.position.y == attack.position.y
                    &&& after.position.x == clamp_i32(attack.position.x + ticks * attack.velocity)
                },
                Facing::Up | Facing::Down => {
                    &&& after.position.x == attack.position.x
                    &&& after.position.y == clamp_i32(attack.position.y + ticks * attack.velocity)
                },
                Facing::Idle => after.position == attack.position,
            }
        }),
    decreases ticks,
{
    if ticks > 0 {
        let earlier = (ticks - 1) as nat;
        lemma_attack_flies_straight(attack, earlier);
        assert(ticks * attack.velocity == earlier * attack.velocity + attack.velocity)
            by (nonlinear_arith)
            requires
                ticks == earlier + 1,
        ;
        if attack.velocity >= 0 {
            assert(earlier * attack.velocity >= 0) by (nonlinear_arith)
                requires
                    attack.velocity >= 0,
            ;
        } else {
            assert(earlier * attack.velocity <= 0) by (nonlinear_arith)
                requires
                    attack.velocity < 0,
            ;
        }
    }
}

/// The enemy after `ticks` ticks of its patrol.
pub open spec fn enemy_after_ticks(enemy: Enemy, ticks: nat) -> Enemy
    decreases ticks,
{
    if ticks == 0 {
        enemy
    } else {
        enemy_after_patrol(enemy_after_ticks(enemy, (ticks - 1) as nat))
    }
}

/// The enemy's x is no further than one step outside its patrol range.
pub open spec fn near_patrol_range(enemy: Enemy) -> bool {
    enemy.range_end - enemy.velocity <= enemy.position.x <= enemy.range_start + enemy.velocity
}

/// One tick keeps a well-formed enemy within one step of its patrol range.
/// It changes neither the range nor the velocity, and moves the enemy along
/// x only.
pub proof fn lemma_patrol_step_stays_near(enemy: Enemy)
    requires
        enemy.well_formed(),
        near_patrol_range(enemy),
    ensures
        near_patrol_range(enemy_after_patrol(enemy)),
        enemy_after_patrol(enemy).well_formed(),
        enemy_after_patrol(enemy).velocity == enemy.velocity,
        enemy_after_patrol(enemy).range_end == enemy.range_end,
        enemy_after_patrol(enemy).range_start == enemy.range_start,
        enemy_after_patrol(enemy).position.y == enemy.position.y,
{
}

/// A well-formed enemy that starts inside its patrol range is within one
/// step of that range after any number of ticks.
pub proof fn lemma_patrol_stays_near_range(enemy: Enemy, ticks: nat)
    requires
        enemy.well_formed(),
        enemy.range_end <= enemy.position.x <= enemy.range_start,
    ensures
        near_patrol_range(enemy_after_ticks(enemy, ticks)),
        enemy_after_ticks(enemy, ticks).well_formed(),
        enemy_after_ticks(enemy, ticks).velocity == enemy.velocity,
        enemy_after_ticks(enemy, ticks).range_end == enemy.range_end,
        enemy_after_ticks(enemy, ticks).range_start == enemy.range_start,
        enemy_after_ticks(enemy, ticks).position.y == enemy.position.y,
    decreases ticks,
{
    if ticks > 0 {
        lemma_patrol_stays_near_range(enemy, (ticks - 1) as nat);
        lemma_patrol_step_stays_near(enemy_after_ticks(enemy, (ticks - 1) as nat));
    }
}

} // verus!
