//! The entities of a level: tiles, the player, enemies, attack projectiles
//! and the character the player can talk to.
//!
//! Every entity is an axis-aligned box. Its `position` is the box's top-left
//! corner; its size is fixed by its kind.

use vstd::prelude::*;
use crate::geometry::Position;

verus! {

/// Side of the player's box.
pub const PLAYER_SIZE: i32 = 48;

/// Side of an enemy's box.
pub const ENEMY_SIZE: i32 = 48;

/// Side of the box of the character the player can talk to.
pub const NPC_SIZE: i32 = 48;

/// Side of an attack projectile's box.
pub const ATTACK_SIZE: i32 = 32;

/// Side of a tile, and of a cell of the level grid.
pub const TILE_SIZE: i32 = 32;

/// The direction an entity looks or moves in; `Idle` is no direction.
#[derive(Clone, Copy, Debug, PartialEq, Eq, Structural)]
pub enum Facing {
    Idle,
    Right,
    Left,
    Up,
    Down,
}

/// The leg of its patrol an enemy is on: advancing moves it by `+velocity`
/// along x, retreating by `-velocity`.
#[derive(Clone, Copy, Debug, PartialEq, Eq, Structural)]
pub enum PatrolFacing {
    Retreating,
    Advancing,
}

/// What a cell of the level grid holds. The two solid kinds stop the player
/// and attack projectiles; a decorative cell is drawn and walked over; an
/// empty cell is nothing at all.
#[derive(Clone, Copy, Debug, PartialEq, Eq, Structural)]
pub enum CellKind {
    Empty,
    SolidA,
    SolidB,
    Decorative,
}

/// One tile of the static collision grid: a cell of the level that is not
/// empty. `kind` says how it is drawn.
#[derive(Clone, Copy, Debug, PartialEq, Eq, Structural)]
pub struct Tile {
    pub kind: CellKind,
    pub position: Position,
    pub collidable: bool,
}

/// The player. `velocity_x` is the one step size used on both axes;
/// `prev_facing` keeps the last direction walked in while `facing` is
/// `Facing::Idle`.
#[derive(Clone, Copy, Debug, PartialEq, Eq, Structural)]
pub struct Player {
    pub position: Position,
    pub velocity_x: i32,
    pub colliding: bool,
    pub facing: Facing,
    pub prev_facing: Facing,
    pub alive: bool,
}

/// An attack projectile. Its signed `velocity` and its `facing` are fixed
/// when it is fired; `visible` is cleared when it has hit an enemy.
#[derive(Clone, Copy, Debug, PartialEq, Eq, Structural)]
pub struct PlayerAttackSphere {
    pub position: Position,
    pub velocity: i32,
    pub facing: Facing,
    pub visible: bool,
}

/// An enemy that walks back and forth along x between `range_end` (the low
/// bound) and `range_start` (the high bound).
#[derive(Clone, Copy, Debug, PartialEq, Eq, Structural)]
pub struct Enemy {
    pub position: Position,
    pub velocity: i32,
    pub range_end: i32,
    pub range_start: i32,
    pub facing: PatrolFacing,
}

/// The character the player can talk to. It never moves.
#[derive(Clone, Copy, Debug, PartialEq, Eq, Structural)]
pub struct Npc {
    pub position: Position,
}

impl Tile {
    /// A tile of the given kind at `position`.
    pub fn new(kind: CellKind, position: Position, collidable: bool) -> (tile: Tile)
        ensures
            tile == (Tile { kind, position, collidable }),
    {
        Tile { kind, position, collidable }
    }
}

impl Player {
    /// A player with the given fields.
    pub fn new(
        position: Position,
        velocity_x: i32,
        colliding: bool,
        facing: Facing,
        prev_facing: Facing,
        alive: bool,
    ) -> (player: Player)
        ensures
            player == (Player { position, velocity_x, colliding, facing, prev_facing, alive }),
    {
        Player { position, velocity_x, colliding, facing, prev_facing, alive }
    }
}

impl Npc {
    /// The character to talk to, standing at `position`.
    pub fn new(position: Position) -> (npc: Npc)
        ensures
            npc == (Npc { position }),
    {
        Npc { position }
    }
}

impl PlayerAttackSphere {
    /// A projectile with the given fields.
    pub fn new(
        position: Position,
        velocity: i32,
        facing: Facing,
        visible: bool,
    ) -> (attack: PlayerAttackSphere)
        ensures
            attack == (PlayerAttackSphere { position, velocity, facing, visible }),
    {
        PlayerAttackSphere { position, velocity, facing, visible }
    }
}

impl Enemy {
    /// What a patrolling enemy satisfies: its velocity is a speed, zero or
    /// more, and its range is not empty.
    pub open spec fn well_formed(self) -> bool {
        self.velocity >= 0 && self.range_end <= self.range_start
    }

    /// An enemy with the given fields.
    pub fn new(
        position: Position,
        velocity: i32,
        range_end: i32,
        range_start: i32,
        facing: PatrolFacing,
    ) -> (enemy: Enemy)
        ensures
            enemy == (Enemy { position, velocity, range_end, range_start, facing }),
    {
        Enemy { position, velocity, range_end, range_start, facing }
    }
}

} // verus!
