//! Per-frame simulation core of a small 2D action game.
//!
//! The crate advances the state of a player, patrolling enemies, attack
//! projectiles and a dialogue trigger by one tick at a time, and resolves the
//! collisions between them and a static grid of tiles. It performs no drawing
//! and no input or file access: the caller hands in the keys that are held or
//! were pressed, and reads the new state back.
//!
//! Positions, sizes and velocities are whole numbers of world units. Every
//! entity is an axis-aligned box, and a coordinate that a move would take out
//! of the `i32` range stays at the end of that range. So every operation of a
//! tick is defined on every state, and none of them fails.
//!
//! [`game::GameState::update`] is the tick. The other modules hold its
//! passes, each with the mathematical function that says what it computes.

pub mod geometry;
pub mod entities;
pub mod input;
pub mod search;
pub mod movement;
pub mod collision;
pub mod projectiles;
pub mod dialogue;
pub mod level;
pub mod sprites;
pub mod game;
