//! The player against the static tiles, and against the enemies.

use vstd::prelude::*;
use crate::geometry::{shift, shift_back};
use crate::entities::{Facing, Player, Tile, Enemy, PLAYER_SIZE};
use crate::movement::{moved_x, moved_y};
use crate::search::{first_match, blocks, touches, first_blocking_tile, first_touching_enemy};

verus! {

/// How far a blocking tile pushes the player back.
pub const PUSH_BACK: i32 = 7;

/// The player after the tiles were held against it.
///
/// The tiles are visited in list order, up to the first collidable one that
/// the player's box overlaps. Every tile passed on the way clears the
/// `colliding` flag. The blocking tile sets the flag and pushes the player
/// back by `PUSH_BACK` against the direction it faces; a player that faces
/// nowhere is not pushed, and the flag stays as the tiles before left it.
/// So at most one tile answers in a tick: the first one.
pub open spec fn player_after_tiles(player: Player, tiles: Seq<Tile>) -> Player {
    match first_match(tiles, blocks(player.position, PLAYER_SIZE, PLAYER_SIZE)) {
        Some(i) => match player.facing {
            Facing::Left => Player {
                colliding: true,
                position: moved_x(player.position, PUSH_BACK as int),
                ..player
            },
            Facing::Right => Player {
                colliding: true,
                position: moved_x(player.position, -PUSH_BACK),
                ..player
            },
            Facing::Up => Player {
                colliding: true,
                position: moved_y(player.position, PUSH_BACK as int),
                ..player
            },
            Facing::Down => Player {
                colliding: true,
                position: moved_y(player.position, -PUSH_BACK),
                ..player
            },
            Facing::Idle => Player { colliding: player.colliding && i == 0, ..player },
        },
        None => Player { colliding: player.colliding && tiles.len() == 0, ..player },
    }
}

/// The player after the enemies were held against it: it is alive if it was
/// and no enemy's box overlaps its own.
pub open spec fn player_after_enemies(player: Player, enemies: Seq<Enemy>) -> Player {
    Player {
        alive: player.alive && first_match(
            enemies,
            touches(player.position, PLAYER_SIZE, PLAYER_SIZE),
        ) is None,
        ..player
    }
}

/// The tiles move the player once in a tick at most: by `PUSH_BACK` along one
/// axis, as far as the `i32` range reaches, or not at all. They change
/// nothing else of the player but the `colliding` flag.
pub proof fn lemma_tiles_push_once(player: Player, tiles: Seq<Tile>)
    ensures
        ({
            let after = player_after_tiles(player, tiles);
            let dx = after.position.x - player.position.x;
            let dy = after.position.y - player.position.y;
            &&& (dx == 0 && -PUSH_BACK <= dy <= PUSH_BACK) || (dy == 0 && -PUSH_BACK <= dx
                <= PUSH_BACK)
            &&& after == (Player { position: after.position, colliding: after.colliding, ..player })
            &&& after.position != player.position ==> after.colliding
        }),
{
}

impl Player {
    /// Resolves the player's collision with the tiles: the first blocking
    /// tile, if there is one, pushes the player back.
    pub fn collide_with_tiles(&mut self, tiles: &Vec<Tile>)
        ensures
            *final(self) == player_after_tiles(*old(self), tiles@),
    {
        match first_blocking_tile(tiles, self.position, PLAYER_SIZE, PLAYER_SIZE) {
            Some(i) => {
                match self.facing {
                    Facing::Left => {
                        self.colliding = true;
                        self.position.x = shift(self.position.x, PUSH_BACK);
                    },
                    Facing::Right => {
                        self.colliding = true;
                        self.position.x = shift_back(self.position.x, PUSH_BACK);
                    },
                    Facing::Up => {
                        self.colliding = true;
                        self.position.y = shift(self.position.y, PUSH_BACK);
                    },
                    Facing::Down => {
                        self.colliding = true;
                        self.position.y = shift_back(self.position.y, PUSH_BACK);
                    },
                    Facing::Idle => {
                        if i > 0 {
                            self.colliding = false;
                        }
                    },
                }
            },
            None => {
                if tiles.len() > 0 {
                    self.colliding = false;
                }
            },
        }
    }

    /// Marks the player as dead if an enemy's box overlaps its own. A dead
    /// player stays in the state; nothing revives it.
    pub fn collide_with_enemies(&mut self, enemies: &Vec<Enemy>)
        ensures
            *final(self) == player_after_enemies(*old(self), enemies@),
    {
        if first_touching_enemy(enemies, self.position, PLAYER_SIZE, PLAYER_SIZE).is_some() {
            self.alive = false;
        }
    }
}

} // verus!
