//! Which picture of the player a frame shows.

use vstd::prelude::*;
use crate::entities::{Facing, Player};
use crate::input::KeySet;

verus! {

/// The pictures of the player.
#[derive(Clone, Copy, Debug, PartialEq, Eq, Structural)]
pub enum PlayerSprite {
    WalkingRight,
    WalkingLeft,
    WalkingUp,
    WalkingDown,
    IdleRight,
    IdleLeft,
    IdleUp,
    IdleDown,
}

/// The picture for a player that last walked in `prev_facing` while `held`
/// are down. A held direction key shows the player walking that way; the
/// first held key counts, in the order right, left, up, down. With none
/// held the player stands, looking where it last walked. A player that has
/// never walked is shown walking down.
pub open spec fn sprite_shown(held: KeySet, prev_facing: Facing) -> PlayerSprite {
    if held.right {
        PlayerSprite::WalkingRight
    } else if held.left {
        PlayerSprite::WalkingLeft
    } else if held.up {
        PlayerSprite::WalkingUp
    } else if held.down {
        PlayerSprite::WalkingDown
    } else {
        match prev_facing {
            Facing::Right => PlayerSprite::IdleRight,
            Facing::Left => PlayerSprite::IdleLeft,
            Facing::Up => PlayerSprite::IdleUp,
            Facing::Down => PlayerSprite::IdleDown,
            Facing::Idle => PlayerSprite::WalkingDown,
        }
    }
}

impl Player {
    /// The picture to draw this player with while `held` are down.
    pub fn sprite(&self, held: KeySet) -> (sprite: PlayerSprite)
        ensures
            sprite == sprite_shown(held, self.prev_facing),
    {
        if held.right {
            PlayerSprite::WalkingRight
        } else if held.left {
            PlayerSprite::WalkingLeft
        } else if held.up {
            PlayerSprite::WalkingUp
        } else if held.down {
            PlayerSprite::WalkingDown
        } else {
            match self.prev_facing {
                Facing::Right => PlayerSprite::IdleRight,
                Facing::Left => PlayerSprite::IdleLeft,
                Facing::Up => PlayerSprite::IdleUp,
                Facing::Down => PlayerSprite::IdleDown,
                Facing::Idle => PlayerSprite::WalkingDown,
            }
        }
    }
}

} // verus!
