//! Finding the first entity of a list that a test accepts.
//!
//! Every lookup in this crate is by index and has an explicit outcome for
//! "no such entity": the caller skips its response then.

use vstd::prelude::*;
use crate::geometry::{Position, overlaps, boxes_overlap};
use crate::entities::{Tile, Enemy, PlayerAttackSphere, TILE_SIZE, ENEMY_SIZE};

verus! {

/// `i` is the index of the first element of `s` that `pred` accepts.
pub open spec fn is_first_match<A>(s: Seq<A>, pred: spec_fn(A) -> bool, i: int) -> bool {
    &&& 0 <= i < s.len()
    &&& pred(s[i])
    &&& forall|j: int| 0 <= j < i ==> !#[trigger] pred(s[j])
}

/// The index of the first element of `s` that `pred` accepts, if there is one.
pub open spec fn first_match<A>(s: Seq<A>, pred: spec_fn(A) -> bool) -> Option<int> {
    if exists|i: int| is_first_match(s, pred, i) {
        Some(choose|i: int| is_first_match(s, pred, i))
    } else {
        None
    }
}

/// A first match is the only one, so finding it settles `first_match`.
pub proof fn lemma_first_match_found<A>(s: Seq<A>, pred: spec_fn(A) -> bool, i: int)
    requires
        is_first_match(s, pred, i),
    ensures
        first_match(s, pred) == Some(i),
{
}

/// Where `pred` accepts no element there is no first match.
pub proof fn lemma_first_match_absent<A>(s: Seq<A>, pred: spec_fn(A) -> bool)
    requires
        forall|j: int| 0 <= j < s.len() ==> !#[trigger] pred(s[j]),
    ensures
        first_match(s, pred) is None,
{
}

/// What `first_match` returns, spelled out: the index it gives is in range,
/// accepted, and preceded by rejected elements only; it gives none exactly
/// when every element is rejected.
pub proof fn lemma_first_match_is_first<A>(s: Seq<A>, pred: spec_fn(A) -> bool)
    ensures
        first_match(s, pred) matches Some(i) ==> is_first_match(s, pred, i),
        first_match(s, pred) is None ==> forall|j: int| 0 <= j < s.len() ==> !#[trigger] pred(s[j]),
{
    if first_match(s, pred) is None {
        assert forall|j: int| 0 <= j < s.len() implies !#[trigger] pred(s[j]) by {
            if pred(s[j]) {
                lemma_some_match_has_first(s, pred, j);
            }
        }
    }
}

/// An accepted element at `j` means that a first match exists at or before `j`.
proof fn lemma_some_match_has_first<A>(s: Seq<A>, pred: spec_fn(A) -> bool, j: int)
    requires
        0 <= j < s.len(),
        pred(s[j]),
    ensures
        exists|i: int| is_first_match(s, pred, i),
    decreases j,
{
    if exists|k: int| 0 <= k < j && pred(s[k]) {
        let k = choose|k: int| 0 <= k < j && pred(s[k]);
        lemma_some_match_has_first(s, pred, k);
    } else {
        assert(is_first_match(s, pred, j));
    }
}

/// An index found by a search, as a mathematical integer.
pub open spec fn as_index(found: Option<usize>) -> Option<int> {
    match found {
        Some(i) => Some(i as int),
        None => None,
    }
}

/// The test "is a collidable tile whose box overlaps the box at `position`".
pub open spec fn blocks(position: Position, width: i32, height: i32) -> spec_fn(Tile) -> bool {
    |tile: Tile|
        tile.collidable && boxes_overlap(
            position,
            tile.position,
            width,
            height,
            TILE_SIZE,
            TILE_SIZE,
        )
}

/// The test "is an enemy whose box overlaps the box at `position`".
pub open spec fn touches(position: Position, width: i32, height: i32) -> spec_fn(Enemy) -> bool {
    |enemy: Enemy| boxes_overlap(position, enemy.position, width, height, ENEMY_SIZE, ENEMY_SIZE)
}

/// The test "is a projectile whose `visible` flag is cleared".
pub open spec fn is_hidden() -> spec_fn(PlayerAttackSphere) -> bool {
    |attack: PlayerAttackSphere| !attack.visible
}

/// The first collidable tile, in list order, that the given box overlaps.
pub fn first_blocking_tile(
    tiles: &Vec<Tile>,
    position: Position,
    width: i32,
    height: i32,
) -> (found: Option<usize>)
    ensures
        as_index(found) == first_match(tiles@, blocks(position, width, height)),
{
    let mut i: usize = 0;
    while i < tiles.len()
        invariant
            i <= tiles.len(),
            forall|j: int| 0 <= j < i ==> !#[trigger] blocks(position, width, height)(tiles@[j]),
        decreases tiles.len() - i,
    {
        let tile = tiles[i];
        if tile.collidable && overlaps(
            position,
            tile.position,
            width,
            height,
            TILE_SIZE,
            TILE_SIZE,
        ) {
            proof {
                lemma_first_match_found(tiles@, blocks(position, width, height), i as int);
            }
            return Some(i);
        }
        i += 1;
    }
    proof {
        lemma_first_match_absent(tiles@, blocks(position, width, height));
    }
    None
}

/// The first enemy, in list order, whose box the given box overlaps.
pub fn first_touching_enemy(
    enemies: &Vec<Enemy>,
    position: Position,
    width: i32,
    height: i32,
) -> (found: Option<usize>)
    ensures
        as_index(found) == first_match(enemies@, touches(position, width, height)),
{
    let mut i: usize = 0;
    while i < enemies.len()
        invariant
            i <= enemies.len(),
            forall|j: int| 0 <= j < i ==> !#[trigger] touches(position, width, height)(enemies@[j]),
        decreases enemies.len() - i,
    {
        if overlaps(position, enemies[i].position, width, height, ENEMY_SIZE, ENEMY_SIZE) {
            proof {
                lemma_first_match_found(enemies@, touches(position, width, height), i as int);
            }
            return Some(i);
        }
        i += 1;
    }
    proof {
        lemma_first_match_absent(enemies@, touches(position, width, height));
    }
    None
}

/// The first projectile, in list order, whose `visible` flag is cleared.
pub fn first_hidden_attack(attacks: &Vec<PlayerAttackSphere>) -> (found: Option<usize>)
    ensures
        as_index(found) == first_match(attacks@, is_hidden()),
{
    let mut i: usize = 0;
    while i < attacks.len()
        invariant
            i <= attacks.len(),
            forall|j: int| 0 <= j < i ==> !#[trigger] is_hidden()(attacks@[j]),
        decreases attacks.len() - i,
    {
        if !attacks[i].visible {
            proof {
                lemma_first_match_found(attacks@, is_hidden(), i as int);
            }
            return Some(i);
        }
        i += 1;
    }
    proof {
        lemma_first_match_absent(attacks@, is_hidden());
    }
    None
}

} // verus!
