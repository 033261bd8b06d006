//! The life of attack projectiles: firing, hitting enemies, expiring.
//!
//! A projectile that hits an enemy is only flagged in that pass; a later
//! pass takes flagged projectiles out of the list. So no pass changes a list
//! of which it is deciding an entry.

use vstd::prelude::*;
use crate::geometry::{Position, Camera, clamp_i32, shift, in_viewport, box_in_viewport};
use crate::entities::{Facing, Player, Tile, Enemy, PlayerAttackSphere, ATTACK_SIZE};
use crate::search::{
    first_match,
    blocks,
    touches,
    is_hidden,
    first_blocking_tile,
    first_touching_enemy,
    first_hidden_attack,
    lemma_first_match_is_first,
};

verus! {

/// The largest number of projectiles that firing leaves in the list.
pub const MAX_ATTACKS: usize = 6;

/// The speed a projectile is fired with.
pub const ATTACK_SPEED: i32 = 10;

/// A projectile starts this far right of and below the player's corner: a
/// quarter of the player's box.
pub const ATTACK_OFFSET: i32 = 12;

/// The direction an attack of this player goes in: where the player faces,
/// or, while it is idle, where it last walked.
pub open spec fn attack_heading(player: Player) -> Facing {
    if player.facing != Facing::Idle {
        player.facing
    } else {
        player.prev_facing
    }
}

/// The signed velocity of a projectile fired in `heading`. "Up" is towards
/// smaller y. Without a heading the projectile gets no velocity.
pub open spec fn attack_velocity(heading: Facing) -> int {
    match heading {
        Facing::Right => ATTACK_SPEED as int,
        Facing::Left => -ATTACK_SPEED,
        Facing::Up => -ATTACK_SPEED,
        Facing::Down => ATTACK_SPEED as int,
        Facing::Idle => 0,
    }
}

/// The projectile that `player` fires. A player that faces nowhere and has
/// never walked fires a projectile that faces right and does not move.
pub open spec fn attack_fired_by(player: Player) -> PlayerAttackSphere {
    let heading = attack_heading(player);
    PlayerAttackSphere {
        position: Position {
            x: clamp_i32(player.position.x + ATTACK_OFFSET) as i32,
            y: clamp_i32(player.position.y + ATTACK_OFFSET) as i32,
        },
        velocity: attack_velocity(heading) as i32,
        facing: if heading == Facing::Idle {
            Facing::Right
        } else {
            heading
        },
        visible: true,
    }
}

/// Whether an attack is fired: the key was pressed in this tick, the player
/// is alive, and fewer than `MAX_ATTACKS` projectiles are live.
pub open spec fn fires(player: Player, live: nat, pressed: bool) -> bool {
    pressed && player.alive && live < MAX_ATTACKS
}

/// The projectiles after the firing step.
pub open spec fn attacks_after_fire(
    attacks: Seq<PlayerAttackSphere>,
    player: Player,
    pressed: bool,
) -> Seq<PlayerAttackSphere> {
    if fires(player, attacks.len(), pressed) {
        attacks.push(attack_fired_by(player))
    } else {
        attacks
    }
}

/// `attack` with its `visible` flag cleared.
pub open spec fn hidden(attack: PlayerAttackSphere) -> PlayerAttackSphere {
    PlayerAttackSphere { visible: false, ..attack }
}

/// The projectiles and the enemies after the projectiles from index `from`
/// on were held against the enemies.
///
/// The projectiles take their turn in list order. Each one defeats the first
/// enemy, in the order the list has by then, whose box it overlaps: that
/// enemy leaves the list and the projectile is flagged. A projectile that
/// overlaps no enemy changes nothing.
pub open spec fn after_hits(
    attacks: Seq<PlayerAttackSphere>,
    enemies: Seq<Enemy>,
    from: int,
) -> (Seq<PlayerAttackSphere>, Seq<Enemy>)
    decreases attacks.len() - from,
{
    if from < 0 || from >= attacks.len() {
        (attacks, enemies)
    } else {
        match first_match(enemies, touches(attacks[from].position, ATTACK_SIZE, ATTACK_SIZE)) {
            Some(j) => after_hits(
                attacks.update(from, hidden(attacks[from])),
                enemies.remove(j),
                from + 1,
            ),
            None => after_hits(attacks, enemies, from + 1),
        }
    }
}

/// The test "stays live": the projectile's box is at least partly inside the
/// camera's visible rectangle and overlaps no collidable tile.
pub open spec fn stays_live(camera: Camera, tiles: Seq<Tile>) -> spec_fn(PlayerAttackSphere) -> bool {
    |attack: PlayerAttackSphere|
        box_in_viewport(camera, attack.position, ATTACK_SIZE, ATTACK_SIZE) && first_match(
            tiles,
            blocks(attack.position, ATTACK_SIZE, ATTACK_SIZE),
        ) is None
}

/// The projectiles without the first one whose `visible` flag is cleared.
pub open spec fn attacks_after_sweep(attacks: Seq<PlayerAttackSphere>) -> Seq<PlayerAttackSphere> {
    match first_match(attacks, is_hidden()) {
        Some(i) => attacks.remove(i),
        None => attacks,
    }
}

/// `after` is `before`, or `before` flagged.
pub open spec fn same_or_flagged(after: PlayerAttackSphere, before: PlayerAttackSphere) -> bool {
    after == before || after == hidden(before)
}

/// The hit pass takes no projectile out and moves none: each one is as it
/// was, or flagged. It adds no enemy, and defeats one enemy for each
/// projectile that takes its turn at most.
pub proof fn lemma_hits_keep_attacks(attacks: Seq<PlayerAttackSphere>, enemies: Seq<Enemy>, from: int)
    requires
        0 <= from <= attacks.len(),
    ensures
        after_hits(attacks, enemies, from).0.len() == attacks.len(),
        after_hits(attacks, enemies, from).1.len() <= enemies.len(),
        enemies.len() - after_hits(attacks, enemies, from).1.len() <= attacks.len() - from,
        forall|i: int|
            0 <= i < attacks.len() ==> same_or_flagged(
                #[trigger] after_hits(attacks, enemies, from).0[i],
                attacks[i],
            ),
    decreases attacks.len() - from,
{
    if from < attacks.len() {
        let test = touches(attacks[from].position, ATTACK_SIZE, ATTACK_SIZE);
        match first_match(enemies, test) {
            Some(j) => {
                lemma_first_match_is_first(enemies, test);
                let flagged = attacks.update(from, hidden(attacks[from]));
                lemma_hits_keep_attacks(flagged, enemies.remove(j), from + 1);
                assert forall|i: int| 0 <= i < attacks.len() implies same_or_flagged(
                    #[trigger] after_hits(attacks, enemies, from).0[i],
                    attacks[i],
                ) by {
                    assert(same_or_flagged(
                        after_hits(flagged, enemies.remove(j), from + 1).0[i],
                        flagged[i],
                    ));
                }
            },
            None => {
                lemma_hits_keep_attacks(attacks, enemies, from + 1);
            },
        }
    }
}

/// Every enemy that the hit pass leaves was in the list before, unchanged.
pub proof fn lemma_hits_keep_enemies(
    attacks: Seq<PlayerAttackSphere>,
    enemies: Seq<Enemy>,
    from: int,
    k: int,
)
    requires
        0 <= from,
        0 <= k < after_hits(attacks, enemies, from).1.len(),
    ensures
        enemies.contains(after_hits(attacks, enemies, from).1[k]),
    decreases attacks.len() - from,
{
    if from < attacks.len() {
        let test = touches(attacks[from].position, ATTACK_SIZE, ATTACK_SIZE);
        match first_match(enemies, test) {
            Some(j) => {
                lemma_first_match_is_first(enemies, test);
                let flagged = attacks.update(from, hidden(attacks[from]));
                let rest = enemies.remove(j);
                lemma_hits_keep_enemies(flagged, rest, from + 1, k);
            },
            None => {
                lemma_hits_keep_enemies(attacks, enemies, from + 1, k);
            },
        }
    }
}

/// No projectile passes through an enemy unnoticed: after the hit pass,
/// every projectile that took its turn and overlaps an enemy that is left is
/// flagged.
pub proof fn lemma_hits_flag_what_overlaps(
    attacks: Seq<PlayerAttackSphere>,
    enemies: Seq<Enemy>,
    from: int,
    i: int,
    k: int,
)
    requires
        0 <= from <= i < attacks.len(),
        0 <= k < after_hits(attacks, enemies, from).1.len(),
        touches(after_hits(attacks, enemies, from).0[i].position, ATTACK_SIZE, ATTACK_SIZE)(
            after_hits(attacks, enemies, from).1[k],
        ),
    ensures
        !after_hits(attacks, enemies, from).0[i].visible,
    decreases attacks.len() - from,
{
    let test = touches(attacks[from].position, ATTACK_SIZE, ATTACK_SIZE);
    lemma_first_match_is_first(enemies, test);
    match first_match(enemies, test) {
        Some(j) => {
            let flagged = attacks.update(from, hidden(attacks[from]));
            if i == from {
                lemma_hits_keep_attacks(flagged, enemies.remove(j), from + 1);
            } else {
                lemma_hits_flag_what_overlaps(flagged, enemies.remove(j), from + 1, i, k);
            }
        },
        None => {
            if i == from {
                lemma_hits_keep_attacks(attacks, enemies, from + 1);
                lemma_hits_keep_enemies(attacks, enemies, from + 1, k);
            } else {
                lemma_hits_flag_what_overlaps(attacks, enemies, from + 1, i, k);
            }
        },
    }
}

/// A projectile whose box has left the camera's visible rectangle is not
/// among those that the expiry pass keeps.
pub proof fn lemma_attack_out_of_view_expires(
    attacks: Seq<PlayerAttackSphere>,
    camera: Camera,
    tiles: Seq<Tile>,
    i: int,
)
    requires
        0 <= i < attacks.len(),
        !box_in_viewport(camera, attacks[i].position, ATTACK_SIZE, ATTACK_SIZE),
    ensures
        !attacks.filter(stays_live(camera, tiles)).contains(attacks[i]),
{
    let keep = stays_live(camera, tiles);
    let kept = attacks.filter(keep);
    if kept.contains(attacks[i]) {
        let j = choose|j: int| 0 <= j < kept.len() && kept[j] == attacks[i];
        attacks.lemma_filter_pred(keep, j);
    }
}

/// Every projectile that the expiry pass keeps was in the list before, is
/// inside the camera's visible rectangle and overlaps no collidable tile.
pub proof fn lemma_live_attacks_are_in_view(
    attacks: Seq<PlayerAttackSphere>,
    camera: Camera,
    tiles: Seq<Tile>,
    j: int,
)
    requires
        0 <= j < attacks.filter(stays_live(camera, tiles)).len(),
    ensures
        attacks.contains(attacks.filter(stays_live(camera, tiles))[j]),
        stays_live(camera, tiles)(attacks.filter(stays_live(camera, tiles))[j]),
{
    let keep = stays_live(camera, tiles);
    let kept = attacks.filter(keep);
    attacks.lemma_filter_pred(keep, j);
    attacks.lemma_filter_contains_rev(keep, kept[j]);
}

/// The sweep takes at most one projectile out and changes none.
pub proof fn lemma_sweep_keeps_others(attacks: Seq<PlayerAttackSphere>, j: int)
    requires
        0 <= j < attacks_after_sweep(attacks).len(),
    ensures
        attacks_after_sweep(attacks).len() <= attacks.len(),
        attacks.contains(attacks_after_sweep(attacks)[j]),
{
    lemma_first_match_is_first(attacks, is_hidden());
}

impl Player {
    /// The projectile that this player fires now.
    pub fn attack(&self) -> (fired: PlayerAttackSphere)
        ensures
            fired == attack_fired_by(*self),
    {
        let heading = match self.facing {
            Facing::Idle => self.prev_facing,
            _ => self.facing,
        };
        let velocity: i32 = match heading {
            Facing::Right => ATTACK_SPEED,
            Facing::Left => -ATTACK_SPEED,
            Facing::Up => -ATTACK_SPEED,
            Facing::Down => ATTACK_SPEED,
            Facing::Idle => 0,
        };
        let facing = match heading {
            Facing::Idle => Facing::Right,
            _ => heading,
        };
        PlayerAttackSphere {
            position: Position {
                x: shift(self.position.x, ATTACK_OFFSET),
                y: shift(self.position.y, ATTACK_OFFSET),
            },
            velocity,
            facing,
            visible: true,
        }
    }
}

/// The firing step: appends the player's projectile if one is fired, and
/// says whether it did.
pub fn fire(attacks: &mut Vec<PlayerAttackSphere>, player: &Player, pressed: bool) -> (fired: bool)
    ensures
        fired == fires(*player, old(attacks)@.len(), pressed),
        final(attacks)@ == attacks_after_fire(old(attacks)@, *player, pressed),
        old(attacks)@.len() <= MAX_ATTACKS ==> final(attacks)@.len() <= MAX_ATTACKS,
{
    if pressed && player.alive && attacks.len() < MAX_ATTACKS {
        attacks.push(player.attack());
        true
    } else {
        false
    }
}

/// The hit pass: each projectile, in turn, defeats the first enemy it
/// overlaps and is flagged for it. Returns the number of enemies defeated.
pub fn resolve_hits(
    attacks: &mut Vec<PlayerAttackSphere>,
    enemies: &mut Vec<Enemy>,
) -> (defeated: usize)
    ensures
        (final(attacks)@, final(enemies)@) == after_hits(old(attacks)@, old(enemies)@, 0),
        final(attacks)@.len() == old(attacks)@.len(),
        defeated == old(enemies)@.len() - final(enemies)@.len(),
{
    let ghost attacks_before = attacks@;
    let ghost enemies_before = enemies@;
    let mut defeated: usize = 0;
    let mut i: usize = 0;
    assert(enemies_before.len() == enemies.len());
    while i < attacks.len()
        invariant
            i <= attacks.len(),
            attacks@.len() == attacks_before.len(),
            enemies_before.len() <= usize::MAX,
            defeated + enemies@.len() == enemies_before.len(),
            after_hits(attacks@, enemies@, i as int) == after_hits(
                attacks_before,
                enemies_before,
                0,
            ),
        decreases attacks.len() - i,
    {
        let attack = attacks[i];
        match first_touching_enemy(enemies, attack.position, ATTACK_SIZE, ATTACK_SIZE) {
            Some(j) => {
                proof {
                    lemma_first_match_is_first(
                        enemies@,
                        touches(attack.position, ATTACK_SIZE, ATTACK_SIZE),
                    );
                }
                enemies.remove(j);
                attacks.set(
                    i,
                    PlayerAttackSphere {
                        position: attack.position,
                        velocity: attack.velocity,
                        facing: attack.facing,
                        visible: false,
                    },
                );
                defeated += 1;
            },
            None => {},
        }
        i += 1;
    }
    defeated
}

/// The expiry pass: keeps, in order, the projectiles that are inside the
/// camera's visible rectangle and overlap no collidable tile.
pub fn expire_attacks(attacks: &mut Vec<PlayerAttackSphere>, tiles: &Vec<Tile>, camera: Camera)
    ensures
        final(attacks)@ == old(attacks)@.filter(stays_live(camera, tiles@)),
{
    let ghost before = attacks@;
    let ghost keep = stays_live(camera, tiles@);
    let mut kept: Vec<PlayerAttackSphere> = Vec::new();
    let mut i: usize = 0;
    while i < attacks.len()
        invariant
            i <= attacks.len(),
            attacks@ == before,
            keep == stays_live(camera, tiles@),
            kept@ == before.take(i as int).filter(keep),
        decreases attacks.len() - i,
    {
        let attack = attacks[i];
        let live = in_viewport(camera, attack.position, ATTACK_SIZE, ATTACK_SIZE)
            && first_blocking_tile(tiles, attack.position, ATTACK_SIZE, ATTACK_SIZE).is_none();
        proof {
            assert(before.take(i + 1) =~= before.take(i as int).push(attack));
            before.take(i as int).lemma_filter_push(attack, keep);
        }
        if live {
            kept.push(attack);
        }
        i += 1;
    }
    proof {
        assert(before.take(i as int) =~= before);
    }
    *attacks = kept;
}

/// The sweep: takes the first flagged projectile out of the list.
pub fn sweep_hidden(attacks: &mut Vec<PlayerAttackSphere>)
    ensures
        final(attacks)@ == attacks_after_sweep(old(attacks)@),
{
    match first_hidden_attack(attacks) {
        Some(i) => {
            proof {
                lemma_first_match_is_first(attacks@, is_hidden());
            }
            attacks.remove(i);
        },
        None => {},
    }
}

} // verus!
