//! The state of a running level and the tick that advances it.
//!
//! A tick runs its passes in a fixed order: the camera follows the player;
//! the tiles are held against the player; the enemies patrol; the
//! projectiles hit enemies, expire, are swept and move; the player walks;
//! an attack is fired; an enemy that touches the player kills it; and the
//! talk with the other character is resolved.

use vstd::prelude::*;
use vstd::string::*;
use crate::geometry::{
    Position,
    Camera,
    clamp_i32,
    shift,
    shift_back,
    overlaps,
    boxes_overlap,
    box_in_viewport,
};
use crate::entities::{
    Facing,
    PatrolFacing,
    CellKind,
    Tile,
    Player,
    PlayerAttackSphere,
    Enemy,
    Npc,
    PLAYER_SIZE,
    NPC_SIZE,
    ATTACK_SIZE,
};
use crate::input::{Input, direction_held, walk_direction};
use crate::movement::{
    player_after_step,
    enemy_after_patrol,
    attack_after_move,
    advance_attacks,
    patrol_enemies,
    near_patrol_range,
    lemma_patrol_step_stays_near,
};
use crate::collision::{player_after_tiles, player_after_enemies};
use crate::search::{is_hidden, lemma_first_match_is_first};
use crate::projectiles::{
    MAX_ATTACKS,
    hidden,
    lemma_hits_keep_attacks,
    lemma_hits_keep_enemies,
    lemma_live_attacks_are_in_view,
    lemma_sweep_keeps_others,
    after_hits,
    stays_live,
    attacks_after_sweep,
    attacks_after_fire,
    fires,
    resolve_hits,
    expire_attacks,
    sweep_hidden,
    fire,
};
use crate::dialogue::{
    Help_Menu,
    DialogueBox,
    HelpMenuModel,
    DialogueModel,
    line_start,
    dialogue_after_reveal,
    help_menu_after_talk,
    dialogue_after_talk,
    help_menu_placed,
    dialogue_placed,
    InteractionState,
    interaction_state,
    next_interaction,
};
use crate::level::{grid_tiles, rows_of, grid_fits, load_tiles};

verus! {

/// Width of the window the game opens, and of the camera's viewport.
pub const WINDOW_WIDTH: i32 = 1280;

/// Height of the window the game opens, and of the camera's viewport.
pub const WINDOW_HEIGHT: i32 = 960;

/// The camera looks at the player's corner moved by this much on both axes:
/// the centre of the player's box.
pub const CAMERA_OFFSET: i32 = 24;

/// The speed of an enemy's patrol.
pub const ENEMY_SPEED: i32 = 3;

/// An enemy's patrol range reaches this far below the x it starts at.
pub const PATROL_BELOW: i32 = 200;

/// An enemy's patrol range reaches this far above the x it starts at.
pub const PATROL_ABOVE: i32 = 5;

/// Everything that a tick reads and changes.
#[derive(Clone, Debug, PartialEq, Eq)]
pub struct GameState {
    pub player: Player,
    pub npc: Npc,
    pub tiles: Vec<Tile>,
    pub player_attack_instances: Vec<PlayerAttackSphere>,
    pub enemy_instances: Vec<Enemy>,
    pub camera: Camera,
    pub help_menu: Help_Menu,
    pub dialogue_box: DialogueBox,
}

/// A `GameState` as a mathematical value.
pub struct GameModel {
    pub player: Player,
    pub npc: Npc,
    pub tiles: Seq<Tile>,
    pub player_attack_instances: Seq<PlayerAttackSphere>,
    pub enemy_instances: Seq<Enemy>,
    pub camera: Camera,
    pub help_menu: HelpMenuModel,
    pub dialogue_box: DialogueModel,
}

impl View for GameState {
    type V = GameModel;

    open spec fn view(&self) -> GameModel {
        GameModel {
            player: self.player,
            npc: self.npc,
            tiles: self.tiles@,
            player_attack_instances: self.player_attack_instances@,
            enemy_instances: self.enemy_instances@,
            camera: self.camera,
            help_menu: self.help_menu@,
            dialogue_box: self.dialogue_box@,
        }
    }
}

/// Something that happened in a tick and that the outside may want to show
/// or sound. The state after the tick already holds its consequences.
#[derive(Clone, Copy, Debug, PartialEq, Eq, Structural)]
pub enum Cue {
    /// Projectiles defeated this many enemies.
    EnemiesDefeated(usize),
    /// The player fired a projectile; it is the last one of the list.
    AttackFired,
    /// An enemy touched the player, who was alive until then.
    PlayerDied,
    /// The dialogue opened.
    DialogueOpened,
}

/// The enemy that a level places at `position`: it starts on the retreating
/// leg of a patrol that reaches `PATROL_BELOW` below and `PATROL_ABOVE`
/// above its x.
pub open spec fn enemy_placed_at(position: Position) -> Enemy {
    Enemy {
        position,
        velocity: ENEMY_SPEED,
        range_end: clamp_i32(position.x - PATROL_BELOW) as i32,
        range_start: clamp_i32(position.x + PATROL_ABOVE) as i32,
        facing: PatrolFacing::Retreating,
    }
}

/// The state a level starts in, on the given tiles: the player stands in
/// the middle of the window and has last looked down; two enemies and the
/// character to talk to stand at their fixed places; no projectile is live;
/// the prompt and the dialogue are hidden.
pub open spec fn initial_game(tiles: Seq<Tile>) -> GameModel {
    GameModel {
        player: Player {
            position: Position {
                x: (WINDOW_WIDTH / 2 - PLAYER_SIZE / 2) as i32,
                y: (WINDOW_HEIGHT / 2 - PLAYER_SIZE / 2) as i32,
            },
            velocity_x: 0,
            colliding: false,
            facing: Facing::Idle,
            prev_facing: Facing::Down,
            alive: true,
        },
        npc: Npc { position: Position { x: 650, y: 200 } },
        tiles,
        player_attack_instances: Seq::empty(),
        enemy_instances: seq![
            enemy_placed_at(Position { x: 960, y: 320 }),
            enemy_placed_at(Position { x: 896, y: 512 }),
        ],
        camera: Camera {
            position: Position { x: 0, y: 0 },
            viewport_width: WINDOW_WIDTH,
            viewport_height: WINDOW_HEIGHT,
        },
        help_menu: HelpMenuModel {
            position: Position { x: 0, y: 0 },
            visible: false,
            text: Seq::empty(),
        },
        dialogue_box: DialogueModel {
            position: Position { x: 0, y: 0 },
            visible: false,
            text: Seq::empty(),
            output_text: line_start(),
            text_wrap_finished: false,
            current_line: line_start(),
            revealed: 0,
        },
    }
}

/// First pass: while the player is alive the camera looks at the centre of
/// its box. The camera of a dead player stays where it was.
pub open spec fn camera_tracked(game: GameModel) -> GameModel {
    if game.player.alive {
        GameModel {
            camera: Camera {
                position: Position {
                    x: clamp_i32(game.player.position.x + CAMERA_OFFSET) as i32,
                    y: clamp_i32(game.player.position.y + CAMERA_OFFSET) as i32,
                },
                ..game.camera
            },
            ..game
        }
    } else {
        game
    }
}

/// Second pass: the tiles are held against the player.
pub open spec fn tiles_resolved(game: GameModel) -> GameModel {
    GameModel { player: player_after_tiles(game.player, game.tiles), ..game }
}

/// Third pass: every enemy patrols.
pub open spec fn enemies_patrolled(game: GameModel) -> GameModel {
    GameModel {
        enemy_instances: game.enemy_instances.map_values(|enemy: Enemy| enemy_after_patrol(enemy)),
        ..game
    }
}

/// Fourth pass, first half: the projectiles are held against the enemies.
pub open spec fn hits_resolved(game: GameModel) -> GameModel {
    let (attacks, enemies) = after_hits(game.player_attack_instances, game.enemy_instances, 0);
    GameModel { player_attack_instances: attacks, enemy_instances: enemies, ..game }
}

/// Fourth pass, second half: the projectiles that left the camera's visible
/// rectangle or overlap a collidable tile are taken out; then the first
/// flagged projectile is taken out; then the others move.
pub open spec fn attacks_advanced(game: GameModel) -> GameModel {
    GameModel {
        player_attack_instances: attacks_after_sweep(
            game.player_attack_instances.filter(stays_live(game.camera, game.tiles)),
        ).map_values(|attack: PlayerAttackSphere| attack_after_move(attack)),
        ..game
    }
}

/// Fifth pass: the player walks where the held keys ask.
pub open spec fn player_moved(game: GameModel, input: Input) -> GameModel {
    GameModel { player: player_after_step(game.player, direction_held(input.held)), ..game }
}

/// Sixth pass: an attack is fired if its key was pressed.
pub open spec fn attack_fired(game: GameModel, input: Input) -> GameModel {
    GameModel {
        player_attack_instances: attacks_after_fire(
            game.player_attack_instances,
            game.player,
            input.pressed.attack,
        ),
        ..game
    }
}

/// Whether the player can talk: it is alive and its box overlaps the box of
/// the character to talk to.
pub open spec fn can_talk(game: GameModel) -> bool {
    game.player.alive && boxes_overlap(
        game.player.position,
        game.npc.position,
        PLAYER_SIZE,
        PLAYER_SIZE,
        NPC_SIZE,
        NPC_SIZE,
    )
}

/// Seventh pass, first half: an enemy that touches the player kills it.
pub open spec fn death_resolved(game: GameModel) -> GameModel {
    GameModel { player: player_after_enemies(game.player, game.enemy_instances), ..game }
}

/// Seventh pass, second half: the dialogue reveals a character if one is
/// due; then the prompt shows or hides and the dialogue may open; then the
/// panels that show are moved to their place on the screen.
pub open spec fn talk_resolved(game: GameModel, input: Input) -> GameModel {
    let revealed = dialogue_after_reveal(game.dialogue_box, input.line_width as int);
    let near = can_talk(game);
    GameModel {
        help_menu: help_menu_placed(help_menu_after_talk(game.help_menu, revealed, near), game.camera),
        dialogue_box: dialogue_placed(
            dialogue_after_talk(revealed, near, input.pressed.interact),
            game.camera,
        ),
        ..game
    }
}

/// The state before the player walks in this tick.
pub open spec fn before_walk(game: GameModel) -> GameModel {
    attacks_advanced(hits_resolved(enemies_patrolled(tiles_resolved(camera_tracked(game)))))
}

/// The state before the talk is resolved in this tick.
pub open spec fn before_talk(game: GameModel, input: Input) -> GameModel {
    death_resolved(attack_fired(player_moved(before_walk(game), input), input))
}

/// The state after one tick.
pub open spec fn after_tick(game: GameModel, input: Input) -> GameModel {
    talk_resolved(before_talk(game, input), input)
}

/// The state after one tick for each of `inputs`, in order.
pub open spec fn after_ticks(game: GameModel, inputs: Seq<Input>) -> GameModel
    decreases inputs.len(),
{
    if inputs.len() == 0 {
        game
    } else {
        after_tick(after_ticks(game, inputs.drop_last()), inputs.last())
    }
}

/// The number of enemies that projectiles defeat in this tick.
pub open spec fn enemies_defeated(game: GameModel) -> int {
    game.enemy_instances.len() - before_walk(game).enemy_instances.len()
}

/// Whether the player fires in this tick.
pub open spec fn attack_fires(game: GameModel, input: Input) -> bool {
    let walked = player_moved(before_walk(game), input);
    fires(walked.player, walked.player_attack_instances.len(), input.pressed.attack)
}

/// Whether the player dies in this tick.
pub open spec fn player_dies(game: GameModel, input: Input) -> bool {
    game.player.alive && !after_tick(game, input).player.alive
}

/// Whether the dialogue opens in this tick.
pub open spec fn dialogue_opened(game: GameModel, input: Input) -> bool {
    !game.dialogue_box.visible && after_tick(game, input).dialogue_box.visible
}

/// `cue` alone if `happened`, else nothing.
pub open spec fn cue_if(happened: bool, cue: Cue) -> Seq<Cue> {
    if happened {
        seq![cue]
    } else {
        Seq::empty()
    }
}

/// The cues of one tick, in the order of the passes that raise them.
pub open spec fn tick_cues(game: GameModel, input: Input) -> Seq<Cue> {
    cue_if(enemies_defeated(game) > 0, Cue::EnemiesDefeated(enemies_defeated(game) as usize))
        + cue_if(attack_fires(game, input), Cue::AttackFired) + cue_if(
        player_dies(game, input),
        Cue::PlayerDied,
    ) + cue_if(dialogue_opened(game, input), Cue::DialogueOpened)
}

impl GameModel {
    /// What every state of a running level satisfies: no more than
    /// `MAX_ATTACKS` projectiles are live, and every enemy is well formed.
    pub open spec fn well_formed(self) -> bool {
        &&& self.player_attack_instances.len() <= MAX_ATTACKS
        &&& forall|i: int|
            0 <= i < self.enemy_instances.len() ==> (#[trigger] self.enemy_instances[i]).well_formed()
    }

    /// Every enemy is within one step of its patrol range.
    pub open spec fn patrols_near_ranges(self) -> bool {
        forall|i: int|
            0 <= i < self.enemy_instances.len() ==> near_patrol_range(
                #[trigger] self.enemy_instances[i],
            )
    }

    /// Where the talk with the other character stands.
    pub open spec fn interaction(self) -> InteractionState {
        interaction_state(self.help_menu, self.dialogue_box)
    }
}

/// A tick changes neither the tiles nor the character to talk to nor the
/// size of the camera's viewport. It revives no player and adds no enemy.
pub proof fn lemma_tick_keeps_level(game: GameModel, input: Input)
    ensures
        after_tick(game, input).tiles == game.tiles,
        after_tick(game, input).npc == game.npc,
        after_tick(game, input).camera.viewport_width == game.camera.viewport_width,
        after_tick(game, input).camera.viewport_height == game.camera.viewport_height,
        after_tick(game, input).player.alive ==> game.player.alive,
        after_tick(game, input).enemy_instances.len() <= game.enemy_instances.len(),
{
    let patrolled = enemies_patrolled(tiles_resolved(camera_tracked(game)));
    lemma_hits_keep_attacks(patrolled.player_attack_instances, patrolled.enemy_instances, 0);
}

/// Over a tick the talk moves as its state machine says, on whether the
/// player can talk when the talk is resolved and whether it accepts.
pub proof fn lemma_tick_follows_state_machine(game: GameModel, input: Input)
    ensures
        after_tick(game, input).interaction() == next_interaction(
            game.interaction(),
            can_talk(before_talk(game, input)),
            input.pressed.interact,
        ),
{
}

/// `after` is `before` one tick later: moved, and perhaps flagged for a hit.
pub open spec fn moved_from(after: PlayerAttackSphere, before: PlayerAttackSphere) -> bool {
    after == attack_after_move(before) || after == attack_after_move(hidden(before))
}

/// A tick makes no enemy: every enemy of the new state is an enemy of the
/// old one after one tick of its patrol.
pub proof fn lemma_tick_patrols_enemies(game: GameModel, input: Input, k: int)
    requires
        0 <= k < after_tick(game, input).enemy_instances.len(),
    ensures
        exists|i: int|
            0 <= i < game.enemy_instances.len() && after_tick(game, input).enemy_instances[k]
                == enemy_after_patrol(#[trigger] game.enemy_instances[i]),
{
    let patrolled = enemies_patrolled(tiles_resolved(camera_tracked(game)));
    lemma_hits_keep_enemies(
        patrolled.player_attack_instances,
        patrolled.enemy_instances,
        0,
        k,
    );
}

/// A tick leaves no more than `MAX_ATTACKS` projectiles where it found no
/// more than that.
pub proof fn lemma_tick_keeps_attack_cap(game: GameModel, input: Input)
    requires
        game.player_attack_instances.len() <= MAX_ATTACKS,
    ensures
        after_tick(game, input).player_attack_instances.len() <= MAX_ATTACKS,
{
    let patrolled = enemies_patrolled(tiles_resolved(camera_tracked(game)));
    lemma_hits_keep_attacks(patrolled.player_attack_instances, patrolled.enemy_instances, 0);
    let hit = hits_resolved(patrolled);
    let live = hit.player_attack_instances.filter(stays_live(hit.camera, hit.tiles));
    hit.player_attack_instances.lemma_filter_len(stays_live(hit.camera, hit.tiles));
    lemma_first_match_is_first(live, is_hidden());
}

/// A tick keeps a well-formed state well formed.
pub proof fn lemma_tick_keeps_well_formed(game: GameModel, input: Input)
    requires
        game.well_formed(),
    ensures
        after_tick(game, input).well_formed(),
{
    lemma_tick_keeps_attack_cap(game, input);
    let after = after_tick(game, input);
    assert forall|k: int| 0 <= k < after.enemy_instances.len() implies (#[trigger]
    after.enemy_instances[k]).well_formed() by {
        lemma_tick_patrols_enemies(game, input, k);
    }
}

/// Whatever the inputs of a run of ticks, the number of projectiles never
/// exceeds `MAX_ATTACKS` after a tick if it did not before the run.
pub proof fn lemma_attack_cap_holds(game: GameModel, inputs: Seq<Input>)
    requires
        game.player_attack_instances.len() <= MAX_ATTACKS,
    ensures
        after_ticks(game, inputs).player_attack_instances.len() <= MAX_ATTACKS,
    decreases inputs.len(),
{
    if inputs.len() > 0 {
        lemma_attack_cap_holds(game, inputs.drop_last());
        lemma_tick_keeps_attack_cap(after_ticks(game, inputs.drop_last()), inputs.last());
    }
}

/// Over any run of ticks of a well-formed state, enemies that are within one
/// step of their patrol ranges stay so.
pub proof fn lemma_patrols_stay_near_ranges(game: GameModel, inputs: Seq<Input>)
    requires
        game.well_formed(),
        game.patrols_near_ranges(),
    ensures
        after_ticks(game, inputs).well_formed(),
        after_ticks(game, inputs).patrols_near_ranges(),
    decreases inputs.len(),
{
    if inputs.len() > 0 {
        let before = after_ticks(game, inputs.drop_last());
        lemma_patrols_stay_near_ranges(game, inputs.drop_last());
        lemma_tick_keeps_well_formed(before, inputs.last());
        let after = after_tick(before, inputs.last());
        assert forall|k: int| 0 <= k < after.enemy_instances.len() implies near_patrol_range(
            #[trigger] after.enemy_instances[k],
        ) by {
            lemma_tick_patrols_enemies(before, inputs.last(), k);
            let i = choose|i: int|
                0 <= i < before.enemy_instances.len() && after.enemy_instances[k]
                    == enemy_after_patrol(#[trigger] before.enemy_instances[i]);
            lemma_patrol_step_stays_near(before.enemy_instances[i]);
        }
    }
}

/// A projectile that is outside the camera's visible rectangle when a tick
/// looks at it is gone after that tick: every projectile of the new state is
/// the one fired in this tick, or was inside the rectangle and has moved.
pub proof fn lemma_attacks_out_of_view_expire(game: GameModel, input: Input, j: int)
    requires
        0 <= j < after_tick(game, input).player_attack_instances.len(),
    ensures
        (attack_fires(game, input) && j == after_tick(game, input).player_attack_instances.len() - 1)
            || exists|i: int|
            0 <= i < game.player_attack_instances.len() && box_in_viewport(
                camera_tracked(game).camera,
                (#[trigger] game.player_attack_instances[i]).position,
                ATTACK_SIZE,
                ATTACK_SIZE,
            ) && moved_from(
                after_tick(game, input).player_attack_instances[j],
                game.player_attack_instances[i],
            ),
{
    let before = game.player_attack_instances;
    let patrolled = enemies_patrolled(tiles_resolved(camera_tracked(game)));
    lemma_hits_keep_attacks(before, patrolled.enemy_instances, 0);
    let hit = hits_resolved(patrolled);
    let keep = stays_live(hit.camera, hit.tiles);
    let live = hit.player_attack_instances.filter(keep);
    let swept = attacks_after_sweep(live);
    if j < swept.len() {
        lemma_sweep_keeps_others(live, j);
        let m = choose|m: int| 0 <= m < live.len() && live[m] == swept[j];
        lemma_live_attacks_are_in_view(hit.player_attack_instances, hit.camera, hit.tiles, m);
    }
}

/// Over any run of ticks the dialogue's output only grows at its end, and
/// once the dialogue is finished its output stays as it is.
pub proof fn lemma_reveal_is_monotonic(game: GameModel, inputs: Seq<Input>)
    ensures
        game.dialogue_box.output_text.is_prefix_of(
            after_ticks(game, inputs).dialogue_box.output_text,
        ),
        game.dialogue_box.text_wrap_finished ==> after_ticks(
            game,
            inputs,
        ).dialogue_box.text_wrap_finished,
        game.dialogue_box.text_wrap_finished ==> after_ticks(game, inputs).dialogue_box.output_text
            == game.dialogue_box.output_text,
    decreases inputs.len(),
{
    if inputs.len() > 0 {
        lemma_reveal_is_monotonic(game, inputs.drop_last());
    }
}

impl Enemy {
    /// The enemy that a level places at `position`.
    pub fn placed_at(position: Position) -> (enemy: Enemy)
        ensures
            enemy == enemy_placed_at(position),
            enemy.well_formed(),
            enemy.range_end <= enemy.position.x <= enemy.range_start,
    {
        Enemy {
            position,
            velocity: ENEMY_SPEED,
            range_end: shift_back(position.x, PATROL_BELOW),
            range_start: shift(position.x, PATROL_ABOVE),
            facing: PatrolFacing::Retreating,
        }
    }
}

impl GameState {
    /// The state a level starts in, with the tiles of `grid`.
    pub fn new(grid: &Vec<Vec<CellKind>>) -> (game: GameState)
        requires
            grid_fits(rows_of(grid@)),
        ensures
            game@ == initial_game(grid_tiles(rows_of(grid@))),
            game@.well_formed(),
            game@.patrols_near_ranges(),
    {
        let tiles = load_tiles(grid);
        let mut enemies: Vec<Enemy> = Vec::new();
        enemies.push(Enemy::placed_at(Position { x: 960, y: 320 }));
        enemies.push(Enemy::placed_at(Position { x: 896, y: 512 }));
        proof {
            reveal_strlit(":");
        }
        let output_text = String::from_str(":");
        assert(output_text@ =~= line_start());
        let game = GameState {
            player: Player::new(
                Position {
                    x: WINDOW_WIDTH / 2 - PLAYER_SIZE / 2,
                    y: WINDOW_HEIGHT / 2 - PLAYER_SIZE / 2,
                },
                0,
                false,
                Facing::Idle,
                Facing::Down,
                true,
            ),
            npc: Npc::new(Position { x: 650, y: 200 }),
            tiles,
            player_attack_instances: Vec::new(),
            enemy_instances: enemies,
            camera: Camera {
                position: Position { x: 0, y: 0 },
                viewport_width: WINDOW_WIDTH,
                viewport_height: WINDOW_HEIGHT,
            },
            help_menu: Help_Menu::new(Position { x: 0, y: 0 }, false, String::new()),
            dialogue_box: DialogueBox::new(
                Position { x: 0, y: 0 },
                false,
                String::new(),
                output_text,
                false,
            ),
        };
        assert(game@.enemy_instances =~= initial_game(game@.tiles).enemy_instances);
        game
    }

    /// Advances the state by one tick and returns the tick's cues.
    pub fn update(&mut self, input: &Input) -> (cues: Vec<Cue>)
        ensures
            final(self)@ == after_tick(old(self)@, *input),
            cues@ == tick_cues(old(self)@, *input),
            old(self)@.well_formed() ==> final(self)@.well_formed(),
    {
        let ghost start = self@;
        proof {
            if start.well_formed() {
                lemma_tick_keeps_well_formed(start, *input);
            }
        }
        let mut cues: Vec<Cue> = Vec::new();

        if self.player.alive {
            self.camera.position = Position {
                x: shift(self.player.position.x, CAMERA_OFFSET),
                y: shift(self.player.position.y, CAMERA_OFFSET),
            };
        }
        self.player.collide_with_tiles(&self.tiles);
        patrol_enemies(&mut self.enemy_instances);

        let defeated = resolve_hits(&mut self.player_attack_instances, &mut self.enemy_instances);
        expire_attacks(&mut self.player_attack_instances, &self.tiles, self.camera);
        sweep_hidden(&mut self.player_attack_instances);
        advance_attacks(&mut self.player_attack_instances);
        if defeated > 0 {
            cues.push(Cue::EnemiesDefeated(defeated));
        }

        self.player.step(walk_direction(input.held));
        let fired = fire(&mut self.player_attack_instances, &self.player, input.pressed.attack);
        if fired {
            cues.push(Cue::AttackFired);
        }

        let was_alive = self.player.alive;
        self.player.collide_with_enemies(&self.enemy_instances);
        if was_alive && !self.player.alive {
            cues.push(Cue::PlayerDied);
        }

        self.dialogue_box.reveal_next(input.line_width);
        let near = self.player.alive && overlaps(
            self.player.position,
            self.npc.position,
            PLAYER_SIZE,
            PLAYER_SIZE,
            NPC_SIZE,
            NPC_SIZE,
        );
        self.help_menu.talk(&self.dialogue_box, near);
        let opened = self.dialogue_box.talk(near, input.pressed.interact);
        self.help_menu.place(self.camera);
        self.dialogue_box.place(self.camera);
        if opened {
            cues.push(Cue::DialogueOpened);
        }
        cues
    }
}

} // verus!
