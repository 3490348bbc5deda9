//! The player: what it is made of, the sprite sheets it wears, and its part
//! of the game.

use crate::animate::{
    animate_player_idle, animate_player_jumping, animate_player_walking, AnimationModel,
    PlayerAnimation,
};
use crate::asset_tracker::{lemma_lookup_after_register, AssetKey, AssetReference, AssetTracker};
use crate::collectibles::Potions;
use crate::control::{move_player, KeyboardInput};
use crate::play::Playing;
use crate::shapes::{Collider, Position, Size, Tint, Vector};
use crate::timer::{Timer, TimerMode};
use crate::transform::{
    any_finds_sheet, handle_transform, lemma_transformed_fits, transformed_by_all,
};
use std::collections::VecDeque;
use vstd::prelude::*;

verus! {

/// How fast the player walks and how hard it jumps.
#[derive(Clone, Copy, Debug, PartialEq, Eq, Structural)]
pub struct Player {
    /// Pixels moved per tick for each direction key held.
    pub movement_scalar: i32,
    /// Upward speed given at the top of the jump animation.
    pub jump_strength: i32,
}

/// Signal that the player touched a potion and is to be transformed by it.
#[derive(Clone, Copy, Debug, PartialEq, Eq)]
pub struct TransformPlayer {
    pub catalyst: Potions,
}

/// What the player is doing. One state holds at a time, and it selects the
/// animation that runs.
#[derive(Debug, Clone, Copy, PartialEq, Eq, Hash, Structural)]
pub enum PlayerState {
    Idle,
    Walking,
    Jumping,
    JumpingInAir,
}

impl Default for PlayerState {
    fn default() -> (state: PlayerState)
        ensures
            state == PlayerState::Idle,
    {
        PlayerState::Idle
    }
}

/// The sprite sheets the player can wear.
#[derive(Debug, Clone, Copy, PartialEq, Eq, Structural)]
pub enum PlayerSprite {
    LittleGary,
    NormalGary,
}

impl AssetKey for PlayerSprite {
    fn same_key(&self, other: &PlayerSprite) -> (same: bool) {
        *self == *other
    }
}

/// How a sprite sheet is cut into frames: a grid of tiles, row by row.
#[derive(Clone, Copy, Debug, PartialEq, Eq, Structural)]
pub struct SheetGrid {
    pub tile: Size,
    pub columns: usize,
    pub rows: usize,
}

/// The file that holds each sprite sheet.
pub open spec fn sheet_image(sprite: PlayerSprite) -> Seq<char> {
    match sprite {
        PlayerSprite::NormalGary => "gary_normal_spritesheet.png"@,
        PlayerSprite::LittleGary => "gary_little_spritesheet.png"@,
    }
}

/// The grid of each sprite sheet: four columns and three rows, of tiles a
/// third as large for the little sheet as for the normal one.
pub open spec fn sheet_grid(sprite: PlayerSprite) -> SheetGrid {
    match sprite {
        PlayerSprite::NormalGary => SheetGrid {
            tile: Size { width: 27, height: 45 },
            columns: 4,
            rows: 3,
        },
        PlayerSprite::LittleGary => SheetGrid {
            tile: Size { width: 9, height: 15 },
            columns: 4,
            rows: 3,
        },
    }
}

impl PlayerSprite {
    /// Path of the sheet among the assets.
    pub fn image_path(self) -> (path: &'static str)
        ensures
            path@ == sheet_image(self),
    {
        match self {
            PlayerSprite::NormalGary => "gary_normal_spritesheet.png",
            PlayerSprite::LittleGary => "gary_little_spritesheet.png",
        }
    }

    /// How the sheet is cut into frames.
    pub fn grid(self) -> (grid: SheetGrid)
        ensures
            grid == sheet_grid(self),
    {
        match self {
            PlayerSprite::NormalGary => SheetGrid {
                tile: Size { width: 27, height: 45 },
                columns: 4,
                rows: 3,
            },
            PlayerSprite::LittleGary => SheetGrid {
                tile: Size { width: 9, height: 15 },
                columns: 4,
                rows: 3,
            },
        }
    }
}

/// Registers the two sprite sheets, once they are being loaded: the normal
/// one, then the little one, behind what the registry holds. A sprite that
/// had a sheet keeps it.
pub fn load_sheets<H>(
    tracker: &mut AssetTracker<PlayerSprite, H>,
    normal_gary: H,
    little_gary: H,
)
    ensures
        final(tracker).assets@ == old(tracker).assets@.push(
            AssetReference { asset: PlayerSprite::NormalGary, handle: normal_gary },
        ).push(AssetReference { asset: PlayerSprite::LittleGary, handle: little_gary }),
        forall|sprite: PlayerSprite| #[trigger]
            final(tracker).lookup(sprite) == match old(tracker).lookup(sprite) {
                Some(handle) => Some(handle),
                None => Some(
                    match sprite {
                        PlayerSprite::NormalGary => normal_gary,
                        PlayerSprite::LittleGary => little_gary,
                    },
                ),
            },
{
    let ghost t0 = *tracker;
    tracker.register(PlayerSprite::NormalGary, normal_gary);
    let ghost t1 = *tracker;
    tracker.register(PlayerSprite::LittleGary, little_gary);
    proof {
        assert forall|sprite: PlayerSprite| #[trigger]
            tracker.lookup(sprite) == match t0.lookup(sprite) {
                Some(handle) => Some(handle),
                None => Some(
                    match sprite {
                        PlayerSprite::NormalGary => normal_gary,
                        PlayerSprite::LittleGary => little_gary,
                    },
                ),
            } by {
            lemma_lookup_after_register(t0, t1, PlayerSprite::NormalGary, normal_gary, sprite);
            lemma_lookup_after_register(
                t1,
                *tracker,
                PlayerSprite::LittleGary,
                little_gary,
                sprite,
            );
        }
    }
}

/// The player's sprite: a frame of a sheet, drawn at a size, tinted, and
/// mirrored when the player faces left.
#[derive(Debug, PartialEq, Eq)]
pub struct SheetSprite<H> {
    pub index: usize,
    pub flip_x: bool,
    pub custom_size: Size,
    pub color: Tint,
    pub sheet: H,
}

/// Everything the player entity carries.
#[derive(Debug)]
pub struct PlayerBundle<H> {
    /// Where the player enters the level. From then on the physics engine
    /// moves it.
    pub start: Position,
    pub sprite: SheetSprite<H>,
    pub collider: Collider,
    pub gravity_scale: u32,
    pub player: Player,
    pub animation: PlayerAnimation,
}

/// A `PlayerBundle` as a mathematical value.
pub struct PlayerModel<H> {
    pub start: Position,
    pub sprite: SheetSprite<H>,
    pub collider: Collider,
    pub gravity_scale: u32,
    pub player: Player,
    pub animation: AnimationModel,
}

impl<H> View for PlayerBundle<H> {
    type V = PlayerModel<H>;

    open spec fn view(&self) -> PlayerModel<H> {
        PlayerModel {
            start: self.start,
            sprite: self.sprite,
            collider: self.collider,
            gravity_scale: self.gravity_scale,
            player: self.player,
            animation: self.animation@,
        }
    }
}

/// The player as it enters the level, wearing `sheet`: at the origin, full
/// size, untinted, facing right, on the first idle frame, with the blinks of
/// 4000 ms and 800 ms ahead of it.
pub open spec fn fresh_player<H>(sheet: H) -> PlayerModel<H> {
    PlayerModel {
        start: Position { x: 0, y: 0 },
        sprite: SheetSprite {
            index: 8,
            flip_x: false,
            custom_size: Size { width: 54, height: 90 },
            color: Tint::White,
            sheet,
        },
        collider: Collider::Cuboid { width: 30, height: 90 },
        gravity_scale: 8,
        player: Player { movement_scalar: 1, jump_strength: 400 },
        animation: AnimationModel {
            idle_range: (8, 9),
            walk_range: (0, 3),
            jump_range: (4, 7),
            timer: Timer { duration_ms: 200, elapsed_ns: 0, mode: TimerMode::Repeating },
            blink_timer: None,
            blink_sequence: seq![4000, 800],
        },
    }
}

/// Makes the player, provided that the sheet of `NormalGary` is registered;
/// without it there is no player.
pub fn spawn_player<H: Copy>(
    tracker: &AssetTracker<PlayerSprite, H>,
) -> (spawned: Option<PlayerBundle<H>>)
    ensures
        match tracker.lookup(PlayerSprite::NormalGary) {
            Some(sheet) => spawned matches Some(player) && player@ == fresh_player(sheet),
            None => spawned is None,
        },
{
    match tracker.get_handle(PlayerSprite::NormalGary) {
        Some(sheet) => {
            let mut blink_sequence: VecDeque<u64> = VecDeque::new();
            blink_sequence.push_back(4000);
            blink_sequence.push_back(800);
            let player = PlayerBundle {
                start: Position { x: 0, y: 0 },
                sprite: SheetSprite {
                    index: 8,
                    flip_x: false,
                    custom_size: Size { width: 54, height: 90 },
                    color: Tint::White,
                    sheet,
                },
                collider: Collider::Cuboid { width: 30, height: 90 },
                gravity_scale: 8,
                player: Player { movement_scalar: 1, jump_strength: 400 },
                animation: PlayerAnimation {
                    idle_range: (8, 9),
                    walk_range: (0, 3),
                    jump_range: (4, 7),
                    timer: Timer::new(200, TimerMode::Repeating),
                    blink_timer: None,
                    blink_sequence,
                },
            };
            assert(player@.animation.blink_sequence =~= seq![4000u64, 800u64]);
            Some(player)
        },
        None => None,
    }
}

/// What the physics engine is asked to do with the player after a tick.
#[derive(Clone, Copy, Debug, PartialEq, Eq)]
pub struct PlayerCommands {
    /// Displacement for this tick.
    pub translation: Vector,
    /// Velocity to set, in the tick in which the player is pushed off.
    pub impulse: Option<Vector>,
}

/// The player's part of the game: the registry of its sprite sheets, the state
/// it is in, and the player itself once it has been spawned.
pub struct PlayerPlugin<H> {
    pub tracker: AssetTracker<PlayerSprite, H>,
    pub state: PlayerState,
    pub player: Option<PlayerBundle<H>>,
}

impl<H> PlayerPlugin<H> {
    /// If there is a player, it fits the state.
    pub open spec fn wf(&self) -> bool {
        self.player matches Some(player) ==> player@.fits(self.state)
    }

    /// The player, which must be there, and the state.
    pub open spec fn playing(&self) -> Playing<H>
        recommends
            self.player is Some,
    {
        Playing { state: self.state, player: self.player->0@ }
    }

    /// Tests `self.wf()`.
    pub fn is_wf(&self) -> (ok: bool)
        ensures
            ok == self.wf(),
    {
        match &self.player {
            Some(player) => {
                let frame = player.sprite.index;
                let animation = &player.animation;
                let shows = match self.state {
                    PlayerState::Idle => animation.idle_range.0 <= frame && frame
                        <= animation.idle_range.1,
                    PlayerState::Walking => animation.walk_range.0 <= frame && frame
                        <= animation.walk_range.1,
                    PlayerState::Jumping => animation.jump_range.0 <= frame && frame
                        < animation.jump_range.1,
                    PlayerState::JumpingInAir => frame == animation.jump_range.1,
                };
                animation.is_wf() && shows
            },
            None => true,
        }
    }

    /// The plugin before anything is loaded: an empty registry, the state
    /// `Idle`, no player.
    pub fn build() -> (plugin: PlayerPlugin<H>)
        ensures
            plugin.tracker.assets@ == Seq::<AssetReference<PlayerSprite, H>>::empty(),
            plugin.state == PlayerState::Idle,
            plugin.player is None,
            plugin.wf(),
    {
        PlayerPlugin {
            tracker: AssetTracker::default(),
            state: PlayerState::default(),
            player: None,
        }
    }

    /// One tick of the player: the keys are read, the state they ask for is
    /// entered, and the animation of the state that then holds runs for
    /// `delta_ns` nanoseconds. There must be a player.
    pub fn update(
        &mut self,
        input: &KeyboardInput,
        ground_touched: bool,
        delta_ns: u64,
    ) -> (commands: PlayerCommands)
        requires
            old(self).wf(),
            old(self).player is Some,
        ensures
            final(self).tracker == old(self).tracker,
            final(self).player is Some,
            final(self).playing() == old(self).playing().updated(*input, ground_touched, delta_ns),
            commands == old(self).playing().commands(*input, ground_touched, delta_ns),
            final(self).wf(),
    {
        let mut impulse: Option<Vector> = None;
        let mut state = self.state;
        let translation;
        match &mut self.player {
            Some(player) => {
                let movement = move_player(player, input, ground_touched, state);
                translation = movement.translation;
                match movement.next_state {
                    Some(next) => {
                        state = next;
                    },
                    None => {},
                }
                match state {
                    PlayerState::Idle => {
                        animate_player_idle(player, delta_ns);
                    },
                    PlayerState::Walking => {
                        animate_player_walking(player, delta_ns);
                    },
                    PlayerState::Jumping => {
                        let step = animate_player_jumping(player, delta_ns);
                        impulse = step.impulse;
                        match step.next_state {
                            Some(next) => {
                                state = next;
                            },
                            None => {},
                        }
                    },
                    PlayerState::JumpingInAir => {},
                }
            },
            None => {
                translation = Vector { x: 0, y: 0 };
            },
        }
        self.state = state;
        PlayerCommands { translation, impulse }
    }
}

impl<H: Copy> PlayerPlugin<H> {
    /// Puts the player into the level as `spawn_player` makes it; a player
    /// that was there is replaced. Without the sheet there is no player.
    pub fn enter_game(&mut self)
        ensures
            final(self).tracker == old(self).tracker,
            final(self).state == old(self).state,
            match old(self).tracker.lookup(PlayerSprite::NormalGary) {
                Some(sheet) => final(self).player matches Some(player) && player@ == fresh_player(
                    sheet,
                ),
                None => final(self).player is None,
            },
            old(self).state == PlayerState::Idle ==> final(self).wf(),
    {
        self.player = spawn_player(&self.tracker);
    }

    /// Applies the signals of one pass to the player, if there is one, and
    /// says whether any of them transformed it.
    pub fn transform(&mut self, transform_events: &Vec<TransformPlayer>) -> (transformed: bool)
        ensures
            final(self).tracker == old(self).tracker,
            final(self).state == old(self).state,
            match old(self).player {
                Some(player) => final(self).player matches Some(after) && after@
                    == transformed_by_all(player@, transform_events@, old(self).tracker),
                None => final(self).player is None,
            },
            transformed == (old(self).player is Some && any_finds_sheet(
                transform_events@,
                old(self).tracker,
            )),
            old(self).wf() ==> final(self).wf(),
    {
        match &mut self.player {
            Some(player) => {
                proof {
                    if player@.fits(self.state) {
                        lemma_transformed_fits(
                            player@,
                            transform_events@,
                            self.tracker,
                            self.state,
                        );
                    }
                }
                handle_transform(player, transform_events, &self.tracker)
            },
            None => false,
        }
    }
}

} // verus!
