//! The game as a whole: what is loaded at startup, what enters the level, and
//! the order in which the parts act in one tick.

use crate::asset_tracker::AssetReference;
use crate::collectibles::{
    add_collectibles, entities_of, left, level_layout, load_collectibles, picked,
    pickup_collectibles, potion_handle, signals_of, spawn_plan, spared_by_all, CollectibleBundle,
    CollectiblesPlugin, CollisionEvent, Potions,
};
use crate::control::KeyboardInput;
use crate::platforms::{floor, left_wall, right_wall, PlatformsPlugin};
use crate::play::{ticked, TickEvents};
use crate::player::{
    fresh_player, load_sheets, PlayerCommands, PlayerPlugin, PlayerSprite, PlayerState,
};
use crate::shapes::Vector;
use crate::transform::any_finds_sheet;
use vstd::prelude::*;

verus! {

/// The game: the level's part, the player's part and the potions' part. `S`
/// is the type of the handles of sprite sheets, `I` that of the handles of
/// pictures.
pub struct Game<S, I> {
    pub platforms: PlatformsPlugin,
    pub player: PlayerPlugin<S>,
    pub collectibles: CollectiblesPlugin<I>,
}

/// What the engine is asked to do after a tick.
#[derive(Debug)]
pub struct TickOutput {
    /// Displacement of the player for this tick.
    pub translation: Vector,
    /// Velocity to give the player, in the tick in which it is pushed off.
    pub impulse: Option<Vector>,
    /// Potions to take out of the world.
    pub despawned: Vec<u64>,
    /// A potion transformed the player in this tick: its look and its body
    /// are to be made anew.
    pub transformed: bool,
}

impl<S: Copy, I: Copy> Game<S, I> {
    /// The game before anything is loaded.
    pub fn build() -> (game: Game<S, I>)
        ensures
            game.platforms.platforms@.len() == 0,
            game.player.tracker.assets@.len() == 0,
            game.player.state == PlayerState::Idle,
            game.player.player is None,
            game.collectibles.tracker.assets@.len() == 0,
            game.collectibles.collectibles@.len() == 0,
            game.player.wf(),
            game.collectibles.wf(),
    {
        Game {
            platforms: PlatformsPlugin::build(),
            player: PlayerPlugin::build(),
            collectibles: CollectiblesPlugin::build(),
        }
    }

    /// Registers the handles under which the sprite sheets and the potions'
    /// pictures are being loaded.
    pub fn startup(
        &mut self,
        normal_gary: S,
        little_gary: S,
        blue_handle: I,
        red_handle: I,
        green_handle: I,
    )
        ensures
            final(self).player.tracker.assets@ == old(self).player.tracker.assets@.push(
                AssetReference { asset: PlayerSprite::NormalGary, handle: normal_gary },
            ).push(AssetReference { asset: PlayerSprite::LittleGary, handle: little_gary }),
            final(self).collectibles.tracker.assets@ == old(self).collectibles.tracker.assets@.push(
                AssetReference { asset: Potions::Red, handle: red_handle },
            ).push(AssetReference { asset: Potions::Green, handle: green_handle }).push(
                AssetReference { asset: Potions::Blue, handle: blue_handle },
            ),
            forall|sprite: PlayerSprite| #[trigger]
                final(self).player.tracker.lookup(sprite) == match old(self).player.tracker.lookup(
                    sprite,
                ) {
                    Some(handle) => Some(handle),
                    None => Some(
                        match sprite {
                            PlayerSprite::NormalGary => normal_gary,
                            PlayerSprite::LittleGary => little_gary,
                        },
                    ),
                },
            forall|kind: Potions| #[trigger]
                final(self).collectibles.tracker.lookup(kind) == match old(
                    self,
                ).collectibles.tracker.lookup(kind) {
                    Some(handle) => Some(handle),
                    None => Some(potion_handle(kind, (blue_handle, red_handle, green_handle))),
                },
            final(self).platforms == old(self).platforms,
            final(self).player.state == old(self).player.state,
            final(self).player.player == old(self).player.player,
            final(self).collectibles.collectibles == old(self).collectibles.collectibles,
    {
        load_sheets(&mut self.player.tracker, normal_gary, little_gary);
        load_collectibles(&mut self.collectibles.tracker, blue_handle, red_handle, green_handle);
    }

    /// Enters the level in a window of `width` by `height` pixels: the
    /// frame of the level is put up and the player is spawned. The potions
    /// whose pictures are registered are handed out; each is to be reported
    /// with `CollectiblesPlugin::spawn` under the entity that it became.
    pub fn enter_game(&mut self, width: u32, height: u32) -> (potions: Vec<CollectibleBundle<I>>)
        ensures
            final(self).platforms.platforms@ == seq![
                floor(width, height),
                left_wall(width, height),
                right_wall(width, height),
            ],
            potions@ == spawn_plan(old(self).collectibles.tracker, level_layout()),
            match old(self).player.tracker.lookup(PlayerSprite::NormalGary) {
                Some(sheet) => final(self).player.player matches Some(player) && player@
                    == fresh_player(sheet),
                None => final(self).player.player is None,
            },
            final(self).player.tracker == old(self).player.tracker,
            final(self).player.state == old(self).player.state,
            final(self).collectibles == old(self).collectibles,
            old(self).player.state == PlayerState::Idle ==> final(self).player.wf(),
    {
        self.platforms.enter_game(width, height);
        self.player.enter_game();
        add_collectibles(&self.collectibles.tracker)
    }

    /// One tick, in this order: the keys move the player and choose its
    /// state; the animation of that state runs; the collision events pick up
    /// potions; the potions picked up transform the player. What a tick
    /// changes is there when the next one begins.
    pub fn tick(
        &mut self,
        input: &KeyboardInput,
        ground_touched: bool,
        delta_ns: u64,
        collision_events: &Vec<CollisionEvent>,
    ) -> (output: TickOutput)
        requires
            old(self).player.wf(),
            old(self).player.player is Some,
        ensures
            final(self).platforms == old(self).platforms,
            final(self).player.tracker == old(self).player.tracker,
            final(self).collectibles.tracker == old(self).collectibles.tracker,
            final(self).collectibles.collectibles@ == left(
                old(self).collectibles.collectibles@,
                collision_events@,
            ),
            final(self).collectibles.collectibles@ == old(self).collectibles.collectibles@.filter(
                spared_by_all(collision_events@),
            ),
            output.despawned@ == entities_of(
                picked(old(self).collectibles.collectibles@, collision_events@),
            ),
            final(self).player.player is Some,
            final(self).player.playing() == ticked(
                old(self).player.playing(),
                TickEvents {
                    input: *input,
                    ground_touched,
                    delta_ns,
                    signals: signals_of(
                        picked(old(self).collectibles.collectibles@, collision_events@),
                    ),
                },
                old(self).player.tracker,
            ),
            (PlayerCommands { translation: output.translation, impulse: output.impulse }) == old(
                self,
            ).player.playing().commands(*input, ground_touched, delta_ns),
            output.transformed == any_finds_sheet(
                signals_of(picked(old(self).collectibles.collectibles@, collision_events@)),
                old(self).player.tracker,
            ),
            final(self).player.wf(),
            old(self).collectibles.wf() ==> final(self).collectibles.wf(),
    {
        let commands = self.player.update(input, ground_touched, delta_ns);
        let pickups = pickup_collectibles(&mut self.collectibles.collectibles, collision_events);
        let transformed = self.player.transform(&pickups.signals);
        TickOutput {
            translation: commands.translation,
            impulse: commands.impulse,
            despawned: pickups.despawned,
            transformed,
        }
    }
}

} // verus!
