//! What the potions make of the player.

use crate::animate::AnimationModel;
use crate::asset_tracker::AssetTracker;
use crate::collectibles::Potions;
use crate::player::{
    Player, PlayerBundle, PlayerModel, PlayerSprite, PlayerState, SheetSprite, TransformPlayer,
};
use crate::shapes::{Collider, Size, Tint};
use crate::timer::{Timer, TimerMode};
use vstd::prelude::*;

verus! {

/// What a potion makes of the player.
#[derive(Clone, Copy, Debug, PartialEq, Eq)]
pub struct Transformation {
    pub sprite: PlayerSprite,
    pub custom_size: Size,
    pub color: Tint,
    pub collider: Collider,
    pub gravity_scale: u32,
    pub timer_interval_ms: u64,
    pub movement_scalar: i32,
    pub jump_strength: i32,
}

/// The transformation that each potion stands for.
pub open spec fn transformation(catalyst: Potions) -> Transformation {
    match catalyst {
        Potions::Blue => Transformation {
            sprite: PlayerSprite::LittleGary,
            custom_size: Size { width: 18, height: 30 },
            color: Tint::White,
            collider: Collider::Cuboid { width: 16, height: 26 },
            gravity_scale: 9,
            timer_interval_ms: 80,
            movement_scalar: 4,
            jump_strength: 200,
        },
        Potions::Green => Transformation {
            sprite: PlayerSprite::NormalGary,
            custom_size: Size { width: 54, height: 90 },
            color: Tint::Green,
            collider: Collider::Cuboid { width: 30, height: 90 },
            gravity_scale: 8,
            timer_interval_ms: 200,
            movement_scalar: 2,
            jump_strength: 1000,
        },
        Potions::Red => Transformation {
            sprite: PlayerSprite::NormalGary,
            custom_size: Size { width: 54, height: 90 },
            color: Tint::Red,
            collider: Collider::Cuboid { width: 30, height: 90 },
            gravity_scale: 8,
            timer_interval_ms: 200,
            movement_scalar: 1,
            jump_strength: 0,
        },
    }
}

impl Transformation {
    /// Looks up the transformation of `catalyst`.
    pub fn of(catalyst: Potions) -> (recipe: Transformation)
        ensures
            recipe == transformation(catalyst),
    {
        match catalyst {
            Potions::Blue => Transformation {
                sprite: PlayerSprite::LittleGary,
                custom_size: Size { width: 18, height: 30 },
                color: Tint::White,
                collider: Collider::Cuboid { width: 16, height: 26 },
                gravity_scale: 9,
                timer_interval_ms: 80,
                movement_scalar: 4,
                jump_strength: 200,
            },
            Potions::Green => Transformation {
                sprite: PlayerSprite::NormalGary,
                custom_size: Size { width: 54, height: 90 },
                color: Tint::Green,
                collider: Collider::Cuboid { width: 30, height: 90 },
                gravity_scale: 8,
                timer_interval_ms: 200,
                movement_scalar: 2,
                jump_strength: 1000,
            },
            Potions::Red => Transformation {
                sprite: PlayerSprite::NormalGary,
                custom_size: Size { width: 54, height: 90 },
                color: Tint::Red,
                collider: Collider::Cuboid { width: 30, height: 90 },
                gravity_scale: 8,
                timer_interval_ms: 200,
                movement_scalar: 1,
                jump_strength: 0,
            },
        }
    }
}

/// The player after `catalyst` acted on it, where `sheet` is what the
/// registry holds for the sprite that the catalyst asks for. Without a sheet
/// nothing happens. With one, look and body change together and the animation
/// timer restarts at the new pace; frame, facing, ranges and blinking stay.
pub open spec fn transformed<H>(
    player: PlayerModel<H>,
    catalyst: Potions,
    sheet: Option<H>,
) -> PlayerModel<H> {
    let recipe = transformation(catalyst);
    match sheet {
        None => player,
        Some(handle) => PlayerModel {
            start: player.start,
            sprite: SheetSprite {
                index: player.sprite.index,
                flip_x: player.sprite.flip_x,
                custom_size: recipe.custom_size,
                color: recipe.color,
                sheet: handle,
            },
            collider: recipe.collider,
            gravity_scale: recipe.gravity_scale,
            player: Player {
                movement_scalar: recipe.movement_scalar,
                jump_strength: recipe.jump_strength,
            },
            animation: AnimationModel {
                timer: Timer {
                    duration_ms: recipe.timer_interval_ms,
                    elapsed_ns: 0,
                    mode: TimerMode::Repeating,
                },
                ..player.animation
            },
        },
    }
}

/// The player after a run of signals, each applied to what the one before
/// left.
pub open spec fn transformed_by_all<H>(
    player: PlayerModel<H>,
    signals: Seq<TransformPlayer>,
    tracker: AssetTracker<PlayerSprite, H>,
) -> PlayerModel<H>
    decreases signals.len(),
{
    if signals.len() == 0 {
        player
    } else {
        let catalyst = signals.last().catalyst;
        transformed(
            transformed_by_all(player, signals.drop_last(), tracker),
            catalyst,
            tracker.lookup(transformation(catalyst).sprite),
        )
    }
}

/// Applies one potion to the player, all of it or none: where the registry
/// has no sheet for the sprite that `catalyst` asks for, the player is left
/// as it was. Says whether the player was transformed.
pub fn transform<H: Copy>(
    player: &mut PlayerBundle<H>,
    catalyst: Potions,
    tracker: &AssetTracker<PlayerSprite, H>,
) -> (applied: bool)
    ensures
        final(player)@ == transformed(
            old(player)@,
            catalyst,
            tracker.lookup(transformation(catalyst).sprite),
        ),
        applied == tracker.has(transformation(catalyst).sprite),
        !applied ==> final(player)@ == old(player)@,
{
    let recipe = Transformation::of(catalyst);
    match tracker.get_handle(recipe.sprite) {
        Some(handle) => {
            player.sprite.custom_size = recipe.custom_size;
            player.sprite.color = recipe.color;
            player.sprite.sheet = handle;
            player.collider = recipe.collider;
            player.gravity_scale = recipe.gravity_scale;
            player.animation.timer = Timer::new(recipe.timer_interval_ms, TimerMode::Repeating);
            player.player.movement_scalar = recipe.movement_scalar;
            player.player.jump_strength = recipe.jump_strength;
            true
        },
        None => false,
    }
}

/// One of the signals finds the sheet that its potion asks for.
pub open spec fn any_finds_sheet<H>(
    signals: Seq<TransformPlayer>,
    tracker: AssetTracker<PlayerSprite, H>,
) -> bool {
    exists|k: int| 0 <= k < signals.len() && finds_sheet(tracker)(#[trigger] signals[k])
}

/// Applies the signals in the order they arrived, and says whether any of
/// them transformed the player. Each is all or nothing on its own, so one
/// that finds no sheet does not stop a later one, and of two that apply the
/// later one decides.
pub fn handle_transform<H: Copy>(
    player: &mut PlayerBundle<H>,
    transform_events: &Vec<TransformPlayer>,
    tracker: &AssetTracker<PlayerSprite, H>,
) -> (applied: bool)
    ensures
        final(player)@ == transformed_by_all(old(player)@, transform_events@, *tracker),
        applied == any_finds_sheet(transform_events@, *tracker),
        !applied ==> final(player)@ == old(player)@,
{
    let n = transform_events.len();
    let mut i: usize = 0;
    let mut applied = false;
    while i < n
        invariant
            n == transform_events@.len(),
            i <= n,
            player@ == transformed_by_all(old(player)@, transform_events@.take(i as int), *tracker),
            applied == any_finds_sheet(transform_events@.take(i as int), *tracker),
            !applied ==> player@ == old(player)@,
        decreases n - i,
    {
        let ghost seen = transform_events@.take(i as int);
        let ghost next = transform_events@.take(i + 1);
        assert(next.drop_last() =~= seen);
        let one = transform(player, transform_events[i].catalyst, tracker);
        proof {
            assert(one == finds_sheet(*tracker)(next[i as int]));
            if any_finds_sheet(seen, *tracker) {
                let k = choose|k: int|
                    0 <= k < seen.len() && finds_sheet(*tracker)(#[trigger] seen[k]);
                assert(next[k] == seen[k]);
            }
            if any_finds_sheet(next, *tracker) && !one {
                let k = choose|k: int|
                    0 <= k < next.len() && finds_sheet(*tracker)(#[trigger] next[k]);
                assert(seen[k] == next[k]);
            }
        }
        applied = applied || one;
        i += 1;
    }
    assert(transform_events@.take(n as int) =~= transform_events@);
    applied
}

/// The test "the registry has the sheet that this signal's potion asks for".
pub open spec fn finds_sheet<H>(
    tracker: AssetTracker<PlayerSprite, H>,
) -> spec_fn(TransformPlayer) -> bool {
    |signal: TransformPlayer| tracker.has(transformation(signal.catalyst).sprite)
}

/// Of the signals of a pass the last one that finds its sheet decides: the
/// player comes out as if that signal had come alone. Signals that find no
/// sheet count for nothing, and where none finds one the player is left as it
/// was.
pub proof fn lemma_last_signal_with_a_sheet_decides<H>(
    player: PlayerModel<H>,
    signals: Seq<TransformPlayer>,
    tracker: AssetTracker<PlayerSprite, H>,
)
    ensures
        ({
            let applied = signals.filter(finds_sheet(tracker));
            transformed_by_all(player, signals, tracker) == if applied.len() == 0 {
                player
            } else {
                transformed(
                    player,
                    applied.last().catalyst,
                    tracker.lookup(transformation(applied.last().catalyst).sprite),
                )
            }
        }),
    decreases signals.len(),
{
    if signals.len() == 0 {
        signals.lemma_all_neg_filter_empty(finds_sheet(tracker));
    } else {
        let earlier = signals.drop_last();
        lemma_last_signal_with_a_sheet_decides(player, earlier, tracker);
        assert(earlier.push(signals.last()) =~= signals);
        earlier.lemma_filter_push(signals.last(), finds_sheet(tracker));
    }
}

/// A transformation keeps the frame and the ranges and starts a timer that
/// can be ticked, so a player that fits a state still fits it afterwards.
pub proof fn lemma_transformed_fits<H>(
    player: PlayerModel<H>,
    signals: Seq<TransformPlayer>,
    tracker: AssetTracker<PlayerSprite, H>,
    state: PlayerState,
)
    requires
        player.fits(state),
    ensures
        transformed_by_all(player, signals, tracker).fits(state),
    decreases signals.len(),
{
    if signals.len() > 0 {
        lemma_transformed_fits(player, signals.drop_last(), tracker, state);
    }
}

/// Transformations leave the frame, the ranges and the blinking alone.
pub proof fn lemma_transformed_keeps_frame<H>(
    player: PlayerModel<H>,
    signals: Seq<TransformPlayer>,
    tracker: AssetTracker<PlayerSprite, H>,
)
    ensures
        ({
            let after = transformed_by_all(player, signals, tracker);
            &&& after.start == player.start
            &&& after.sprite.index == player.sprite.index
            &&& after.sprite.flip_x == player.sprite.flip_x
            &&& after.animation.idle_range == player.animation.idle_range
            &&& after.animation.walk_range == player.animation.walk_range
            &&& after.animation.jump_range == player.animation.jump_range
            &&& after.animation.blink_timer == player.animation.blink_timer
            &&& after.animation.blink_sequence == player.animation.blink_sequence
        }),
    decreases signals.len(),
{
    if signals.len() > 0 {
        lemma_transformed_keeps_frame(player, signals.drop_last(), tracker);
    }
}

} // verus!
