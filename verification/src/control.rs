//! The keyboard controller: how the keys move the player and take it from
//! state to state.

use crate::animate::AnimationModel;
use crate::player::{PlayerBundle, PlayerModel, PlayerState, SheetSprite};
use crate::shapes::Vector;
use vstd::prelude::*;

verus! {

/// One key in one tick: whether it is down, went down or came up.
#[derive(Clone, Copy, Debug, PartialEq, Eq, Structural)]
pub struct Key {
    pub pressed: bool,
    pub just_pressed: bool,
    pub just_released: bool,
}

/// The keys that steer the player, as they stand in one tick.
#[derive(Clone, Copy, Debug, PartialEq, Eq, Structural)]
pub struct KeyboardInput {
    pub left: Key,
    pub right: Key,
    pub jump: Key,
}

impl KeyboardInput {
    /// A direction key is down.
    pub open spec fn walk_held(self) -> bool {
        self.left.pressed || self.right.pressed
    }

    /// A direction key went down in this tick.
    pub open spec fn walk_started(self) -> bool {
        self.left.just_pressed || self.right.just_pressed
    }

    /// A direction key came up in this tick and the other one is not down.
    pub open spec fn walk_ended(self) -> bool {
        (self.left.just_released && !self.right.pressed) || (!self.left.pressed
            && self.right.just_released)
    }

    /// Which way the sprite is mirrored after this tick, `true` for facing
    /// left: the way of the key that is down, right if both are, as before
    /// if none is.
    pub open spec fn facing(self, flip_x: bool) -> bool {
        if self.right.pressed {
            false
        } else if self.left.pressed {
            true
        } else {
            flip_x
        }
    }

    /// Pixels to move to the right in this tick: `movement_scalar` for each
    /// direction key that is down, signed by its direction.
    pub open spec fn walk(self, movement_scalar: i32) -> int {
        (if self.right.pressed {
            movement_scalar as int
        } else {
            0
        }) - (if self.left.pressed {
            movement_scalar as int
        } else {
            0
        })
    }
}

/// The state that the keys ask for, if any. Nothing is asked for in the air.
/// On the ground the jump key wins, then a direction key that went down;
/// letting go of the last direction key ends a walk; and a player that lands
/// goes on walking or stands.
pub open spec fn next_state(
    current: PlayerState,
    input: KeyboardInput,
    grounded: bool,
) -> Option<PlayerState> {
    if !grounded {
        None
    } else if input.jump.just_pressed {
        Some(PlayerState::Jumping)
    } else if input.walk_started() {
        Some(PlayerState::Walking)
    } else if current == PlayerState::Walking && input.walk_ended() {
        Some(PlayerState::Idle)
    } else if current == PlayerState::JumpingInAir {
        if input.walk_held() {
            Some(PlayerState::Walking)
        } else {
            Some(PlayerState::Idle)
        }
    } else {
        None
    }
}

/// The state in which the animation runs in a tick: the one the keys asked
/// for, else the one that held.
pub open spec fn entered_state(
    current: PlayerState,
    input: KeyboardInput,
    grounded: bool,
) -> PlayerState {
    match next_state(current, input, grounded) {
        Some(state) => state,
        None => current,
    }
}

impl<H> PlayerModel<H> {
    /// The player after the keys were read: turned the way it walks, and on
    /// the first frame of `next` where a state is entered.
    pub open spec fn moved(
        self,
        next: Option<PlayerState>,
        input: KeyboardInput,
    ) -> PlayerModel<H> {
        PlayerModel {
            sprite: SheetSprite {
                index: match next {
                    Some(state) => self.animation.entry_frame(state),
                    None => self.sprite.index,
                },
                flip_x: input.facing(self.sprite.flip_x),
                ..self.sprite
            },
            ..self
        }
    }
}

/// What the controller decided in one tick.
#[derive(Clone, Copy, Debug, PartialEq, Eq)]
pub struct Movement {
    /// Displacement to ask of the physics engine.
    pub translation: Vector,
    /// State to enter before the animation runs, if any.
    pub next_state: Option<PlayerState>,
}

/// Reads the keys for one tick: turns the sprite the way the player walks,
/// asks for the displacement, and, where `next_state` names a state, puts the
/// sprite on that state's first frame.
pub fn move_player<H>(
    player: &mut PlayerBundle<H>,
    input: &KeyboardInput,
    ground_touched: bool,
    cur_state: PlayerState,
) -> (movement: Movement)
    ensures
        movement.translation.x == input.walk(old(player).player.movement_scalar),
        movement.translation.y == 0,
        movement.next_state == next_state(cur_state, *input, ground_touched),
        final(player)@ == old(player)@.moved(movement.next_state, *input),
{
    let scalar: i64 = player.player.movement_scalar as i64;
    let mut x: i64 = 0;
    if input.left.pressed {
        x = x - scalar;
        player.sprite.flip_x = true;
    }
    if input.right.pressed {
        x = x + scalar;
        player.sprite.flip_x = false;
    }
    let mut next: Option<PlayerState> = None;
    if ground_touched {
        if input.left.just_pressed || input.right.just_pressed {
            next = Some(PlayerState::Walking);
        } else if cur_state == PlayerState::Walking && ((input.left.just_released
            && !input.right.pressed) || (!input.left.pressed && input.right.just_released)) {
            next = Some(PlayerState::Idle);
        } else if cur_state == PlayerState::JumpingInAir {
            if input.left.pressed || input.right.pressed {
                next = Some(PlayerState::Walking);
            } else {
                next = Some(PlayerState::Idle);
            }
        }
        if input.jump.just_pressed {
            next = Some(PlayerState::Jumping);
        }
    }
    match next {
        Some(state) => {
            player.sprite.index = player.animation.entry_frame(state);
        },
        None => {},
    }
    Movement { translation: Vector { x, y: 0 }, next_state: next }
}

/// A player that touches the ground again after a jump walks on if a
/// direction key is down and stands if none is, on the first frame of that
/// state. This holds where the jump key does not go down in the same tick
/// (then the player jumps again) and a key that went down is still down.
pub proof fn lemma_landing_resolution(animation: AnimationModel, input: KeyboardInput)
    requires
        !input.jump.just_pressed,
        input.walk_started() ==> input.walk_held(),
    ensures
        input.walk_held() ==> {
            &&& next_state(PlayerState::JumpingInAir, input, true) == Some(PlayerState::Walking)
            &&& animation.entry_frame(PlayerState::Walking) == animation.walk_range.0
        },
        !input.walk_held() ==> {
            &&& next_state(PlayerState::JumpingInAir, input, true) == Some(PlayerState::Idle)
            &&& animation.entry_frame(PlayerState::Idle) == animation.idle_range.0
        },
{
}

} // verus!
