//! The player over time: what a tick makes of it, what a run of ticks makes
//! of it, and what holds through every run.

use crate::animate::{cycled_times, lemma_blinks_cycle, lemma_jump_runs_its_course, times_fired};
use crate::asset_tracker::AssetTracker;
use crate::control::{entered_state, next_state, KeyboardInput};
use crate::player::{
    fresh_player, PlayerCommands, PlayerModel, PlayerSprite, PlayerState, TransformPlayer,
};
use crate::shapes::Vector;
use crate::timer::{Timer, TimerMode};
use crate::transform::{lemma_transformed_fits, lemma_transformed_keeps_frame, transformed_by_all};
use vstd::prelude::*;

verus! {

impl<H> PlayerModel<H> {
    /// The player after the animation of `state` ran for `delta_ns`. In the
    /// flight after a jump no animation runs.
    pub open spec fn animated(self, state: PlayerState, delta_ns: u64) -> PlayerModel<H> {
        match state {
            PlayerState::Idle => self.idled(delta_ns),
            PlayerState::Walking => self.walked(delta_ns),
            PlayerState::Jumping => self.jumped(delta_ns),
            PlayerState::JumpingInAir => self,
        }
    }

    /// The state after the animation of `state` ran for `delta_ns`: the jump
    /// turns into flight when its last frame comes up.
    pub open spec fn state_after(self, state: PlayerState, delta_ns: u64) -> PlayerState {
        match state {
            PlayerState::Jumping => match self.jump_step(delta_ns).next_state {
                Some(next) => next,
                None => state,
            },
            _ => state,
        }
    }

    /// The push that the animation of `state` gives in a tick of `delta_ns`.
    pub open spec fn impulse(self, state: PlayerState, delta_ns: u64) -> Option<Vector> {
        match state {
            PlayerState::Jumping => self.jump_step(delta_ns).impulse,
            _ => None,
        }
    }

    /// The player's timers can be ticked, its ranges are in order, and the
    /// frame it shows is one of `state`.
    pub open spec fn fits(self, state: PlayerState) -> bool {
        self.animation.wf() && self.animation.shows(state, self.sprite.index)
    }
}

/// A player and the state it is in.
pub struct Playing<H> {
    pub state: PlayerState,
    pub player: PlayerModel<H>,
}

impl<H> Playing<H> {
    /// The frame that shows is one of the state, and the animation is in
    /// order.
    pub open spec fn fits(self) -> bool {
        self.player.fits(self.state)
    }

    /// The player after the keys were read in a tick, before any animation
    /// ran.
    pub open spec fn steered(self, input: KeyboardInput, grounded: bool) -> PlayerModel<H> {
        self.player.moved(next_state(self.state, input, grounded), input)
    }

    /// Player and state after one tick of the player's own: the keys are
    /// read, the state they ask for is entered, and the animation of the
    /// state that then holds runs for `delta_ns`.
    pub open spec fn updated(
        self,
        input: KeyboardInput,
        grounded: bool,
        delta_ns: u64,
    ) -> Playing<H> {
        let entered = entered_state(self.state, input, grounded);
        let steered = self.steered(input, grounded);
        Playing {
            state: steered.state_after(entered, delta_ns),
            player: steered.animated(entered, delta_ns),
        }
    }

    /// What such a tick asks of the physics engine: to move the player as
    /// far as the keys say, and to push it off if the jump animation says
    /// so.
    pub open spec fn commands(
        self,
        input: KeyboardInput,
        grounded: bool,
        delta_ns: u64,
    ) -> PlayerCommands {
        PlayerCommands {
            translation: Vector { x: input.walk(self.player.player.movement_scalar) as i64, y: 0 },
            impulse: self.steered(input, grounded).impulse(
                entered_state(self.state, input, grounded),
                delta_ns,
            ),
        }
    }
}

/// A player that fits its state still fits the state it is in after a tick,
/// whatever the keys, the ground and the time.
pub proof fn lemma_updated_fits<H>(
    before: Playing<H>,
    input: KeyboardInput,
    grounded: bool,
    delta_ns: u64,
)
    requires
        before.fits(),
    ensures
        before.updated(input, grounded, delta_ns).fits(),
{
}

/// What one tick brings to the player: the keys, whether it stands on the
/// ground, the time that passed, and the signals of the potions it touched.
pub struct TickEvents {
    pub input: KeyboardInput,
    pub ground_touched: bool,
    pub delta_ns: u64,
    pub signals: Seq<TransformPlayer>,
}

/// Player and state after one tick of the game: the player's own tick, then
/// the transformations that the signals ask for.
pub open spec fn ticked<H>(
    before: Playing<H>,
    tick: TickEvents,
    tracker: AssetTracker<PlayerSprite, H>,
) -> Playing<H> {
    let updated = before.updated(tick.input, tick.ground_touched, tick.delta_ns);
    Playing {
        state: updated.state,
        player: transformed_by_all(updated.player, tick.signals, tracker),
    }
}

/// Player and state after the ticks of `ticks`, one after the other.
pub open spec fn run<H>(
    start: Playing<H>,
    ticks: Seq<TickEvents>,
    tracker: AssetTracker<PlayerSprite, H>,
) -> Playing<H>
    decreases ticks.len(),
{
    if ticks.len() == 0 {
        start
    } else {
        ticked(run(start, ticks.drop_last(), tracker), ticks.last(), tracker)
    }
}

/// Whatever the ticks bring, the player is in one state and shows a frame of
/// that state: a player that fits its state fits it after any run of ticks.
pub proof fn lemma_frame_fits_state_for_ever<H>(
    start: Playing<H>,
    ticks: Seq<TickEvents>,
    tracker: AssetTracker<PlayerSprite, H>,
)
    requires
        start.fits(),
    ensures
        run(start, ticks, tracker).fits(),
    decreases ticks.len(),
{
    if ticks.len() > 0 {
        let before = run(start, ticks.drop_last(), tracker);
        let tick = ticks.last();
        lemma_frame_fits_state_for_ever(start, ticks.drop_last(), tracker);
        lemma_updated_fits(before, tick.input, tick.ground_touched, tick.delta_ns);
        let updated = before.updated(tick.input, tick.ground_touched, tick.delta_ns);
        lemma_transformed_fits(updated.player, tick.signals, tracker, updated.state);
    }
}

/// The keys leave the player alone all through the ticks: in none of them do
/// they ask for a state.
pub open spec fn undisturbed<H>(
    start: Playing<H>,
    ticks: Seq<TickEvents>,
    tracker: AssetTracker<PlayerSprite, H>,
) -> bool
    decreases ticks.len(),
{
    ticks.len() > 0 ==> {
        &&& undisturbed(start, ticks.drop_last(), tracker)
        &&& next_state(
            run(start, ticks.drop_last(), tracker).state,
            ticks.last().input,
            ticks.last().ground_touched,
        ) is None
    }
}

/// For each tick of a run, whether the animation timer fired in it.
pub open spec fn fired_in<H>(
    start: Playing<H>,
    ticks: Seq<TickEvents>,
    tracker: AssetTracker<PlayerSprite, H>,
) -> Seq<bool>
    decreases ticks.len(),
{
    if ticks.len() == 0 {
        Seq::empty()
    } else {
        fired_in(start, ticks.drop_last(), tracker).push(
            run(start, ticks.drop_last(), tracker).player.animation.timer.fires(
                ticks.last().delta_ns,
            ),
        )
    }
}

/// In how many ticks of a run the physics engine was asked to push the
/// player off.
pub open spec fn pushes_in<H>(
    start: Playing<H>,
    ticks: Seq<TickEvents>,
    tracker: AssetTracker<PlayerSprite, H>,
) -> nat
    decreases ticks.len(),
{
    if ticks.len() == 0 {
        0
    } else {
        let tick = ticks.last();
        let pushed = run(start, ticks.drop_last(), tracker).commands(
            tick.input,
            tick.ground_touched,
            tick.delta_ns,
        ).impulse is Some;
        pushes_in(start, ticks.drop_last(), tracker) + if pushed {
            1nat
        } else {
            0nat
        }
    }
}

/// A jump that the keys leave alone follows its course, whatever else the
/// ticks bring: state and frame are those of `jump_course` for the ticks in
/// which the timer fired, and the player was pushed off as often as the
/// course says.
pub proof fn lemma_jump_follows_its_course<H>(
    start: Playing<H>,
    ticks: Seq<TickEvents>,
    tracker: AssetTracker<PlayerSprite, H>,
)
    requires
        start.state == PlayerState::Jumping,
        start.fits(),
        undisturbed(start, ticks, tracker),
    ensures
        ({
            let end = run(start, ticks, tracker);
            let course = start.player.animation.jump_course(
                start.player.sprite.index,
                fired_in(start, ticks, tracker),
            );
            &&& end.state == course.state
            &&& end.player.sprite.index == course.frame
            &&& pushes_in(start, ticks, tracker) == course.pushes
            &&& end.player.animation.jump_range == start.player.animation.jump_range
            &&& end.state == PlayerState::Jumping || end.state == PlayerState::JumpingInAir
        }),
    decreases ticks.len(),
{
    if ticks.len() > 0 {
        let earlier = ticks.drop_last();
        let tick = ticks.last();
        let before = run(start, earlier, tracker);
        lemma_jump_follows_its_course(start, earlier, tracker);
        lemma_frame_fits_state_for_ever(start, earlier, tracker);
        let updated = before.updated(tick.input, tick.ground_touched, tick.delta_ns);
        lemma_transformed_keeps_frame(updated.player, tick.signals, tracker);
        let fired = fired_in(start, ticks, tracker);
        assert(fired.drop_last() =~= fired_in(start, earlier, tracker));
        assert(fired.last() == before.player.animation.timer.fires(tick.delta_ns));
    }
}

/// A jump runs its course in the game. From the first frame of a jump range
/// of three frames or more, as long as the keys leave the player alone: the
/// frame goes up by one each time the timer fires and stops at the last frame
/// of the range; the state is `JumpingInAir` from the moment the last frame
/// shows and `Jumping` before; and the player has been pushed off once from
/// the moment the frame before the last shows, and not at all before.
pub proof fn lemma_jump_runs_its_course_in_the_game<H>(
    start: Playing<H>,
    ticks: Seq<TickEvents>,
    tracker: AssetTracker<PlayerSprite, H>,
)
    requires
        start.state == PlayerState::Jumping,
        start.fits(),
        start.player.sprite.index == start.player.animation.jump_range.0,
        start.player.animation.jump_range.0 + 1 < start.player.animation.jump_range.1,
        undisturbed(start, ticks, tracker),
    ensures
        ({
            let first = start.player.animation.jump_range.0 as int;
            let last = start.player.animation.jump_range.1 as int;
            let fires = times_fired(fired_in(start, ticks, tracker));
            let end = run(start, ticks, tracker);
            &&& end.player.sprite.index == if first + fires < last {
                first + fires
            } else {
                last
            }
            &&& end.state == if first + fires < last {
                PlayerState::Jumping
            } else {
                PlayerState::JumpingInAir
            }
            &&& pushes_in(start, ticks, tracker) == if first + fires < last - 1 {
                0nat
            } else {
                1nat
            }
        }),
{
    lemma_jump_follows_its_course(start, ticks, tracker);
    lemma_jump_runs_its_course(start.player.animation, fired_in(start, ticks, tracker));
}

impl<H> Playing<H> {
    /// A blink begins in this tick: the player is idle once the keys are
    /// read, no blink is under way, the timer fires and there is a blink
    /// length to take.
    pub open spec fn blink_begins(self, tick: TickEvents) -> bool {
        &&& entered_state(self.state, tick.input, tick.ground_touched) == PlayerState::Idle
        &&& self.player.animation.blink_timer is None
        &&& self.player.animation.timer.fires(tick.delta_ns)
        &&& self.player.animation.blink_sequence.len() > 0
    }
}

/// How many blinks begin in a run of ticks.
pub open spec fn blinks_begun<H>(
    start: Playing<H>,
    ticks: Seq<TickEvents>,
    tracker: AssetTracker<PlayerSprite, H>,
) -> nat
    decreases ticks.len(),
{
    if ticks.len() == 0 {
        0
    } else {
        blinks_begun(start, ticks.drop_last(), tracker) + if run(
            start,
            ticks.drop_last(),
            tracker,
        ).blink_begins(ticks.last()) {
            1nat
        } else {
            0nat
        }
    }
}

/// The blink lengths come round in the game. Whatever the ticks bring, the
/// queue of blink lengths is the one of the start, cycled once for each blink
/// that began; and a blink that begins gets a timer of the length that stood
/// in front of the queue.
pub proof fn lemma_blinks_cycle_in_the_game<H>(
    start: Playing<H>,
    ticks: Seq<TickEvents>,
    tracker: AssetTracker<PlayerSprite, H>,
)
    ensures
        run(start, ticks, tracker).player.animation.blink_sequence == cycled_times(
            start.player.animation.blink_sequence,
            blinks_begun(start, ticks, tracker),
        ),
        ticks.len() > 0 && run(start, ticks.drop_last(), tracker).blink_begins(ticks.last())
            ==> run(start, ticks, tracker).player.animation.blink_timer == Some(
            Timer {
                duration_ms: run(
                    start,
                    ticks.drop_last(),
                    tracker,
                ).player.animation.blink_sequence[0],
                elapsed_ns: 0,
                mode: TimerMode::Once,
            },
        ),
    decreases ticks.len(),
{
    if ticks.len() > 0 {
        let tick = ticks.last();
        let before = run(start, ticks.drop_last(), tracker);
        lemma_blinks_cycle_in_the_game(start, ticks.drop_last(), tracker);
        let updated = before.updated(tick.input, tick.ground_touched, tick.delta_ns);
        lemma_transformed_keeps_frame(updated.player, tick.signals, tracker);
        if start.player.animation.blink_sequence.len() > 0 {
            lemma_blinks_cycle(
                start.player.animation.blink_sequence,
                blinks_begun(start, ticks.drop_last(), tracker),
            );
        }
    }
}

impl<H> Playing<H> {
    /// An idle player shows the first idle frame, or the last one, and the
    /// last one only while no blink timer runs: it comes up when a blink
    /// timer has run out and stays until the next one starts.
    pub open spec fn idles_in_order(self) -> bool {
        self.state == PlayerState::Idle ==> {
            ||| self.player.sprite.index == self.player.animation.idle_range.0
            ||| self.player.sprite.index == self.player.animation.idle_range.1
                && self.player.animation.blink_timer is None
        }
    }
}

/// The idle frames keep their order through any run of ticks: a player that
/// fits its state and idles in order does so ever after.
pub proof fn lemma_idles_in_order_for_ever<H>(
    start: Playing<H>,
    ticks: Seq<TickEvents>,
    tracker: AssetTracker<PlayerSprite, H>,
)
    requires
        start.fits(),
        start.idles_in_order(),
    ensures
        run(start, ticks, tracker).idles_in_order(),
    decreases ticks.len(),
{
    if ticks.len() > 0 {
        let before = run(start, ticks.drop_last(), tracker);
        let tick = ticks.last();
        lemma_idles_in_order_for_ever(start, ticks.drop_last(), tracker);
        lemma_frame_fits_state_for_ever(start, ticks.drop_last(), tracker);
        let updated = before.updated(tick.input, tick.ground_touched, tick.delta_ns);
        assert(updated.idles_in_order());
        lemma_transformed_keeps_frame(updated.player, tick.signals, tracker);
    }
}

/// From the moment it is spawned the player shows a frame of the state it is
/// in, and idles in order: it enters the level idle on the first idle frame,
/// and no run of ticks changes that.
pub proof fn lemma_spawned_player_fits_for_ever<H>(
    sheet: H,
    ticks: Seq<TickEvents>,
    tracker: AssetTracker<PlayerSprite, H>,
)
    ensures
        run(
            Playing { state: PlayerState::Idle, player: fresh_player(sheet) },
            ticks,
            tracker,
        ).fits(),
        run(
            Playing { state: PlayerState::Idle, player: fresh_player(sheet) },
            ticks,
            tracker,
        ).idles_in_order(),
{
    let start = Playing { state: PlayerState::Idle, player: fresh_player(sheet) };
    lemma_frame_fits_state_for_ever(start, ticks, tracker);
    lemma_idles_in_order_for_ever(start, ticks, tracker);
}

} // verus!
