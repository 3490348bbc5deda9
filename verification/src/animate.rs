//! The player's animations: which frame of the sprite sheet shows, and when
//! it changes.

use crate::player::{PlayerBundle, PlayerModel, PlayerState, SheetSprite};
use crate::shapes::Vector;
use crate::timer::{Timer, TimerMode};
use std::collections::VecDeque;
use vstd::arithmetic::div_mod::{lemma_mod_add_multiples_vanish, lemma_small_mod};
use vstd::prelude::*;

verus! {

/// What drives the player's animation. A range is a pair of frame indices
/// into the sprite sheet, first and last, both included.
#[derive(Debug)]
pub struct PlayerAnimation {
    pub idle_range: (usize, usize),
    pub walk_range: (usize, usize),
    pub jump_range: (usize, usize),
    /// Paces every animation.
    pub timer: Timer,
    /// Runs while a blink is under way.
    pub blink_timer: Option<Timer>,
    /// Lengths of the coming blinks in milliseconds, the next one in front.
    pub blink_sequence: VecDeque<u64>,
}

/// A `PlayerAnimation` as a mathematical value.
pub struct AnimationModel {
    pub idle_range: (usize, usize),
    pub walk_range: (usize, usize),
    pub jump_range: (usize, usize),
    pub timer: Timer,
    pub blink_timer: Option<Timer>,
    pub blink_sequence: Seq<u64>,
}

impl View for PlayerAnimation {
    type V = AnimationModel;

    open spec fn view(&self) -> AnimationModel {
        AnimationModel {
            idle_range: self.idle_range,
            walk_range: self.walk_range,
            jump_range: self.jump_range,
            timer: self.timer,
            blink_timer: self.blink_timer,
            blink_sequence: self.blink_sequence@,
        }
    }
}

impl AnimationModel {
    /// The frame on which `state` starts: the first of its range, and for
    /// the flight after a jump the last frame of the jump.
    pub open spec fn entry_frame(self, state: PlayerState) -> usize {
        match state {
            PlayerState::Idle => self.idle_range.0,
            PlayerState::Walking => self.walk_range.0,
            PlayerState::Jumping => self.jump_range.0,
            PlayerState::JumpingInAir => self.jump_range.1,
        }
    }

    /// Both timers can be ticked, no range is empty, and the jump has a frame
    /// to start on before its last one.
    pub open spec fn wf(self) -> bool {
        &&& self.timer.wf()
        &&& self.blink_timer matches Some(blink) ==> blink.wf()
        &&& self.idle_range.0 <= self.idle_range.1
        &&& self.walk_range.0 <= self.walk_range.1
        &&& self.jump_range.0 < self.jump_range.1
    }
}

/// The queue of blink lengths after a blink began: the length in front went
/// to the back.
pub open spec fn cycled(lengths: Seq<u64>) -> Seq<u64> {
    lengths.drop_first().push(lengths[0])
}

/// The queue of blink lengths after `blinks` blinks began. An empty queue
/// stays empty, and no blink ever begins from it.
pub open spec fn cycled_times(lengths: Seq<u64>, blinks: nat) -> Seq<u64>
    decreases blinks,
{
    if blinks == 0 || lengths.len() == 0 {
        lengths
    } else {
        cycled(cycled_times(lengths, (blinks - 1) as nat))
    }
}

/// The blink lengths come round for ever. After any number of blinks the
/// queue is as long as it was and holds the same lengths, each moved up by
/// the number of blinks: so the blink that begins after `blinks` others takes
/// the length at place `blinks` modulo the queue's length, and after as many
/// blinks as the queue is long the queue stands as at the start.
pub proof fn lemma_blinks_cycle(lengths: Seq<u64>, blinks: nat)
    requires
        lengths.len() > 0,
    ensures
        cycled_times(lengths, blinks).len() == lengths.len(),
        forall|i: int|
            0 <= i < lengths.len() ==> #[trigger] cycled_times(lengths, blinks)[i] == lengths[(i
                + blinks) % (lengths.len() as int)],
        cycled_times(lengths, blinks)[0] == lengths[blinks as int % (lengths.len() as int)],
        cycled_times(lengths, lengths.len()) == lengths,
{
    let n = lengths.len() as int;
    lemma_cycled_places(lengths, blinks);
    lemma_cycled_places(lengths, lengths.len());
    assert(cycled_times(lengths, lengths.len()) =~= lengths) by {
        assert forall|i: int| 0 <= i < n implies cycled_times(lengths, lengths.len())[i]
            == lengths[i] by {
            lemma_mod_add_multiples_vanish(i, n);
            lemma_small_mod(i as nat, n as nat);
        }
    }
}

proof fn lemma_cycled_places(lengths: Seq<u64>, blinks: nat)
    requires
        lengths.len() > 0,
    ensures
        cycled_times(lengths, blinks).len() == lengths.len(),
        forall|i: int|
            0 <= i < lengths.len() ==> #[trigger] cycled_times(lengths, blinks)[i] == lengths[(i
                + blinks) % (lengths.len() as int)],
    decreases blinks,
{
    let n = lengths.len() as int;
    if blinks == 0 {
        assert forall|i: int| 0 <= i < n implies cycled_times(lengths, blinks)[i] == lengths[(i
            + blinks) % n] by {
            lemma_small_mod(i as nat, n as nat);
        }
    } else {
        let before = cycled_times(lengths, (blinks - 1) as nat);
        lemma_cycled_places(lengths, (blinks - 1) as nat);
        assert forall|i: int| 0 <= i < n implies cycled(before)[i] == lengths[(i + blinks)
            % n] by {
            if i < n - 1 {
                assert(cycled(before)[i] == before[i + 1]);
                assert(i + 1 + (blinks - 1) == i + blinks);
            } else {
                assert(cycled(before)[i] == before[0]);
                lemma_mod_add_multiples_vanish(blinks - 1, n);
                assert(i + blinks == n + (blinks - 1));
            }
        }
    }
}

/// What one tick of the jump animation asks for besides the next frame.
#[derive(Clone, Copy, Debug, PartialEq, Eq)]
pub struct JumpStep {
    /// Velocity to give the player: the push that lifts it off.
    pub impulse: Option<Vector>,
    /// State to enter, once the last frame of the jump shows.
    pub next_state: Option<PlayerState>,
}

impl AnimationModel {
    /// `frame` is one that `state` can show: a frame of the state's range;
    /// while the jump animation runs, one before its last; in the flight
    /// that follows, the last.
    pub open spec fn shows(self, state: PlayerState, frame: usize) -> bool {
        match state {
            PlayerState::Idle => self.idle_range.0 <= frame <= self.idle_range.1,
            PlayerState::Walking => self.walk_range.0 <= frame <= self.walk_range.1,
            PlayerState::Jumping => self.jump_range.0 <= frame < self.jump_range.1,
            PlayerState::JumpingInAir => frame == self.jump_range.1,
        }
    }

    /// Animation and frame after a tick of `delta_ns` spent idle.
    ///
    /// While no blink is under way the main timer runs; when it fires, the
    /// blink length in front of the queue goes to its back, a blink timer of
    /// that length starts and the first idle frame shows. While a blink is
    /// under way only its timer runs; when it finishes it is taken away and
    /// the last idle frame shows.
    pub open spec fn idle_step(self, frame: usize, delta_ns: u64) -> (AnimationModel, usize) {
        match self.blink_timer {
            Some(blink) => if blink.fires(delta_ns) {
                (AnimationModel { blink_timer: None, ..self }, self.idle_range.1)
            } else {
                (AnimationModel { blink_timer: Some(blink.ticked(delta_ns)), ..self }, frame)
            },
            None => {
                let timer = self.timer.ticked(delta_ns);
                if self.timer.fires(delta_ns) && self.blink_sequence.len() > 0 {
                    let length = self.blink_sequence[0];
                    (
                        AnimationModel {
                            timer,
                            blink_timer: Some(
                                Timer { duration_ms: length, elapsed_ns: 0, mode: TimerMode::Once },
                            ),
                            blink_sequence: cycled(self.blink_sequence),
                            ..self
                        },
                        self.idle_range.0,
                    )
                } else {
                    (AnimationModel { timer, ..self }, frame)
                }
            },
        }
    }

    /// Frame after a tick spent walking in which the timer fired or not: the
    /// next frame of the walk, and after the last one the first again.
    pub open spec fn walk_frame(self, frame: usize, fired: bool) -> usize {
        if !fired {
            frame
        } else if frame >= self.walk_range.1 {
            self.walk_range.0
        } else {
            (frame + 1) as usize
        }
    }

    /// `frame` is one of the jump, its first and last frame included.
    pub open spec fn in_jump_range(self, frame: usize) -> bool {
        self.jump_range.0 <= frame <= self.jump_range.1
    }

    /// Frame after a tick of the jump animation: the next frame when the
    /// timer fired, up to the last frame of the jump, where it stays.
    pub open spec fn jump_frame(self, frame: usize, fired: bool) -> usize {
        if fired && frame < self.jump_range.1 {
            (frame + 1) as usize
        } else {
            frame
        }
    }

    /// The tick brings up the frame before the last of the jump: the player
    /// is pushed off.
    pub open spec fn lifts_off(self, frame: usize, fired: bool) -> bool {
        fired && frame + 1 == self.jump_range.1 - 1
    }

    /// The timer fires and the last frame of the jump comes up, or showed
    /// already: the flight begins.
    pub open spec fn takes_flight(self, frame: usize, fired: bool) -> bool {
        fired && frame + 1 >= self.jump_range.1
    }
}

impl<H> PlayerModel<H> {
    /// The player after a tick of `delta_ns` spent idle.
    pub open spec fn idled(self, delta_ns: u64) -> PlayerModel<H> {
        let step = self.animation.idle_step(self.sprite.index, delta_ns);
        PlayerModel {
            sprite: SheetSprite { index: step.1, ..self.sprite },
            animation: step.0,
            ..self
        }
    }

    /// The player after a tick of `delta_ns` spent walking.
    pub open spec fn walked(self, delta_ns: u64) -> PlayerModel<H> {
        PlayerModel {
            sprite: SheetSprite {
                index: self.animation.walk_frame(
                    self.sprite.index,
                    self.animation.timer.fires(delta_ns),
                ),
                ..self.sprite
            },
            animation: AnimationModel {
                timer: self.animation.timer.ticked(delta_ns),
                ..self.animation
            },
            ..self
        }
    }

    /// The player after a tick of `delta_ns` of the jump animation.
    pub open spec fn jumped(self, delta_ns: u64) -> PlayerModel<H> {
        PlayerModel {
            sprite: SheetSprite {
                index: self.animation.jump_frame(
                    self.sprite.index,
                    self.animation.timer.fires(delta_ns),
                ),
                ..self.sprite
            },
            animation: AnimationModel {
                timer: self.animation.timer.ticked(delta_ns),
                ..self.animation
            },
            ..self
        }
    }

    /// What the jump animation asks for in a tick of `delta_ns`.
    pub open spec fn jump_step(self, delta_ns: u64) -> JumpStep {
        let fired = self.animation.timer.fires(delta_ns);
        JumpStep {
            impulse: if self.animation.lifts_off(self.sprite.index, fired) {
                Some(Vector { x: 0, y: self.player.jump_strength as i64 })
            } else {
                None
            },
            next_state: if self.animation.takes_flight(self.sprite.index, fired) {
                Some(PlayerState::JumpingInAir)
            } else {
                None
            },
        }
    }
}

/// How far a jump has come: the state, the frame that shows, and how often
/// the player was pushed off.
pub struct JumpCourse {
    pub state: PlayerState,
    pub frame: usize,
    pub pushes: nat,
}

impl AnimationModel {
    /// The course of a jump that is on `frame`, after the ticks `fired`,
    /// each of which says whether the timer fired in it. While the state is
    /// `Jumping` the jump animation runs; once it is `JumpingInAir` none
    /// does.
    pub open spec fn jump_course(self, frame: usize, fired: Seq<bool>) -> JumpCourse
        decreases fired.len(),
    {
        if fired.len() == 0 {
            JumpCourse { state: PlayerState::Jumping, frame, pushes: 0 }
        } else {
            let so_far = self.jump_course(frame, fired.drop_last());
            match so_far.state {
                PlayerState::Jumping => JumpCourse {
                    state: if self.takes_flight(so_far.frame, fired.last()) {
                        PlayerState::JumpingInAir
                    } else {
                        PlayerState::Jumping
                    },
                    frame: self.jump_frame(so_far.frame, fired.last()),
                    pushes: if self.lifts_off(so_far.frame, fired.last()) {
                        so_far.pushes + 1
                    } else {
                        so_far.pushes
                    },
                },
                _ => so_far,
            }
        }
    }
}

/// In how many of the ticks the timer fired.
pub open spec fn times_fired(fired: Seq<bool>) -> nat
    decreases fired.len(),
{
    if fired.len() == 0 {
        0
    } else {
        times_fired(fired.drop_last()) + if fired.last() {
            1nat
        } else {
            0nat
        }
    }
}

/// A jump runs its course. From the first frame of a jump range of three
/// frames or more, whatever the ticks: the frame goes up by one each time the
/// timer fires and stops at the last frame of the range; the state is
/// `JumpingInAir` from the moment the last frame shows and `Jumping` before;
/// and the player has been pushed off once from the moment the frame before
/// the last shows, and not at all before.
pub proof fn lemma_jump_runs_its_course(animation: AnimationModel, fired: Seq<bool>)
    requires
        animation.wf(),
        animation.jump_range.0 + 1 < animation.jump_range.1,
    ensures
        ({
            let first = animation.jump_range.0 as int;
            let last = animation.jump_range.1 as int;
            let course = animation.jump_course(animation.jump_range.0, fired);
            &&& course.frame == if first + times_fired(fired) < last {
                first + times_fired(fired)
            } else {
                last
            }
            &&& course.state == if first + times_fired(fired) < last {
                PlayerState::Jumping
            } else {
                PlayerState::JumpingInAir
            }
            &&& course.pushes == if first + times_fired(fired) < last - 1 {
                0nat
            } else {
                1nat
            }
        }),
    decreases fired.len(),
{
    if fired.len() > 0 {
        lemma_jump_runs_its_course(animation, fired.drop_last());
    }
}

/// Runs the idle animation for one tick of `delta_ns` nanoseconds.
pub fn animate_player_idle<H>(player: &mut PlayerBundle<H>, delta_ns: u64)
    requires
        old(player).animation@.wf(),
    ensures
        final(player)@ == old(player)@.idled(delta_ns),
        final(player).animation@.wf(),
        old(player).animation@.shows(PlayerState::Idle, old(player).sprite.index)
            ==> final(player).animation@.shows(PlayerState::Idle, final(player).sprite.index),
{
    match player.animation.blink_timer {
        Some(running) => {
            let mut blink = running;
            if blink.tick(delta_ns) {
                player.sprite.index = player.animation.idle_range.1;
                player.animation.blink_timer = None;
            } else {
                player.animation.blink_timer = Some(blink);
            }
        },
        None => {
            if player.animation.timer.tick(delta_ns) {
                match player.animation.blink_sequence.pop_front() {
                    Some(length) => {
                        player.sprite.index = player.animation.idle_range.0;
                        player.animation.blink_timer = Some(Timer::new(length, TimerMode::Once));
                        player.animation.blink_sequence.push_back(length);
                        assert(player.animation.blink_sequence@ =~= cycled(
                            old(player).animation.blink_sequence@,
                        ));
                    },
                    None => {},
                }
            }
        },
    }
}

/// Runs the walk animation for one tick of `delta_ns` nanoseconds.
pub fn animate_player_walking<H>(player: &mut PlayerBundle<H>, delta_ns: u64)
    requires
        old(player).animation@.wf(),
    ensures
        final(player)@ == old(player)@.walked(delta_ns),
        final(player).animation@.wf(),
        old(player).animation@.shows(PlayerState::Walking, old(player).sprite.index)
            ==> final(player).animation@.shows(PlayerState::Walking, final(player).sprite.index),
{
    if player.animation.timer.tick(delta_ns) {
        if player.sprite.index >= player.animation.walk_range.1 {
            player.sprite.index = player.animation.walk_range.0;
        } else {
            player.sprite.index = player.sprite.index + 1;
        }
    }
}

/// Runs the jump animation for one tick of `delta_ns` nanoseconds. When the
/// timer fires the next frame shows, up to the last frame of the jump, which
/// stays. When the frame before the last comes up the player is pushed
/// upwards with its `jump_strength`. When the last frame comes up, or shows
/// already, the flight begins; there is no frame after it and no push on it.
pub fn animate_player_jumping<H>(player: &mut PlayerBundle<H>, delta_ns: u64) -> (step: JumpStep)
    requires
        old(player).animation@.wf(),
    ensures
        final(player)@ == old(player)@.jumped(delta_ns),
        step == old(player)@.jump_step(delta_ns),
        final(player).animation@.wf(),
        old(player).animation@.shows(PlayerState::Jumping, old(player).sprite.index)
            ==> final(player).animation@.shows(
            match step.next_state {
                Some(state) => state,
                None => PlayerState::Jumping,
            },
            final(player).sprite.index,
        ),
        old(player).sprite.index >= old(player).animation.jump_range.1 ==> {
            &&& final(player).sprite.index == old(player).sprite.index
            &&& step.impulse is None
        },
        old(player).animation@.in_jump_range(old(player).sprite.index)
            ==> old(player).animation@.in_jump_range(final(player).sprite.index),
{
    let mut step = JumpStep { impulse: None, next_state: None };
    if player.animation.timer.tick(delta_ns) {
        if player.sprite.index >= player.animation.jump_range.1 {
            step.next_state = Some(PlayerState::JumpingInAir);
        } else {
            let i: usize = player.sprite.index + 1;
            if i == player.animation.jump_range.1 {
                step.next_state = Some(PlayerState::JumpingInAir);
            } else if i == player.animation.jump_range.1 - 1 {
                step.impulse = Some(Vector { x: 0, y: player.player.jump_strength as i64 });
            }
            player.sprite.index = i;
        }
    }
    step
}

impl PlayerAnimation {
    /// The frame on which `state` starts.
    pub fn entry_frame(&self, state: PlayerState) -> (frame: usize)
        ensures
            frame == self@.entry_frame(state),
    {
        match state {
            PlayerState::Idle => self.idle_range.0,
            PlayerState::Walking => self.walk_range.0,
            PlayerState::Jumping => self.jump_range.0,
            PlayerState::JumpingInAir => self.jump_range.1,
        }
    }

    /// Tests `self@.wf()`.
    pub fn is_wf(&self) -> (ok: bool)
        ensures
            ok == self@.wf(),
    {
        let blink_ok = match self.blink_timer {
            Some(blink) => blink.is_wf(),
            None => true,
        };
        self.timer.is_wf() && blink_ok && self.idle_range.0 <= self.idle_range.1
            && self.walk_range.0 <= self.walk_range.1 && self.jump_range.0 < self.jump_range.1
    }
}

} // verus!
