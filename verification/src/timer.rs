//! Countdown timers that drive the animations.
//!
//! A timer is held as plain numbers: its length in milliseconds and the time
//! it has accumulated in nanoseconds. The arithmetic of a tick is the engine's
//! own: `Timer::tick` hands the numbers to `bevy::time::Timer`.

use std::time::Duration;
use vstd::arithmetic::div_mod::{lemma_fundamental_div_mod, lemma_mod_bound, lemma_small_mod};
use vstd::prelude::*;

verus! {

/// What a timer does when it reaches its duration.
#[derive(Clone, Copy, Debug, PartialEq, Eq, Structural)]
pub enum TimerMode {
    /// Finish once and stay at the duration.
    Once,
    /// Finish, keep the remainder and go on counting.
    Repeating,
}

/// A countdown of `duration_ms` milliseconds that has seen `elapsed_ns`
/// nanoseconds so far.
#[derive(Clone, Copy, Debug, PartialEq, Eq, Structural)]
pub struct Timer {
    pub duration_ms: u64,
    pub elapsed_ns: u64,
    pub mode: TimerMode,
}

/// Nanoseconds in a millisecond.
pub const NANOS_PER_MILLI: u64 = 1_000_000;

/// Number of whole intervals that the engine counts in one tick: it keeps the
/// quotient in 32 bits.
pub open spec fn intervals_counted(total_ns: nat, duration_ns: nat) -> nat {
    (total_ns / duration_ns) % 0x1_0000_0000
}

/// Elapsed time that the engine's timer shows after a tick that brought it to
/// `total_ns`.
pub open spec fn elapsed_after(duration_ns: nat, mode: TimerMode, total_ns: nat) -> nat {
    if total_ns < duration_ns {
        total_ns
    } else {
        match mode {
            TimerMode::Once => duration_ns,
            TimerMode::Repeating => (total_ns - duration_ns * intervals_counted(
                total_ns,
                duration_ns,
            )) as nat,
        }
    }
}

/// Ticks a fresh `bevy::time::Timer` of `duration_ms` milliseconds, set to
/// `elapsed_ns`, by `delta_ns`, and returns its elapsed nanoseconds and
/// `finished()`.
///
/// Believed of `bevy::time::Timer::tick`: the timer is finished exactly when
/// the elapsed time with the delta added reaches the duration; a timer that
/// runs once then stands at its duration; a repeating one has the duration
/// taken off as many times as it fits, counted in 32 bits. A repeating timer
/// of length zero divides by zero, so it is left out.
#[verifier::external_body]
fn engine_tick(
    duration_ms: u64,
    mode: TimerMode,
    elapsed_ns: u64,
    delta_ns: u64,
) -> (r: (u64, bool))
    requires
        mode == TimerMode::Repeating ==> duration_ms > 0,
        elapsed_ns + delta_ns <= u64::MAX,
    ensures
        r.1 == (elapsed_ns + delta_ns >= duration_ms * NANOS_PER_MILLI),
        r.0 == elapsed_after(
            (duration_ms * NANOS_PER_MILLI) as nat,
            mode,
            (elapsed_ns + delta_ns) as nat,
        ),
{
    let engine_mode = match mode {
        TimerMode::Once => bevy::time::TimerMode::Once,
        TimerMode::Repeating => bevy::time::TimerMode::Repeating,
    };
    let mut timer = bevy::time::Timer::new(Duration::from_millis(duration_ms), engine_mode);
    timer.set_elapsed(Duration::from_nanos(elapsed_ns));
    timer.tick(Duration::from_nanos(delta_ns));
    (timer.elapsed().as_nanos() as u64, timer.finished())
}

impl Timer {
    /// A timer can be ticked unless it repeats with length zero.
    pub open spec fn wf(self) -> bool {
        self.mode == TimerMode::Repeating ==> self.duration_ms > 0
    }

    /// The timer's length in nanoseconds.
    pub open spec fn duration_ns(self) -> nat {
        (self.duration_ms * NANOS_PER_MILLI) as nat
    }

    /// Time on the clock once `delta_ns` is added; it stops at `u64::MAX`.
    pub open spec fn total_ns(self, delta_ns: u64) -> nat {
        if self.elapsed_ns + delta_ns > u64::MAX {
            u64::MAX as nat
        } else {
            (self.elapsed_ns + delta_ns) as nat
        }
    }

    /// Whether a tick of `delta_ns` finishes the timer.
    pub open spec fn fires(self, delta_ns: u64) -> bool {
        self.total_ns(delta_ns) >= self.duration_ns()
    }

    /// The timer after a tick of `delta_ns`.
    pub open spec fn ticked(self, delta_ns: u64) -> Timer {
        Timer {
            duration_ms: self.duration_ms,
            elapsed_ns: elapsed_after(
                self.duration_ns(),
                self.mode,
                self.total_ns(delta_ns),
            ) as u64,
            mode: self.mode,
        }
    }

    /// Tests `self.wf()`.
    pub fn is_wf(&self) -> (ok: bool)
        ensures
            ok == self.wf(),
    {
        match self.mode {
            TimerMode::Once => true,
            TimerMode::Repeating => self.duration_ms > 0,
        }
    }

    /// A timer of `duration_ms` milliseconds with nothing elapsed.
    pub fn new(duration_ms: u64, mode: TimerMode) -> (t: Timer)
        ensures
            t == (Timer { duration_ms, elapsed_ns: 0, mode }),
    {
        Timer { duration_ms, elapsed_ns: 0, mode }
    }

    /// Advances the timer by `delta_ns` nanoseconds and says whether it
    /// finished in this tick. However long the delta, it finishes once.
    pub fn tick(&mut self, delta_ns: u64) -> (finished: bool)
        requires
            old(self).wf(),
        ensures
            finished == old(self).fires(delta_ns),
            *final(self) == old(self).ticked(delta_ns),
            final(self).wf(),
    {
        let room: u64 = u64::MAX - self.elapsed_ns;
        let step: u64 = if delta_ns > room { room } else { delta_ns };
        let (elapsed, finished) = engine_tick(self.duration_ms, self.mode, self.elapsed_ns, step);
        self.elapsed_ns = elapsed;
        finished
    }
}

/// A repeating timer keeps the remainder. Where the time on the clock holds
/// fewer than 2^32 intervals, what is left after a tick is that time modulo
/// the interval, which is less than the interval.
pub proof fn lemma_repeating_keeps_remainder(timer: Timer, delta_ns: u64)
    requires
        timer.wf(),
        timer.mode == TimerMode::Repeating,
        timer.total_ns(delta_ns) / timer.duration_ns() < 0x1_0000_0000,
    ensures
        timer.ticked(delta_ns).elapsed_ns == timer.total_ns(delta_ns) % timer.duration_ns(),
        timer.ticked(delta_ns).elapsed_ns < timer.duration_ns(),
{
    let total = timer.total_ns(delta_ns) as int;
    let interval = timer.duration_ns() as int;
    lemma_fundamental_div_mod(total, interval);
    lemma_mod_bound(total, interval);
    if total < interval {
        lemma_small_mod(total as nat, interval as nat);
    } else {
        lemma_small_mod((total / interval) as nat, 0x1_0000_0000);
    }
}

} // verus!
