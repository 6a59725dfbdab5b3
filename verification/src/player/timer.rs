//! The repeating timer that paces the animation. The timer itself is kept
//! as two plain numbers; the arithmetic of a tick is Bevy's.

use bevy::time::{Timer, TimerMode};
use std::time::Duration;
use vstd::prelude::*;

verus! {

/// The period of the animation timer: a tenth of a second.
pub const ANIM_PERIOD_NANOS: u64 = 100_000_000;

/// A repeating timer that is never paused, in nanoseconds.
#[derive(Clone, Copy, Debug, PartialEq, Eq, Structural)]
pub struct AnimationTimer {
    /// The time from one completion to the next.
    pub period_nanos: u64,
    /// The time that has passed in the current period.
    pub elapsed_nanos: u64,
}

/// The time into the current period after a repeating timer has been moved
/// on by `delta`. A timer with no period never holds any time.
pub open spec fn elapsed_after(period: nat, elapsed: nat, delta: nat) -> nat {
    if period == 0 {
        0
    } else {
        (elapsed + delta) % period
    }
}

/// The number of periods that end while a repeating timer is moved on by
/// `delta`, as the timer counts them: in 32 bits, wrapping. A timer with no
/// period counts the largest number there is.
pub open spec fn times_finished(period: nat, elapsed: nat, delta: nat) -> nat {
    if period == 0 {
        0xffff_ffff
    } else {
        ((elapsed + delta) / period) % 0x1_0000_0000
    }
}

impl AnimationTimer {
    /// This timer with no time passed.
    pub open spec fn after_reset(self) -> AnimationTimer {
        AnimationTimer { period_nanos: self.period_nanos, elapsed_nanos: 0 }
    }

    /// This timer after `delta_nanos` more have passed.
    pub open spec fn after_tick(self, delta_nanos: u64) -> AnimationTimer {
        AnimationTimer {
            period_nanos: self.period_nanos,
            elapsed_nanos: elapsed_after(
                self.period_nanos as nat,
                self.elapsed_nanos as nat,
                delta_nanos as nat,
            ) as u64,
        }
    }

    /// Whether the timer reports a completed period when `delta_nanos` more
    /// pass.
    pub open spec fn completes(self, delta_nanos: u64) -> bool {
        times_finished(self.period_nanos as nat, self.elapsed_nanos as nat, delta_nanos as nat) > 0
    }

    /// A timer of the given period at the start of its first period.
    pub fn new(period_nanos: u64) -> (timer: AnimationTimer)
        ensures
            timer.period_nanos == period_nanos,
            timer.elapsed_nanos == 0,
    {
        AnimationTimer { period_nanos, elapsed_nanos: 0 }
    }

    /// Starts the current period again.
    pub fn reset(&mut self)
        ensures
            *final(self) == old(self).after_reset(),
    {
        self.elapsed_nanos = 0;
    }

    /// Moves the timer on by `delta_nanos` and says whether a period was
    /// completed on the way. The time left over stays in the timer.
    pub fn tick(&mut self, delta_nanos: u64) -> (just_finished: bool)
        ensures
            *final(self) == old(self).after_tick(delta_nanos),
            just_finished == old(self).completes(delta_nanos),
    {
        let (elapsed_nanos, just_finished) = tick_repeating(
            self.period_nanos,
            self.elapsed_nanos,
            delta_nanos,
        );
        self.elapsed_nanos = elapsed_nanos;
        just_finished
    }
}

/// One call of Bevy's `Timer::tick`: on a timer made by `Timer::new` with
/// the given period in repeating mode and put at the given elapsed time by
/// `Timer::set_elapsed`. Returns `Timer::elapsed` and `Timer::just_finished`
/// as they are after the tick.
///
/// The contract is not proved. It says what the source of `bevy_time` does
/// with a repeating timer that is not paused: the tick adds `delta_nanos`
/// to the elapsed time (the sum of two times of 64 bits of nanoseconds is
/// within what the timer can hold); if the sum has reached the period, the
/// timer counts the whole periods in the sum, cuts the count to 32 bits,
/// and keeps the remainder as the elapsed time; a period of zero is always
/// reached, with the largest count and no time kept. `just_finished` holds
/// when the count is above zero.
#[verifier::external_body]
fn tick_repeating(period_nanos: u64, elapsed_nanos: u64, delta_nanos: u64) -> (after: (u64, bool))
    ensures
        after.0 == elapsed_after(period_nanos as nat, elapsed_nanos as nat, delta_nanos as nat),
        after.1 == (times_finished(period_nanos as nat, elapsed_nanos as nat, delta_nanos as nat)
            > 0),
{
    let mut timer = Timer::new(Duration::from_nanos(period_nanos), TimerMode::Repeating);
    timer.set_elapsed(Duration::from_nanos(elapsed_nanos));
    timer.tick(Duration::from_nanos(delta_nanos));
    (timer.elapsed().as_nanos() as u64, timer.just_finished())
}

} // verus!
