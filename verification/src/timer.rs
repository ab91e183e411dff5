//! The single-shot countdown that paces an animation.

use bevy::time::{Timer, TimerMode};
use std::time::Duration;
use vstd::prelude::*;

verus! {

/// Nanoseconds in one second.
pub const NANOS_PER_SECOND: u64 = 1_000_000_000;

/// Mathematical state of a single-shot countdown, in nanoseconds.
pub struct Countdown {
    /// Time after which the countdown expires.
    pub period: nat,
    /// Time counted so far; it stops at `period`.
    pub elapsed: nat,
}

impl Countdown {
    /// A countdown never counts past its period, and its period is not empty.
    pub open spec fn wf(self) -> bool {
        0 < self.period && self.elapsed <= self.period
    }

    /// A countdown that has just been started.
    pub open spec fn fresh(period: nat) -> Countdown {
        Countdown { period, elapsed: 0 }
    }

    /// The countdown has expired.
    pub open spec fn finished(self) -> bool {
        self.elapsed >= self.period
    }

    /// Counting `delta` more is what makes the countdown expire.
    pub open spec fn fires(self, delta: nat) -> bool {
        self.elapsed < self.period && self.elapsed + delta >= self.period
    }

    /// The countdown after `delta` more has passed: time adds up until the
    /// period is reached and stays there.
    pub open spec fn tick(self, delta: nat) -> Countdown {
        Countdown {
            period: self.period,
            elapsed: if self.elapsed + delta >= self.period {
                self.period
            } else {
                self.elapsed + delta
            },
        }
    }
}

/// Length of one frame at `fps` frames per second: the least whole number of
/// nanoseconds that is no shorter than `1 / fps` seconds.
pub open spec fn period_of_fps(fps: nat) -> nat
    recommends
        fps > 0,
{
    ((NANOS_PER_SECOND + fps - 1) / (fps as int)) as nat
}

/// A time in whole nanoseconds has reached `period_of_fps(fps)` exactly when
/// it has reached `1 / fps` seconds.
pub proof fn lemma_period_is_one_over_fps(fps: nat, elapsed: nat)
    requires
        fps > 0,
    ensures
        elapsed >= period_of_fps(fps) <==> elapsed * fps >= NANOS_PER_SECOND,
        period_of_fps(fps) > 0,
{
    let n = NANOS_PER_SECOND as int;
    let f = fps as int;
    let e = elapsed as int;
    let p = (n + f - 1) / f;
    assert(p * f <= n + f - 1 < p * f + f && p >= 1) by (nonlinear_arith)
        requires
            f > 0,
            n >= 1,
            p == (n + f - 1) / f,
    ;
    assert(e >= p <==> e * f >= n) by (nonlinear_arith)
        requires
            f > 0,
            e >= 0,
            p * f <= n + f - 1 < p * f + f,
    ;
}

/// Length of one frame at `fps` frames per second, in nanoseconds.
pub fn frame_period_nanos(fps: u8) -> (period: u64)
    requires
        fps > 0,
    ensures
        period == period_of_fps(fps as nat),
        0 < period <= NANOS_PER_SECOND,
{
    let f: u64 = fps as u64;
    let period: u64 = (NANOS_PER_SECOND + f - 1) / f;
    proof {
        lemma_period_is_one_over_fps(fps as nat, period as nat);
        lemma_period_is_one_over_fps(fps as nat, NANOS_PER_SECOND as nat);
        assert(NANOS_PER_SECOND * (fps as nat) >= NANOS_PER_SECOND) by (nonlinear_arith)
            requires
                fps > 0,
        ;
    }
    period
}

/// A single-shot countdown: it counts the time handed to [`FrameTimer::tick`]
/// until its period is reached, reports that once, and then stays expired.
#[derive(Clone, Copy, Debug, PartialEq, Eq)]
pub struct FrameTimer {
    period_nanos: u64,
    elapsed_nanos: u64,
}

impl View for FrameTimer {
    type V = Countdown;

    closed spec fn view(&self) -> Countdown {
        Countdown { period: self.period_nanos as nat, elapsed: self.elapsed_nanos as nat }
    }
}

/// One step of a `bevy::time::Timer` in `TimerMode::Once`, on plain
/// nanosecond counts.  A timer made by `Timer::new` with duration `period` is
/// ticked by `elapsed`, which puts it where a countdown that has counted
/// `elapsed` stands, and then by `delta`.  The result is what
/// `Timer::elapsed` and `Timer::just_finished` report after that.
///
/// Trusted, as read from `Timer::tick`: a once-timer that has not finished
/// adds the time of a tick to its elapsed time; it finishes when the sum
/// reaches its duration and then holds exactly its duration as elapsed time;
/// `just_finished` is true after the tick on which it finished and false
/// after every other tick; a finished once-timer is left as it is by a tick.
#[verifier::external_body]
fn once_timer_tick(period: u64, elapsed: u64, delta: u64) -> (r: (u64, bool))
    ensures
        r.0 == (if elapsed + delta >= period {
            period as int
        } else {
            elapsed + delta
        }),
        r.1 == (elapsed < period && elapsed + delta >= period),
{
    let mut timer = Timer::new(Duration::from_nanos(period), TimerMode::Once);
    timer.tick(Duration::from_nanos(elapsed));
    timer.tick(Duration::from_nanos(delta));
    (timer.elapsed().as_nanos() as u64, timer.just_finished())
}

impl FrameTimer {
    /// Starts a countdown of `period_nanos` nanoseconds.
    pub fn once(period_nanos: u64) -> (timer: FrameTimer)
        requires
            period_nanos > 0,
        ensures
            timer@ == Countdown::fresh(period_nanos as nat),
            timer@.wf(),
    {
        FrameTimer { period_nanos, elapsed_nanos: 0 }
    }

    /// The time after which the countdown expires, in nanoseconds.
    pub fn period_nanos(&self) -> (period: u64)
        ensures
            period == self@.period,
    {
        self.period_nanos
    }

    /// The time counted so far, in nanoseconds.
    pub fn elapsed_nanos(&self) -> (elapsed: u64)
        ensures
            elapsed == self@.elapsed,
    {
        self.elapsed_nanos
    }

    /// Whether the countdown has expired.
    pub fn is_finished(&self) -> (finished: bool)
        ensures
            finished == self@.finished(),
    {
        self.elapsed_nanos >= self.period_nanos
    }

    /// Counts `delta_nanos` more nanoseconds.  Returns `true` on the one
    /// call on which the countdown expires.
    pub fn tick(&mut self, delta_nanos: u64) -> (just_finished: bool)
        ensures
            final(self)@ == old(self)@.tick(delta_nanos as nat),
            just_finished == old(self)@.fires(delta_nanos as nat),
    {
        let (elapsed, just_finished) = once_timer_tick(
            self.period_nanos,
            self.elapsed_nanos,
            delta_nanos,
        );
        self.elapsed_nanos = elapsed;
        just_finished
    }
}

} // verus!
