//! Timers and random draws, provided by `bevy` and `rand`.
//!
//! A bevy `Timer` is held in a `Countdown` together with a model of its state
//! (duration, mode, elapsed time, whether it has finished, and whether it
//! finished during the last tick). Only the calls below touch the timer, and
//! each states how it changes the model, as bevy's source does it for a timer
//! that is never paused (no call here pauses one). Times are in nanoseconds.

use bevy::time::{Timer, TimerMode};
use rand::Rng;
use std::time::Duration;
use vstd::prelude::*;

verus! {

#[verifier::external_type_specification]
#[verifier::external_body]
pub struct ExTimer(Timer);

/// Whether a timer stops when it reaches its duration or starts over.
#[derive(Clone, Copy, Debug, PartialEq, Eq, Structural)]
pub enum TimerKind {
    Once,
    Repeating,
}

/// The state of a timer.
pub struct TimerModel {
    pub duration_ns: nat,
    pub kind: TimerKind,
    pub elapsed_ns: nat,
    /// The timer has reached its duration (a one-shot timer stays so until
    /// reset; a repeating one only for the tick in which it wrapped).
    pub finished: bool,
    /// The timer reached its duration at least once during the last tick.
    pub just_finished: bool,
}

/// A timer just made: nothing elapsed, not finished.
pub open spec fn fresh_timer(duration_ns: nat, kind: TimerKind) -> TimerModel {
    TimerModel { duration_ns, kind, elapsed_ns: 0, finished: false, just_finished: false }
}

/// A timer after running for `delta_ns` more nanoseconds.
///
/// A finished one-shot timer does not move. Otherwise the elapsed time grows
/// by `delta_ns`; reaching the duration finishes the timer. A one-shot timer
/// then stops at its duration; a repeating one keeps the remainder and counts
/// how many times it wrapped, as a `u32` (so it reports a finish whenever that
/// count is not a multiple of 2^32; a zero duration counts `u32::MAX`).
pub open spec fn after_tick(t: TimerModel, delta_ns: nat) -> TimerModel {
    if t.kind == TimerKind::Once && t.finished {
        TimerModel { just_finished: false, ..t }
    } else {
        let e = t.elapsed_ns + delta_ns;
        if e >= t.duration_ns {
            if t.kind == TimerKind::Repeating {
                if t.duration_ns == 0 {
                    TimerModel { elapsed_ns: 0, finished: true, just_finished: true, ..t }
                } else {
                    TimerModel {
                        elapsed_ns: e % t.duration_ns,
                        finished: true,
                        just_finished: (e / t.duration_ns) % 0x1_0000_0000 != 0,
                        ..t
                    }
                }
            } else {
                TimerModel { elapsed_ns: t.duration_ns, finished: true, just_finished: true, ..t }
            }
        } else {
            TimerModel { elapsed_ns: e, finished: false, just_finished: false, ..t }
        }
    }
}

/// A timer started over: nothing elapsed, not finished.
pub open spec fn after_reset(t: TimerModel) -> TimerModel {
    TimerModel { elapsed_ns: 0, finished: false, just_finished: false, ..t }
}

/// A timer given a new duration; nothing else changes.
pub open spec fn with_duration(t: TimerModel, duration_ns: nat) -> TimerModel {
    TimerModel { duration_ns, ..t }
}

/// A bevy timer and the model of its state.
pub struct Countdown {
    timer: Timer,
    model: Ghost<TimerModel>,
}

impl View for Countdown {
    type V = TimerModel;

    closed spec fn view(&self) -> TimerModel {
        self.model@
    }
}

impl Countdown {
    /// Calls `bevy::time::Timer::new` with a duration of `duration_ns`
    /// nanoseconds: bevy starts it with nothing elapsed, not finished, not
    /// paused.
    #[verifier::external_body]
    pub(crate) fn new(duration_ns: u64, kind: TimerKind) -> (c: Countdown)
        ensures
            c@ == fresh_timer(duration_ns as nat, kind),
    {
        let mode = match kind {
            TimerKind::Once => TimerMode::Once,
            TimerKind::Repeating => TimerMode::Repeating,
        };
        Countdown { timer: Timer::new(Duration::from_nanos(duration_ns), mode), model: Ghost(fresh_timer(duration_ns as nat, kind)) }
    }

    /// Calls `bevy::time::Timer::tick` with `delta_ns` nanoseconds: its state
    /// changes as `after_tick` says.
    #[verifier::external_body]
    pub(crate) fn tick(&mut self, delta_ns: u64)
        ensures
            final(self)@ == after_tick(old(self)@, delta_ns as nat),
    {
        self.timer.tick(Duration::from_nanos(delta_ns));
    }

    /// Calls `bevy::time::Timer::is_finished`, which reads the finished flag.
    #[verifier::external_body]
    pub(crate) fn is_finished(&self) -> (r: bool)
        ensures
            r == self@.finished,
    {
        self.timer.is_finished()
    }

    /// Calls `bevy::time::Timer::just_finished`, which tells whether the last
    /// tick finished the timer at least once.
    #[verifier::external_body]
    pub(crate) fn just_finished(&self) -> (r: bool)
        ensures
            r == self@.just_finished,
    {
        self.timer.just_finished()
    }

    /// Calls `bevy::time::Timer::reset`: nothing elapsed, not finished.
    #[verifier::external_body]
    pub(crate) fn reset(&mut self)
        ensures
            final(self)@ == after_reset(old(self)@),
    {
        self.timer.reset();
    }

    /// Calls `bevy::time::Timer::set_duration` with `duration_ns`
    /// nanoseconds: only the duration changes.
    #[verifier::external_body]
    pub(crate) fn set_duration(&mut self, duration_ns: u64)
        ensures
            final(self)@ == with_duration(old(self)@, duration_ns as nat),
    {
        self.timer.set_duration(Duration::from_nanos(duration_ns));
    }
}

/// Calls `rand::Rng::random_range` on the thread-local generator
/// (`rand::rng()`) over `0..bound`. As `rand` documents, the draw lies in the
/// range; the range must not be empty, or the call panics.
#[verifier::external_body]
pub(crate) fn random_below(bound: u32) -> (r: u32)
    requires
        bound > 0,
    ensures
        r < bound,
{
    rand::rng().random_range(0..bound)
}

} // verus!
