//! A stopwatch that can be paused and resumed without losing the time it has
//! already counted.
use std::time::Instant;
use vstd::prelude::*;

use crate::duration::{lemma_duration_bounded, max_nanos, saturating_add_spec, Duration};

verus! {

broadcast use lemma_duration_bounded;

/// `std::time::Instant`, carried through as an opaque value.
#[verifier::external_type_specification]
#[verifier::external_body]
pub struct ExInstant(std::time::Instant);

/// Relies on `Instant::now`: it reads the monotonic clock, so nothing is
/// promised of the value.
pub assume_specification[ std::time::Instant::now ]() -> std::time::Instant;

/// Relies on `Instant::elapsed` and `std::time::Duration::as_nanos`: the
/// nanoseconds that have passed since `start`. It depends on the clock, so
/// nothing is promised of the value.
#[verifier::external_body]
fn nanos_since(start: &Instant) -> u128 {
    start.elapsed().as_nanos()
}

/// Whether a timer is counting.
#[derive(Clone, Copy, Debug, PartialEq, Eq, Structural)]
pub enum TimerState {
    InProgress,
    Paused,
}

/// What a timer has counted, apart from the segment that is running now.
pub struct TimerView {
    /// Time banked by earlier running segments, in nanoseconds.
    pub accumulated: nat,
    pub running: bool,
}

impl TimerView {
    /// A timer that was just started or reset.
    pub open spec fn started() -> TimerView {
        TimerView { accumulated: 0, running: true }
    }

    /// What `elapsed` reports when the running segment has lasted `live`.
    pub open spec fn elapsed_at(self, live: nat) -> nat {
        if self.running {
            saturating_add_spec(self.accumulated, live)
        } else {
            self.accumulated
        }
    }

    /// The timer after a pause that ended a running segment of `live`.
    pub open spec fn pause_at(self, live: nat) -> TimerView {
        if self.running {
            TimerView { accumulated: saturating_add_spec(self.accumulated, live), running: false }
        } else {
            self
        }
    }

    /// The timer after a resume: the banked time is kept.
    pub open spec fn resumed(self) -> TimerView {
        TimerView { accumulated: self.accumulated, running: true }
    }
}

/// A pausable stopwatch.
#[derive(Debug)]
pub struct Timer {
    start_time: Instant,
    accumulated_time: Duration,
    state: TimerState,
}

impl View for Timer {
    type V = TimerView;

    closed spec fn view(&self) -> TimerView {
        TimerView {
            accumulated: self.accumulated_time@,
            running: self.state == TimerState::InProgress,
        }
    }
}

impl Default for Timer {
    /// A running timer with nothing counted yet.
    fn default() -> (r: Timer)
        ensures
            r@ == TimerView::started(),
    {
        Timer {
            start_time: Instant::now(),
            accumulated_time: Duration::zero(),
            state: TimerState::InProgress,
        }
    }
}

impl Timer {
    /// Whether the timer is counting.
    pub fn state(&self) -> (r: TimerState)
        ensures
            r == (if self@.running {
                TimerState::InProgress
            } else {
                TimerState::Paused
            }),
    {
        self.state
    }

    /// The length of the running segment so far, held at the largest span.
    fn live_segment(&self) -> Duration {
        let nanos = nanos_since(&self.start_time);
        if nanos > u64::MAX as u128 {
            Duration::from_nanos(u64::MAX)
        } else {
            Duration::from_nanos(nanos as u64)
        }
    }

    /// Discards everything counted and starts again from zero, running.
    pub fn reset_time(&mut self)
        ensures
            final(self)@ == TimerView::started(),
    {
        self.start_time = Instant::now();
        self.accumulated_time = Duration::zero();
        self.state = TimerState::InProgress;
    }

    /// Stops counting, banking the running segment. Does nothing on a paused
    /// timer.
    pub fn pause(&mut self)
        ensures
            exists|live: nat| live <= max_nanos() && final(self)@ == #[trigger] old(self)@.pause_at(live),
    {
        if self.state == TimerState::InProgress {
            let live = self.live_segment();
            self.pause_after(live);
        }
    }

    /// Stops counting as if the running segment had lasted `live`.
    pub fn pause_after(&mut self, live: Duration)
        ensures
            final(self)@ == old(self)@.pause_at(live@),
    {
        if self.state == TimerState::InProgress {
            self.accumulated_time = self.accumulated_time.saturating_add(live);
            self.state = TimerState::Paused;
        }
    }

    /// Starts a new running segment, keeping what was banked. Does nothing on
    /// a running timer.
    pub fn resume(&mut self)
        ensures
            final(self)@ == old(self)@.resumed(),
    {
        if self.state == TimerState::Paused {
            self.start_time = Instant::now();
            self.state = TimerState::InProgress;
        }
    }

    /// The time counted so far: the banked time, plus the running segment
    /// while the timer runs.
    pub fn elapsed(&self) -> (r: Duration)
        ensures
            exists|live: nat| live <= max_nanos() && r@ == #[trigger] self@.elapsed_at(live),
    {
        if self.state == TimerState::InProgress {
            let live = self.live_segment();
            self.elapsed_after(live)
        } else {
            self.accumulated_time
        }
    }

    /// The time counted if the running segment has lasted `live`.
    pub fn elapsed_after(&self, live: Duration) -> (r: Duration)
        ensures
            r@ == self@.elapsed_at(live@),
    {
        if self.state == TimerState::InProgress {
            self.accumulated_time.saturating_add(live)
        } else {
            self.accumulated_time
        }
    }
}

/// Right after a reset the timer runs and reports exactly the time that has
/// passed since the reset.
pub proof fn lemma_reset_then_elapsed(live: nat)
    requires
        live <= max_nanos(),
    ensures
        TimerView::started().running,
        TimerView::started().elapsed_at(live) == live,
{
}

/// Pausing a running timer and resuming it at once loses no time: after a
/// further segment it reports what it would have reported, over both segments,
/// had it never been paused.
pub proof fn lemma_pause_resume_keeps_elapsed(t: TimerView, live: nat, later: nat)
    requires
        t.running,
    ensures
        t.pause_at(live).resumed().elapsed_at(later) == t.elapsed_at(live + later),
{
}

/// The reported time never goes down as the running segment grows, and does
/// not move at all while the timer is paused.
pub proof fn lemma_elapsed_monotonic(t: TimerView, earlier: nat, later: nat)
    requires
        earlier <= later,
    ensures
        t.elapsed_at(earlier) <= t.elapsed_at(later),
        !t.running ==> t.elapsed_at(earlier) == t.elapsed_at(later),
{
}

} // verus!
