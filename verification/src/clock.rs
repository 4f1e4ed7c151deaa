//! A pausable accumulator of elapsed time.
use vstd::prelude::*;
use crate::time::{later_of, Instant};

verus! {

/// Why a clock command was refused.
#[derive(Clone, Copy, Debug, PartialEq, Eq, Structural)]
pub enum ClockError {
    /// `start` on a clock that is running.
    AlreadyRunning,
    /// `stop` on a clock that is not running.
    NotRunning,
}

/// What a [`Clock`] is, as numbers: whether it runs, the latest instant at
/// which it was started, stopped or re-anchored, and the time it had
/// accumulated by then, in milliseconds.
pub struct ClockModel {
    pub running: bool,
    pub anchor: int,
    pub accumulated: int,
}

impl ClockModel {
    /// The accumulated time never exceeds the length of the time line up to
    /// the anchor.
    pub open spec fn wf(self) -> bool {
        0 <= self.accumulated <= self.anchor
    }

    /// A stopped clock that has accumulated nothing.
    pub open spec fn zero() -> ClockModel {
        ClockModel { running: false, anchor: 0, accumulated: 0 }
    }

    /// Elapsed time as read at `now`: what was accumulated, plus the time
    /// since the anchor while the clock runs. An instant before the anchor
    /// reads as the anchor.
    pub open spec fn elapsed(self, now: int) -> int {
        if self.running && now > self.anchor {
            self.accumulated + (now - self.anchor)
        } else {
            self.accumulated
        }
    }

    /// The clock started at `now`. A running clock stays as it is.
    pub open spec fn start(self, now: int) -> ClockModel {
        if self.running {
            self
        } else {
            ClockModel { running: true, anchor: later_of(self.anchor, now), ..self }
        }
    }

    /// The clock stopped at `now`, with the time elapsed until then kept. A
    /// stopped clock stays as it is.
    pub open spec fn stop(self, now: int) -> ClockModel {
        if self.running {
            ClockModel {
                running: false,
                anchor: later_of(self.anchor, now),
                accumulated: self.elapsed(now),
            }
        } else {
            self
        }
    }

    /// The clock back at zero. A running clock runs on, from zero at `now`.
    pub open spec fn reset(self, now: int) -> ClockModel {
        ClockModel {
            running: self.running,
            anchor: if self.running {
                later_of(self.anchor, now)
            } else {
                self.anchor
            },
            accumulated: 0,
        }
    }

    /// The clock after it has taken note of `now`: the time elapsed by `now`
    /// is folded into the accumulated time, and the anchor moves to `now`.
    /// Readings at `now` or later are unchanged by this.
    pub open spec fn advance(self, now: int) -> ClockModel {
        ClockModel {
            running: self.running,
            anchor: later_of(self.anchor, now),
            accumulated: self.elapsed(now),
        }
    }
}

/// Elapsed time never decreases but by a reset: a later reading is never
/// less than an earlier one, and after the clock was started, stopped or
/// made to take note of `now`, no reading at `now` or later is less than
/// the reading at `now` was before. A start and a taking note change no
/// reading at `now` or later at all.
pub proof fn law_elapsed_never_decreases(clock: ClockModel, now: int, earlier: int, later: int)
    requires
        clock.wf(),
        earlier <= later,
        now <= later,
    ensures
        0 <= clock.elapsed(earlier) <= clock.elapsed(later),
        clock.elapsed(now) <= clock.start(now).elapsed(later),
        clock.elapsed(now) <= clock.stop(now).elapsed(later),
        clock.stop(now).elapsed(later) == clock.elapsed(now),
        clock.running ==> clock.start(now).elapsed(later) == clock.elapsed(later),
        clock.advance(now).elapsed(later) == clock.elapsed(later),
        clock.reset(now).elapsed(now) == 0,
{
}

/// A pausable elapsed-time accumulator. It knows nothing of periods.
///
/// Timestamps are expected to come from a monotonic source. One that lies
/// before the latest instant the clock has seen is read as that instant, so
/// elapsed time never runs backwards.
#[derive(Clone, Copy, Debug)]
pub struct Clock {
    running: bool,
    anchor: u64,
    accumulated: u64,
}

impl View for Clock {
    type V = ClockModel;

    closed spec fn view(&self) -> ClockModel {
        ClockModel {
            running: self.running,
            anchor: self.anchor as int,
            accumulated: self.accumulated as int,
        }
    }
}

impl Clock {
    /// Validity of a clock: its model is well formed.
    pub open spec fn wf(&self) -> bool {
        self@.wf()
    }

    /// A stopped clock at zero.
    pub fn new() -> (clock: Clock)
        ensures
            clock@ == ClockModel::zero(),
            clock.wf(),
    {
        Clock { running: false, anchor: 0, accumulated: 0 }
    }

    /// Whether the clock is running.
    pub fn is_running(&self) -> (running: bool)
        ensures
            running == self@.running,
    {
        self.running
    }

    /// The time accumulated up to the anchor, in milliseconds.
    pub fn accumulated(&self) -> (ms: u64)
        ensures
            ms == self@.accumulated,
    {
        self.accumulated
    }

    /// The latest instant at which the clock was started, stopped or
    /// re-anchored.
    pub fn anchor(&self) -> (at: Instant)
        ensures
            at@ == self@.anchor,
    {
        Instant { millis: self.anchor }
    }

    /// Starts the clock at `now`. A running clock is left as it is and
    /// reports `AlreadyRunning`.
    pub fn start(&mut self, now: Instant) -> (res: Result<(), ClockError>)
        requires
            old(self).wf(),
        ensures
            final(self).wf(),
            final(self)@ == old(self)@.start(now@),
            old(self)@.running ==> res == Err::<(), ClockError>(ClockError::AlreadyRunning),
            !old(self)@.running ==> res == Ok::<(), ClockError>(()),
    {
        if self.running {
            Err(ClockError::AlreadyRunning)
        } else {
            if now.millis > self.anchor {
                self.anchor = now.millis;
            }
            self.running = true;
            Ok(())
        }
    }

    /// Stops the clock at `now`, keeping the time elapsed until then. A
    /// stopped clock is left as it is and reports `NotRunning`.
    pub fn stop(&mut self, now: Instant) -> (res: Result<(), ClockError>)
        requires
            old(self).wf(),
        ensures
            final(self).wf(),
            final(self)@ == old(self)@.stop(now@),
            old(self)@.running ==> res == Ok::<(), ClockError>(()),
            !old(self)@.running ==> res == Err::<(), ClockError>(ClockError::NotRunning),
    {
        if self.running {
            let total: u64 = self.elapsed(now);
            if now.millis > self.anchor {
                self.anchor = now.millis;
            }
            self.accumulated = total;
            self.running = false;
            Ok(())
        } else {
            Err(ClockError::NotRunning)
        }
    }

    /// Elapsed time in milliseconds as read at `now`, whether or not the
    /// clock is running.
    pub fn elapsed(&self, now: Instant) -> (ms: u64)
        requires
            self.wf(),
        ensures
            ms == self@.elapsed(now@),
    {
        if self.running && now.millis > self.anchor {
            self.accumulated + (now.millis - self.anchor)
        } else {
            self.accumulated
        }
    }

    /// Sets the elapsed time back to zero. A running clock keeps running,
    /// from zero at `now`.
    pub fn reset(&mut self, now: Instant)
        requires
            old(self).wf(),
        ensures
            final(self).wf(),
            final(self)@ == old(self)@.reset(now@),
    {
        if self.running && now.millis > self.anchor {
            self.anchor = now.millis;
        }
        self.accumulated = 0;
    }

    /// Takes note of `now`: folds the time elapsed by `now` into the
    /// accumulated time and returns it, in milliseconds.
    pub fn advance(&mut self, now: Instant) -> (ms: u64)
        requires
            old(self).wf(),
        ensures
            final(self).wf(),
            final(self)@ == old(self)@.advance(now@),
            ms == final(self)@.accumulated,
    {
        let total: u64 = self.elapsed(now);
        if now.millis > self.anchor {
            self.anchor = now.millis;
        }
        self.accumulated = total;
        total
    }
}

} // verus!
