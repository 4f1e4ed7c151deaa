//! The tournament manager as a mathematical state machine: its state as
//! numbers, and each command as a function from state to state.
use vstd::prelude::*;
use crate::clock::ClockModel;
use crate::schedule::Schedule;
use crate::sequencer::{lemma_advance_settles, remaining_secs, SequencerModel};
use crate::signal::ClockRunningSignal;
use crate::snapshot::Snapshot;
use crate::time::later_of;
use crate::timeout::{TimeoutKind, TimeoutModel};

verus! {

/// The time zone in which scheduled starts are read, as an offset from UTC.
#[derive(Clone, Copy, Debug, PartialEq, Eq, Structural)]
pub struct Timezone {
    pub utc_offset_secs: i32,
}

/// The state of a tournament manager.
pub struct ManagerModel<S: Schedule> {
    pub config: S,
    pub clock: ClockModel,
    pub sequencer: SequencerModel<S>,
    pub timeout: TimeoutModel,
    pub signal: ClockRunningSignal,
    pub b_score: u8,
    pub w_score: u8,
    /// The length of a team timeout, in whole seconds.
    pub team_timeout_secs: u32,
    pub timezone: Timezone,
}

/// The length that a team timeout has unless another is configured.
pub const DEFAULT_TEAM_TIMEOUT_SECS: u32 = 60;

/// A later reading never shows more time left.
pub proof fn lemma_remaining_monotone(length: u32, early: int, late: int)
    requires
        early <= late,
    ensures
        remaining_secs(length, late) <= remaining_secs(length, early),
        0 <= remaining_secs(length, late) <= length,
{
}

impl<S: Schedule> ManagerModel<S> {
    /// The clock reading that counts for the period: while a timeout is
    /// active, the reading at which the timeout began.
    pub open spec fn period_reading(self) -> int {
        if self.timeout.is_active() {
            self.timeout.entered_at
        } else {
            self.clock.accumulated
        }
    }

    /// The internal invariants: the parts are well formed, the signal holds
    /// whether the clock runs, the current period began no later than the
    /// reading that counts for it, and no displayed countdown is ahead of
    /// the clock.
    pub open spec fn wf(self) -> bool {
        &&& self.clock.wf()
        &&& self.signal.value == self.clock.running
        &&& self.sequencer.wf()
        &&& self.timeout.wf()
        &&& self.sequencer.start <= self.period_reading() <= self.clock.accumulated
        &&& self.sequencer.state.secs_in_period >= self.sequencer.countdown(self.period_reading())
        &&& self.timeout.state.is_timed() ==> self.timeout.state.remaining_spec().unwrap()
            >= self.timeout.countdown(self.clock.accumulated)
    }

    /// A manager whose contest waits to be started, with a stopped clock.
    pub open spec fn initial(config: S) -> Self {
        ManagerModel {
            config,
            clock: ClockModel::zero(),
            sequencer: SequencerModel::initial(config),
            timeout: TimeoutModel::none(),
            signal: ClockRunningSignal { value: false, version: 0 },
            b_score: 0,
            w_score: 0,
            team_timeout_secs: DEFAULT_TEAM_TIMEOUT_SECS,
            timezone: Timezone { utc_offset_secs: 0 },
        }
    }

    /// The clock started at `now` and the start published. A manager whose
    /// clock runs stays as it is.
    pub open spec fn start_clock(self, now: int) -> Self {
        if self.clock.running {
            self
        } else {
            ManagerModel {
                clock: self.clock.start(now),
                signal: self.signal.publish_spec(true),
                ..self
            }
        }
    }

    /// The clock stopped at `now` and the stop published. A manager whose
    /// clock stands stays as it is.
    pub open spec fn stop_clock(self, now: int) -> Self {
        if self.clock.running {
            ManagerModel {
                clock: self.clock.stop(now),
                signal: self.signal.publish_spec(false),
                ..self
            }
        } else {
            self
        }
    }

    /// Back to the initial period with a stopped clock at zero, no timeout
    /// and no score. The configuration stays. The stop of a running clock is
    /// published.
    pub open spec fn reset(self, now: int) -> Self {
        ManagerModel {
            clock: self.clock.stop(now).reset(now),
            sequencer: SequencerModel::initial(self.config),
            timeout: TimeoutModel::none(),
            signal: if self.clock.running {
                self.signal.publish_spec(false)
            } else {
                self.signal
            },
            b_score: 0,
            w_score: 0,
            ..self
        }
    }

    /// Whether the contest waits to be started.
    pub open spec fn can_start(self) -> bool {
        self.sequencer.state.current == S::initial_spec()
    }

    /// The contest started at `now`: the first period begins with the length
    /// queued for it, if any, and the clock runs from zero, which is
    /// published. A manager whose contest is under way stays as it is.
    pub open spec fn start(self, now: int) -> Self {
        if self.can_start() {
            ManagerModel {
                clock: self.clock.stop(now).reset(now).start(now),
                sequencer: self.sequencer.enter(self.config, S::first_spec(), 0),
                timeout: TimeoutModel::none(),
                signal: self.signal.publish_spec(true),
                b_score: 0,
                w_score: 0,
                ..self
            }
        } else {
            self
        }
    }

    /// A timeout of `kind` begun at `now`: the clock takes note of `now`,
    /// and the timeout begins at that reading. A manager with an active
    /// timeout stays as it is.
    pub open spec fn enter_timeout(self, kind: TimeoutKind, now: int) -> Self {
        if self.timeout.is_active() {
            self
        } else {
            let clock = self.clock.advance(now);
            ManagerModel {
                clock,
                timeout: TimeoutModel::begin(kind, self.team_timeout_secs, clock.accumulated),
                ..self
            }
        }
    }

    /// The timeout ended at `now`: the period goes on from the reading at
    /// which the timeout froze it. A manager without a timeout stays as it
    /// is.
    pub open spec fn cancel_timeout(self, now: int) -> Self {
        if self.timeout.is_active() {
            let clock = self.clock.advance(now);
            ManagerModel {
                clock,
                sequencer: self.sequencer.shift(clock.accumulated - self.timeout.entered_at),
                timeout: TimeoutModel::none(),
                ..self
            }
        } else {
            self
        }
    }

    /// The manager brought up to `now`. The clock takes note of `now`. With
    /// no timeout, the sequencer is brought up to the clock. A team timeout
    /// that has run down ends at the instant at which it ran down, and the
    /// period goes on from there; one that has not is counted down. During
    /// any other timeout nothing moves.
    pub open spec fn update(self, now: int) -> Self {
        let clock = self.clock.advance(now);
        let at = clock.accumulated;
        if !self.timeout.is_active() {
            ManagerModel { clock, sequencer: self.sequencer.advance(self.config, at), ..self }
        } else if self.timeout.expired(at) {
            ManagerModel {
                clock,
                sequencer: self.sequencer.shift(self.timeout.length * 1000).advance(
                    self.config,
                    at,
                ),
                timeout: TimeoutModel::none(),
                ..self
            }
        } else if self.timeout.state.is_timed() {
            ManagerModel { clock, timeout: self.timeout.refresh(at), ..self }
        } else {
            ManagerModel { clock, ..self }
        }
    }

    /// The lengths changed to those of `config`, from the next transition
    /// on: the period in progress keeps its length.
    pub open spec fn set_period_lengths(self, config: S) -> Self {
        ManagerModel { config, sequencer: self.sequencer.queue(config), ..self }
    }

    /// What is handed out for display.
    pub open spec fn snapshot(self) -> Snapshot<S::Period> {
        Snapshot {
            current_period: self.sequencer.state.current,
            secs_in_period: self.sequencer.state.secs_in_period,
            timeout: self.timeout.state,
            b_score: self.b_score,
            w_score: self.w_score,
            next_period_len_secs: self.sequencer.state.next_period_len_secs,
            is_old_game: self.sequencer.is_old_game,
            level: S::level_spec(self.sequencer.state.current),
        }
    }

    /// Whether something that runs down is on display at clock reading
    /// `at`: a team timeout, or, with no timeout, a period with a time limit
    /// that is not used up for good.
    pub open spec fn counting(self, at: int) -> bool {
        if self.timeout.is_active() {
            self.timeout.state.is_timed()
        } else {
            self.sequencer.length is Some && (!self.sequencer.exhausted(at)
                || self.config.successor_spec(self.sequencer.state.current) is Some)
        }
    }

    /// Milliseconds from clock reading `at` to the next reading at which
    /// the display can change, while something is counting: the lesser of
    /// the time to the next whole second of what counts and the time to its
    /// end, and 1 where the end has already passed.
    pub open spec fn time_to_change(self, at: int) -> int {
        let (begun, length) = if self.timeout.is_active() {
            (self.timeout.entered_at, self.timeout.length)
        } else {
            (self.sequencer.start, SequencerModel::<S>::full(self.sequencer.length))
        };
        let gone = at - begun;
        let to_second = 1000 - gone % 1000;
        let to_end = length * 1000 - gone;
        if to_end <= 0 {
            1
        } else if to_end < to_second {
            to_end
        } else {
            to_second
        }
    }

    /// The earliest instant after `now` at which an update can change what
    /// is displayed, while the clock runs and something is counting.
    pub open spec fn next_update_time(self, now: int) -> Option<int> {
        let at = self.clock.elapsed(now);
        let next = later_of(now, self.clock.anchor) + self.time_to_change(at);
        if self.clock.running && self.counting(at) && next <= u64::MAX {
            Some(next)
        } else {
            None
        }
    }
}

/// Every command keeps the internal invariants.
pub proof fn lemma_commands_keep_wf<S: Schedule>(m: ManagerModel<S>, now: int)
    requires
        m.wf(),
        0 <= now,
    ensures
        m.start_clock(now).wf(),
        m.stop_clock(now).wf(),
        m.reset(now).wf(),
        m.start(now).wf(),
        m.cancel_timeout(now).wf(),
        m.update(now).wf(),
        forall|kind: TimeoutKind| (#[trigger] m.enter_timeout(kind, now)).wf(),
        forall|config: S| (#[trigger] m.set_period_lengths(config)).wf(),
{
    lemma_update_keeps_wf(m, now);
    let at = m.clock.advance(now).accumulated;
    lemma_remaining_monotone(
        SequencerModel::<S>::full(m.sequencer.length),
        m.period_reading() - m.sequencer.start,
        at - m.sequencer.start,
    );
}

/// An update keeps the internal invariants.
pub proof fn lemma_update_keeps_wf<S: Schedule>(m: ManagerModel<S>, now: int)
    requires
        m.wf(),
        0 <= now,
    ensures
        m.update(now).wf(),
{
    let at = m.clock.advance(now).accumulated;
    if !m.timeout.is_active() {
        lemma_advance_settles(m.sequencer, m.config, at);
    } else if m.timeout.expired(at) {
        lemma_advance_settles(m.sequencer.shift(m.timeout.length * 1000), m.config, at);
    } else if m.timeout.state.is_timed() {
        lemma_remaining_monotone(m.timeout.length, 0, at - m.timeout.entered_at);
    }
}

/// The initial manager satisfies the internal invariants.
pub proof fn lemma_initial_wf<S: Schedule>(config: S)
    ensures
        ManagerModel::initial(config).wf(),
{
}

} // verus!
