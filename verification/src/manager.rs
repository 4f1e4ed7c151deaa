//! The tournament manager: one owner of clock, sequencer and timeout
//! overlay, with the commands and queries of the contest.
use vstd::prelude::*;
use crate::clock::Clock;
use crate::model::{
    lemma_commands_keep_wf, lemma_initial_wf, ManagerModel, Timezone, DEFAULT_TEAM_TIMEOUT_SECS,
};
use crate::schedule::{BeepTestPeriod, Levels, Schedule};
use crate::sequencer::{remaining, PeriodState, Sequencer};
use crate::signal::{ClockRunningReceiver, ClockRunningSignal};
use crate::snapshot::Snapshot;
use crate::time::Instant;
use crate::timeout::{TimeoutKind, TimeoutOverlay, TimeoutState};

verus! {

/// Why the manager refused a command.
#[derive(Clone, Copy, Debug, PartialEq, Eq, Structural)]
pub enum TournamentError {
    /// The clock was to be started and is running.
    AlreadyRunning,
    /// The clock was to be stopped and is not running.
    NotRunning,
    /// The command is not legal in the current state.
    InvalidTransition,
    /// A timeout was to begin while the named one is active.
    TimeoutConflict(TimeoutKind),
}

/// The game clock of one contest with schedule `S`.
///
/// The state is reached through the commands and queries only. Time moves
/// when a caller says so: every command that depends on time takes the
/// caller's monotonic timestamp.
#[derive(Debug)]
pub struct TournamentManager<S: Schedule> {
    config: S,
    clock: Clock,
    sequencer: Sequencer<S>,
    timeout: TimeoutOverlay,
    signal: ClockRunningSignal,
    b_score: u8,
    w_score: u8,
    team_timeout_secs: u32,
    timezone: Timezone,
}

impl<S: Schedule> View for TournamentManager<S> {
    type V = ManagerModel<S>;

    closed spec fn view(&self) -> ManagerModel<S> {
        ManagerModel {
            config: self.config,
            clock: self.clock@,
            sequencer: self.sequencer@,
            timeout: self.timeout@,
            signal: self.signal,
            b_score: self.b_score,
            w_score: self.w_score,
            team_timeout_secs: self.team_timeout_secs,
            timezone: self.timezone,
        }
    }
}

impl<S: Schedule> TournamentManager<S> {
    /// The internal invariants hold.
    pub open spec fn wf(&self) -> bool {
        self@.wf()
    }

    /// A manager for a contest with the period lengths of `config`. The
    /// contest waits in its initial period, and the clock is stopped.
    pub fn new(config: S) -> (manager: Self)
        ensures
            manager@ == ManagerModel::initial(config),
            manager.wf(),
    {
        proof {
            lemma_initial_wf(config);
        }
        let sequencer: Sequencer<S> = Sequencer::new(&config);
        TournamentManager {
            config,
            clock: Clock::new(),
            sequencer,
            timeout: TimeoutOverlay::new(),
            signal: ClockRunningSignal::new(false),
            b_score: 0,
            w_score: 0,
            team_timeout_secs: DEFAULT_TEAM_TIMEOUT_SECS,
            timezone: Timezone { utc_offset_secs: 0 },
        }
    }

    /// Starts the clock and publishes that it runs. Refused with
    /// `AlreadyRunning`, and without any effect, where it runs already.
    pub fn start_clock(&mut self, now: Instant) -> (res: Result<(), TournamentError>)
        requires
            old(self).wf(),
        ensures
            final(self).wf(),
            final(self)@ == old(self)@.start_clock(now@),
            res == if old(self)@.clock.running {
                Err::<(), TournamentError>(TournamentError::AlreadyRunning)
            } else {
                Ok::<(), TournamentError>(())
            },
    {
        proof {
            lemma_commands_keep_wf(self@, now@);
        }
        match self.clock.start(now) {
            Ok(()) => {
                self.signal.publish(true);
                Ok(())
            },
            Err(_) => Err(TournamentError::AlreadyRunning),
        }
    }

    /// Stops the clock and publishes that it stands. Refused with
    /// `NotRunning`, and without any effect, where it stands already.
    pub fn stop_clock(&mut self, now: Instant) -> (res: Result<(), TournamentError>)
        requires
            old(self).wf(),
        ensures
            final(self).wf(),
            final(self)@ == old(self)@.stop_clock(now@),
            res == if old(self)@.clock.running {
                Ok::<(), TournamentError>(())
            } else {
                Err::<(), TournamentError>(TournamentError::NotRunning)
            },
    {
        proof {
            lemma_commands_keep_wf(self@, now@);
        }
        match self.clock.stop(now) {
            Ok(()) => {
                self.signal.publish(false);
                Ok(())
            },
            Err(_) => Err(TournamentError::NotRunning),
        }
    }

    /// Puts the contest back into its initial period, with the clock
    /// stopped at zero, no timeout and no score. The configuration stays.
    /// Where the clock was running, its stop is published.
    pub fn reset_now(&mut self, now: Instant)
        requires
            old(self).wf(),
        ensures
            final(self).wf(),
            final(self)@ == old(self)@.reset(now@),
    {
        proof {
            lemma_commands_keep_wf(self@, now@);
        }
        match self.clock.stop(now) {
            Ok(()) => {
                self.signal.publish(false);
            },
            Err(_) => {},
        }
        self.clock.reset(now);
        self.sequencer = Sequencer::new(&self.config);
        self.timeout.clear();
        self.b_score = 0;
        self.w_score = 0;
    }

    /// Starts the contest: the first period begins at `now` with the
    /// clock running from zero, which is published. Refused with
    /// `InvalidTransition`, and without any effect, unless the contest
    /// waits in its initial period.
    pub fn start_now(&mut self, now: Instant) -> (res: Result<(), TournamentError>)
        requires
            old(self).wf(),
        ensures
            final(self).wf(),
            final(self)@ == old(self)@.start(now@),
            res == if old(self)@.can_start() {
                Ok::<(), TournamentError>(())
            } else {
                Err::<(), TournamentError>(TournamentError::InvalidTransition)
            },
    {
        proof {
            lemma_commands_keep_wf(self@, now@);
        }
        if !S::is_initial(self.sequencer.current()) {
            return Err(TournamentError::InvalidTransition);
        }
        match self.clock.stop(now) {
            _ => {},
        }
        self.clock.reset(now);
        match self.clock.start(now) {
            _ => {},
        }
        self.sequencer.enter(&self.config, S::first(), 0);
        self.timeout.clear();
        self.signal.publish(true);
        self.b_score = 0;
        self.w_score = 0;
        Ok(())
    }

    /// Begins a timeout of `kind` at `now`. The period countdown stands
    /// still while the timeout lasts; a team timeout runs down from the
    /// configured length. Refused with `TimeoutConflict`, which names the
    /// timeout that is active, and without any effect, where one is active.
    pub fn enter_timeout(&mut self, kind: TimeoutKind, now: Instant) -> (res: Result<
        (),
        TournamentError,
    >)
        requires
            old(self).wf(),
        ensures
            final(self).wf(),
            final(self)@ == old(self)@.enter_timeout(kind, now@),
            res == match old(self)@.timeout.state.kind_spec() {
                Some(active) => Err::<(), TournamentError>(
                    TournamentError::TimeoutConflict(active),
                ),
                None => Ok::<(), TournamentError>(()),
            },
    {
        proof {
            lemma_commands_keep_wf(self@, now@);
        }
        match self.timeout.state().kind() {
            Some(active) => Err(TournamentError::TimeoutConflict(active)),
            None => {
                let at: u64 = self.clock.advance(now);
                self.timeout.begin(kind, self.team_timeout_secs, at);
                Ok(())
            },
        }
    }

    /// Ends the active timeout at `now`. The period goes on with exactly
    /// the time it had left when the timeout began. Refused with
    /// `InvalidTransition`, and without any effect, where no timeout is
    /// active.
    pub fn cancel_timeout(&mut self, now: Instant) -> (res: Result<(), TournamentError>)
        requires
            old(self).wf(),
        ensures
            final(self).wf(),
            final(self)@ == old(self)@.cancel_timeout(now@),
            res == if old(self)@.timeout.is_active() {
                Ok::<(), TournamentError>(())
            } else {
                Err::<(), TournamentError>(TournamentError::InvalidTransition)
            },
    {
        proof {
            lemma_commands_keep_wf(self@, now@);
        }
        if !self.timeout.is_active() {
            return Err(TournamentError::InvalidTransition);
        }
        let at: u64 = self.clock.advance(now);
        self.sequencer.shift(at - self.timeout.entered_at());
        self.timeout.clear();
        Ok(())
    }

    /// Brings clock, sequencer and timeout overlay up to `now`. An update
    /// with a `now` that is not later than one the manager has seen finds
    /// nothing to do.
    pub fn update(&mut self, now: Instant)
        requires
            old(self).wf(),
        ensures
            final(self).wf(),
            final(self)@ == old(self)@.update(now@),
    {
        proof {
            lemma_commands_keep_wf(self@, now@);
        }
        let at: u64 = self.clock.advance(now);
        if !self.timeout.is_active() {
            self.sequencer.advance(&self.config, at);
        } else if self.timeout.expired(at) {
            let span: u64 = (self.timeout.length() as u64) * 1000;
            self.sequencer.shift(span);
            self.timeout.clear();
            self.sequencer.advance(&self.config, at);
        } else {
            self.timeout.refresh(at);
        }
    }

    /// Whether the internal invariants hold, computed.
    fn is_consistent(&self) -> (yes: bool)
        ensures
            yes == self.wf(),
    {
        let accumulated: u64 = self.clock.accumulated();
        let state: PeriodState<S::Period> = self.sequencer.state();
        let start: u64 = self.sequencer.start();
        let entered_at: u64 = self.timeout.entered_at();
        let length: u32 = self.timeout.length();
        let clock_ok: bool = accumulated <= self.clock.anchor().millis && self.signal.latest()
            == self.clock.is_running();
        let sequencer_ok: bool = match self.sequencer.length() {
            Some(limit) => state.secs_in_period <= limit,
            None => state.secs_in_period == 0,
        };
        let timeout_ok: bool = match self.timeout.state() {
            TimeoutState::Inactive => entered_at == 0 && length == 0,
            TimeoutState::Referee | TimeoutState::PenaltyShot => length == 0,
            TimeoutState::White(secs) | TimeoutState::Black(secs) => secs <= length,
        };
        let reading: u64 = if self.timeout.is_active() {
            entered_at
        } else {
            accumulated
        };
        if !(clock_ok && sequencer_ok && timeout_ok && start <= reading && reading
            <= accumulated) {
            return false;
        }
        let period_ok: bool = match self.sequencer.length() {
            Some(limit) => state.secs_in_period >= remaining(limit, reading - start),
            None => true,
        };
        let countdown_ok: bool = match self.timeout.state().remaining() {
            Some(secs) => secs >= remaining(length, accumulated - entered_at),
            None => true,
        };
        period_ok && countdown_ok
    }

    /// What should be displayed, as a value of its own. `None` only where
    /// the internal invariants are violated, which no sequence of commands
    /// brings about. The snapshot shows the state as the latest command
    /// left it; `now` is not read.
    pub fn generate_snapshot(&self, now: Instant) -> (snapshot: Option<Snapshot<S::Period>>)
        ensures
            snapshot is Some <==> self.wf(),
            snapshot matches Some(shown) ==> shown == self@.snapshot(),
    {
        if !self.is_consistent() {
            return None;
        }
        let state: PeriodState<S::Period> = self.sequencer.state();
        Some(
            Snapshot {
                current_period: state.current,
                secs_in_period: state.secs_in_period,
                timeout: self.timeout.state(),
                b_score: self.b_score,
                w_score: self.w_score,
                next_period_len_secs: state.next_period_len_secs,
                is_old_game: self.sequencer.is_old_game(),
                level: S::level(state.current),
            },
        )
    }

    /// The earliest instant after `now` at which an update can change what
    /// is displayed: the next whole second of the countdown on display, or
    /// its end where that comes first. `None` while the clock stands or
    /// nothing counts down, and where that instant cannot be represented.
    pub fn next_update_time(&self, now: Instant) -> (next: Option<Instant>)
        requires
            self.wf(),
        ensures
            match self@.next_update_time(now@) {
                Some(at) => next matches Some(t) && t@ == at,
                None => next is None,
            },
    {
        if !self.clock.is_running() {
            return None;
        }
        let at: u64 = self.clock.elapsed(now);
        let (begun, length, counting): (u64, u32, bool) = match self.timeout.state() {
            TimeoutState::Inactive => {
                let start: u64 = self.sequencer.start();
                match self.sequencer.length() {
                    Some(limit) => {
                        let used_up: bool = at - start >= (limit as u64) * 1000;
                        (
                            start,
                            limit,
                            !used_up || self.config.successor(self.sequencer.current()).is_some(),
                        )
                    },
                    None => (start, 0, false),
                }
            },
            TimeoutState::White(_) | TimeoutState::Black(_) => (
                self.timeout.entered_at(),
                self.timeout.length(),
                true,
            ),
            TimeoutState::Referee | TimeoutState::PenaltyShot => (
                self.timeout.entered_at(),
                0,
                false,
            ),
        };
        if !counting {
            return None;
        }
        let gone: u64 = at - begun;
        let span: u64 = (length as u64) * 1000;
        let to_second: u64 = 1000 - gone % 1000;
        let wait: u64 = if gone >= span {
            1
        } else if span - gone < to_second {
            span - gone
        } else {
            to_second
        };
        now.latest(self.clock.anchor()).checked_add_millis(wait)
    }

    /// The current period.
    pub fn current_period(&self) -> (period: S::Period)
        ensures
            period == self@.sequencer.state.current,
    {
        self.sequencer.current()
    }

    /// What is displayed of the current period.
    pub fn period_state(&self) -> (state: PeriodState<S::Period>)
        ensures
            state == self@.sequencer.state,
    {
        self.sequencer.state()
    }

    /// The timeout that is displayed.
    pub fn timeout(&self) -> (state: TimeoutState)
        ensures
            state == self@.timeout.state,
    {
        self.timeout.state()
    }

    /// Whether the clock is running.
    pub fn clock_is_running(&self) -> (running: bool)
        ensures
            running == self@.clock.running,
    {
        self.clock.is_running()
    }

    /// The clock-running signal as it stands: the latest value that was
    /// published, and its version.
    pub fn clock_running_signal(&self) -> (signal: ClockRunningSignal)
        ensures
            signal == self@.signal,
    {
        self.signal
    }

    /// A reader of the clock-running signal that has seen the value that
    /// stands now.
    pub fn get_start_stop_rx(&self) -> (reader: ClockRunningReceiver)
        ensures
            reader.seen == self@.signal.version,
    {
        self.signal.subscribe()
    }

    /// Sets the time zone.
    pub fn set_timezone(&mut self, timezone: Timezone)
        ensures
            old(self).wf() ==> final(self).wf(),
            final(self)@ == (ManagerModel { timezone, ..old(self)@ }),
    {
        self.timezone = timezone;
    }

    /// The time zone.
    pub fn timezone(&self) -> (timezone: Timezone)
        ensures
            timezone == self@.timezone,
    {
        self.timezone
    }

    /// Changes the period lengths to those of `config`, from the next
    /// transition on. The period in progress keeps its length; the new
    /// length of the upcoming period is queued and shown.
    pub fn set_period_lengths(&mut self, config: S)
        requires
            old(self).wf(),
        ensures
            final(self).wf(),
            final(self)@ == old(self)@.set_period_lengths(config),
    {
        self.sequencer.queue(&config);
        self.config = config;
    }

    /// Sets the length of the team timeouts that begin from now on.
    pub fn set_team_timeout_secs(&mut self, secs: u32)
        ensures
            old(self).wf() ==> final(self).wf(),
            final(self)@ == (ManagerModel { team_timeout_secs: secs, ..old(self)@ }),
    {
        self.team_timeout_secs = secs;
    }

    /// Sets the scores that are displayed.
    pub fn set_scores(&mut self, black: u8, white: u8)
        ensures
            old(self).wf() ==> final(self).wf(),
            final(self)@ == (ManagerModel { b_score: black, w_score: white, ..old(self)@ }),
    {
        self.b_score = black;
        self.w_score = white;
    }
}

impl TournamentManager<Levels> {
    /// Puts the beep test back before its first level, with the clock
    /// stopped at zero.
    pub fn reset_beep_test_now(&mut self, now: Instant)
        requires
            old(self).wf(),
        ensures
            final(self).wf(),
            final(self)@ == old(self)@.reset(now@),
    {
        self.reset_now(now)
    }

    /// Starts the beep test: its first level begins at `now`. Refused with
    /// `InvalidTransition` unless the test waits to be started.
    pub fn start_beep_test_now(&mut self, now: Instant) -> (res: Result<(), TournamentError>)
        requires
            old(self).wf(),
        ensures
            final(self).wf(),
            final(self)@ == old(self)@.start(now@),
            res == if old(self)@.sequencer.state.current == BeepTestPeriod::Pre {
                Ok::<(), TournamentError>(())
            } else {
                Err::<(), TournamentError>(TournamentError::InvalidTransition)
            },
    {
        self.start_now(now)
    }
}

} // verus!
