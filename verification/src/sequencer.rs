//! The period state machine: it consumes elapsed time and decides when the
//! current period is used up and which period follows.
use vstd::prelude::*;
use crate::schedule::Schedule;

verus! {

/// What is displayed of the current period.
#[derive(Clone, Copy, Debug, PartialEq, Eq)]
pub struct PeriodState<P> {
    pub current: P,
    /// Whole seconds left in the period; `0` once it is used up, and in a
    /// period without a time limit.
    pub secs_in_period: u32,
    /// The length that has been queued for the upcoming period, if the
    /// lengths were changed since the current period began.
    pub next_period_len_secs: Option<u32>,
}

/// Whole seconds left of a period of `length` seconds, `elapsed_ms`
/// milliseconds after it began. Never negative.
pub open spec fn remaining_secs(length: u32, elapsed_ms: int) -> int {
    if elapsed_ms <= 0 {
        length as int
    } else if elapsed_ms / 1000 >= length {
        0
    } else {
        length - elapsed_ms / 1000
    }
}

/// The sequencer as numbers. Times are readings of the contest clock, in
/// milliseconds.
pub struct SequencerModel<S: Schedule> {
    pub state: PeriodState<S::Period>,
    /// The nominal length of the current period, fixed when it was entered.
    pub length: Option<u32>,
    /// The clock reading at which the current period began.
    pub start: int,
    /// Whether the contest has run to its end and its result still stands.
    pub is_old_game: bool,
}

impl<S: Schedule> SequencerModel<S> {
    /// The countdown on display never exceeds the length of the period, and
    /// is zero in a period without a time limit.
    pub open spec fn wf(self) -> bool {
        &&& 0 <= self.start
        &&& match self.length {
            Some(length) => self.state.secs_in_period <= length,
            None => self.state.secs_in_period == 0,
        }
    }

    /// The seconds that a period of nominal length `length` shows when it
    /// begins.
    pub open spec fn full(length: Option<u32>) -> u32 {
        match length {
            Some(secs) => secs,
            None => 0,
        }
    }

    /// The sequencer of a contest that waits to be started.
    pub open spec fn initial(config: S) -> Self {
        let length = config.length_spec(S::initial_spec());
        SequencerModel {
            state: PeriodState {
                current: S::initial_spec(),
                secs_in_period: Self::full(length),
                next_period_len_secs: None,
            },
            length,
            start: 0,
            is_old_game: false,
        }
    }

    /// Whole seconds left in the current period at clock reading `at`.
    pub open spec fn countdown(self, at: int) -> int {
        match self.length {
            Some(length) => remaining_secs(length, at - self.start),
            None => 0,
        }
    }

    /// Whether the current period has a time limit that is used up at clock
    /// reading `at`. A period of length 0 is used up as soon as it begins.
    pub open spec fn exhausted(self, at: int) -> bool {
        match self.length {
            Some(length) => at - self.start >= length * 1000,
            None => false,
        }
    }

    /// The clock reading at which the current period is used up, for a
    /// period with a time limit.
    pub open spec fn expiry(self) -> int {
        self.start + Self::full(self.length) * 1000
    }

    /// The length that `period` gets when it is entered from this state: the
    /// queued length if there is one, else the configured one. A period
    /// without a time limit stays without one.
    pub open spec fn length_on_entry(self, config: S, period: S::Period) -> Option<u32> {
        match config.length_spec(period) {
            Some(configured) => match self.state.next_period_len_secs {
                Some(queued) => Some(queued),
                None => Some(configured),
            },
            None => None,
        }
    }

    /// The sequencer after `period` has begun at clock reading `at`.
    pub open spec fn enter(self, config: S, period: S::Period, at: int) -> Self {
        let length = self.length_on_entry(config, period);
        SequencerModel {
            state: PeriodState {
                current: period,
                secs_in_period: Self::full(length),
                next_period_len_secs: None,
            },
            length,
            start: at,
            is_old_game: period == S::initial_spec(),
        }
    }

    /// The sequencer with its countdown brought up to clock reading `at`.
    pub open spec fn refresh(self, at: int) -> Self {
        SequencerModel {
            state: PeriodState { secs_in_period: self.countdown(at) as u32, ..self.state },
            ..self
        }
    }

    /// Whether a transition is due at clock reading `at`.
    pub open spec fn due(self, config: S, at: int) -> bool {
        self.exhausted(at) && config.successor_spec(self.state.current) is Some
    }

    /// The sequencer brought up to clock reading `at`. While the current
    /// period is used up and has a successor, the successor begins at the
    /// instant at which the period ended; then the countdown is refreshed.
    pub open spec fn advance(self, config: S, at: int) -> Self
        decreases S::steps_left(self.state.current),
    {
        if self.due(config, at) {
            let next = config.successor_spec(self.state.current).unwrap();
            proof {
                config.successor_descends(self.state.current);
            }
            self.enter(config, next, self.expiry()).advance(config, at)
        } else {
            self.refresh(at)
        }
    }

    /// The sequencer with the beginning of its period moved `by` later: time
    /// that passed in a timeout does not count against the period.
    pub open spec fn shift(self, by: int) -> Self {
        SequencerModel { start: self.start + by, ..self }
    }

    /// The period that comes next: the first period while the contest waits
    /// to be started, else the successor.
    pub open spec fn upcoming(self, config: S) -> Option<S::Period> {
        if self.state.current == S::initial_spec() {
            Some(S::first_spec())
        } else {
            config.successor_spec(self.state.current)
        }
    }

    /// The sequencer after the lengths have been changed to those of
    /// `config`: the current period keeps its length, and the new length of
    /// the upcoming period is queued.
    pub open spec fn queue(self, config: S) -> Self {
        let queued = match self.upcoming(config) {
            Some(next) => config.length_spec(next),
            None => None,
        };
        SequencerModel {
            state: PeriodState { next_period_len_secs: queued, ..self.state },
            ..self
        }
    }

    /// The stored countdown is that of clock reading `at`, and no transition
    /// is due then.
    pub open spec fn settled(self, config: S, at: int) -> bool {
        &&& !self.due(config, at)
        &&& self.state.secs_in_period == self.countdown(at)
    }
}

/// Bringing a sequencer up to date keeps it well formed and leaves it
/// settled, in a period that began no later than the reading.
pub proof fn lemma_advance_settles<S: Schedule>(s: SequencerModel<S>, config: S, at: int)
    requires
        s.wf(),
        s.start <= at,
    ensures
        s.advance(config, at).wf(),
        s.advance(config, at).start <= at,
        s.advance(config, at).settled(config, at),
        s.start <= s.advance(config, at).start,
    decreases S::steps_left(s.state.current),
{
    if s.due(config, at) {
        let next = config.successor_spec(s.state.current).unwrap();
        config.successor_descends(s.state.current);
        lemma_advance_settles(s.enter(config, next, s.expiry()), config, at);
    }
}

/// Bringing a sequencer up to date in two steps leaves it where one step
/// to the later reading leaves it: the transitions fall on the instants at
/// which the periods end, whenever they are made.
pub proof fn lemma_advance_in_steps<S: Schedule>(
    s: SequencerModel<S>,
    config: S,
    early: int,
    late: int,
)
    requires
        early <= late,
    ensures
        s.advance(config, early).advance(config, late) == s.advance(config, late),
    decreases S::steps_left(s.state.current),
{
    if s.due(config, early) {
        let next = config.successor_spec(s.state.current).unwrap();
        config.successor_descends(s.state.current);
        lemma_advance_in_steps(s.enter(config, next, s.expiry()), config, early, late);
    } else {
        lemma_advance_forgets_countdown(s, s.refresh(early), config, late);
    }
}

/// What a sequencer is brought to does not depend on the countdown that
/// was stored in it.
pub proof fn lemma_advance_forgets_countdown<S: Schedule>(
    s: SequencerModel<S>,
    other: SequencerModel<S>,
    config: S,
    at: int,
)
    requires
        other == (SequencerModel {
            state: PeriodState { secs_in_period: other.state.secs_in_period, ..s.state },
            ..s
        }),
    ensures
        other.advance(config, at) == s.advance(config, at),
{
    if s.due(config, at) {
        let next = config.successor_spec(s.state.current).unwrap();
        assert(other.enter(config, next, other.expiry()) == s.enter(config, next, s.expiry()));
    }
}

/// Every transition moves to a period that is nearer the end: after one or
/// more transitions the sequencer is in another period.
pub proof fn lemma_advance_descends<S: Schedule>(s: SequencerModel<S>, config: S, at: int)
    ensures
        S::steps_left(s.advance(config, at).state.current) <= S::steps_left(s.state.current),
        s.due(config, at) ==> S::steps_left(s.advance(config, at).state.current) < S::steps_left(
            s.state.current,
        ),
    decreases S::steps_left(s.state.current),
{
    if s.due(config, at) {
        let next = config.successor_spec(s.state.current).unwrap();
        config.successor_descends(s.state.current);
        lemma_advance_descends(s.enter(config, next, s.expiry()), config, at);
    }
}

/// The period state machine of a contest with schedule `S`.
#[derive(Debug)]
pub struct Sequencer<S: Schedule> {
    state: PeriodState<S::Period>,
    length: Option<u32>,
    start: u64,
    is_old_game: bool,
}

impl<S: Schedule> View for Sequencer<S> {
    type V = SequencerModel<S>;

    closed spec fn view(&self) -> SequencerModel<S> {
        SequencerModel {
            state: self.state,
            length: self.length,
            start: self.start as int,
            is_old_game: self.is_old_game,
        }
    }
}

/// Whole seconds left of a period of `length` seconds after `elapsed_ms`
/// milliseconds.
pub fn remaining(length: u32, elapsed_ms: u64) -> (secs: u32)
    ensures
        secs == remaining_secs(length, elapsed_ms as int),
{
    let gone: u64 = elapsed_ms / 1000;
    if gone >= length as u64 {
        0
    } else {
        length - (gone as u32)
    }
}

impl<S: Schedule> Sequencer<S> {
    /// Validity of a sequencer: its model is well formed.
    pub open spec fn wf(&self) -> bool {
        self@.wf()
    }

    /// The sequencer of a contest that waits to be started.
    pub fn new(config: &S) -> (sequencer: Self)
        ensures
            sequencer@ == SequencerModel::<S>::initial(*config),
            sequencer.wf(),
    {
        let length: Option<u32> = config.length(S::initial());
        Sequencer {
            state: PeriodState {
                current: S::initial(),
                secs_in_period: Self::full(length),
                next_period_len_secs: None,
            },
            length,
            start: 0,
            is_old_game: false,
        }
    }

    fn full(length: Option<u32>) -> (secs: u32)
        ensures
            secs == SequencerModel::<S>::full(length),
    {
        match length {
            Some(secs) => secs,
            None => 0,
        }
    }

    /// What is displayed of the current period.
    pub fn state(&self) -> (state: PeriodState<S::Period>)
        ensures
            state == self@.state,
    {
        self.state
    }

    /// The current period.
    pub fn current(&self) -> (period: S::Period)
        ensures
            period == self@.state.current,
    {
        self.state.current
    }

    /// Whether the contest has run to its end and its result still stands.
    pub fn is_old_game(&self) -> (yes: bool)
        ensures
            yes == self@.is_old_game,
    {
        self.is_old_game
    }

    /// The nominal length of the current period.
    pub fn length(&self) -> (length: Option<u32>)
        ensures
            length == self@.length,
    {
        self.length
    }

    /// The clock reading at which the current period began.
    pub fn start(&self) -> (at: u64)
        ensures
            at == self@.start,
    {
        self.start
    }

    /// Begins `period` at clock reading `at`.
    pub fn enter(&mut self, config: &S, period: S::Period, at: u64)
        ensures
            final(self)@ == old(self)@.enter(*config, period, at as int),
            final(self).wf(),
    {
        let length: Option<u32> = match config.length(period) {
            Some(configured) => match self.state.next_period_len_secs {
                Some(queued) => Some(queued),
                None => Some(configured),
            },
            None => None,
        };
        self.state = PeriodState {
            current: period,
            secs_in_period: Self::full(length),
            next_period_len_secs: None,
        };
        self.length = length;
        self.start = at;
        self.is_old_game = S::is_initial(period);
    }

    /// Brings the sequencer up to clock reading `at`: makes the transitions
    /// that are due, then refreshes the countdown.
    pub fn advance(&mut self, config: &S, at: u64)
        requires
            old(self).wf(),
            old(self)@.start <= at,
        ensures
            final(self)@ == old(self)@.advance(*config, at as int),
            final(self).wf(),
            final(self)@.start <= at,
    {
        proof {
            lemma_advance_settles(self@, *config, at as int);
        }
        loop
            invariant
                self.wf(),
                self@.start <= at,
                self@.advance(*config, at as int) == old(self)@.advance(*config, at as int),
            ensures
                self@ == old(self)@.advance(*config, at as int),
            decreases S::steps_left(self@.state.current),
        {
            let due: Option<(S::Period, u64)> = match self.length {
                Some(length) => {
                    let span: u64 = (length as u64) * 1000;
                    if at - self.start >= span {
                        match config.successor(self.state.current) {
                            Some(next) => Some((next, self.start + span)),
                            None => None,
                        }
                    } else {
                        None
                    }
                },
                None => None,
            };
            match due {
                Some((next, at_expiry)) => {
                    proof {
                        config.successor_descends(self.state.current);
                    }
                    self.enter(config, next, at_expiry);
                },
                None => {
                    self.state.secs_in_period = match self.length {
                        Some(length) => remaining(length, at - self.start),
                        None => 0,
                    };
                    break ;
                },
            }
        }
    }

    /// Moves the beginning of the current period `by` milliseconds later.
    pub fn shift(&mut self, by: u64)
        requires
            old(self)@.start + by <= u64::MAX,
        ensures
            final(self)@ == old(self)@.shift(by as int),
    {
        self.start = self.start + by;
    }

    /// Queues the length that `config` gives the upcoming period.
    pub fn queue(&mut self, config: &S)
        ensures
            final(self)@ == old(self)@.queue(*config),
    {
        let upcoming: Option<S::Period> = if S::is_initial(self.state.current) {
            Some(S::first())
        } else {
            config.successor(self.state.current)
        };
        self.state.next_period_len_secs = match upcoming {
            Some(next) => config.length(next),
            None => None,
        };
    }
}

} // verus!
