//! Timeouts: a state beside the periods that, while it lasts, keeps the
//! period countdown from running.
use vstd::prelude::*;
use crate::sequencer::{remaining, remaining_secs};

verus! {

/// The kinds of timeout that can be called.
#[derive(Clone, Copy, Debug, PartialEq, Eq, Hash, Structural)]
pub enum TimeoutKind {
    Referee,
    White,
    Black,
    PenaltyShot,
}

/// The timeout that is displayed: none, or the one that is active. A team
/// timeout carries the whole seconds that remain of it.
#[derive(Clone, Copy, Debug, PartialEq, Eq, Hash, Structural)]
pub enum TimeoutState {
    Inactive,
    Referee,
    White(u32),
    Black(u32),
    PenaltyShot,
}

impl TimeoutState {
    /// The kind of the active timeout.
    pub open spec fn kind_spec(self) -> Option<TimeoutKind> {
        match self {
            TimeoutState::Inactive => None,
            TimeoutState::Referee => Some(TimeoutKind::Referee),
            TimeoutState::White(_) => Some(TimeoutKind::White),
            TimeoutState::Black(_) => Some(TimeoutKind::Black),
            TimeoutState::PenaltyShot => Some(TimeoutKind::PenaltyShot),
        }
    }

    /// Whether this is a timeout that runs down and ends by itself.
    pub open spec fn is_timed(self) -> bool {
        self is White || self is Black
    }

    /// The state in which a timeout of `kind` begins, with `secs` seconds to
    /// run if it is a team timeout.
    pub open spec fn begin_spec(kind: TimeoutKind, secs: u32) -> TimeoutState {
        match kind {
            TimeoutKind::Referee => TimeoutState::Referee,
            TimeoutKind::White => TimeoutState::White(secs),
            TimeoutKind::Black => TimeoutState::Black(secs),
            TimeoutKind::PenaltyShot => TimeoutState::PenaltyShot,
        }
    }

    /// This state with `secs` seconds remaining, where it is a team timeout.
    pub open spec fn with_remaining(self, secs: u32) -> TimeoutState {
        match self {
            TimeoutState::White(_) => TimeoutState::White(secs),
            TimeoutState::Black(_) => TimeoutState::Black(secs),
            _ => self,
        }
    }

    /// The seconds that remain of a team timeout.
    pub open spec fn remaining_spec(self) -> Option<u32> {
        match self {
            TimeoutState::White(secs) | TimeoutState::Black(secs) => Some(secs),
            _ => None,
        }
    }

    /// The kind of the active timeout, if one is active.
    pub fn kind(self) -> (kind: Option<TimeoutKind>)
        ensures
            kind == self.kind_spec(),
    {
        match self {
            TimeoutState::Inactive => None,
            TimeoutState::Referee => Some(TimeoutKind::Referee),
            TimeoutState::White(_) => Some(TimeoutKind::White),
            TimeoutState::Black(_) => Some(TimeoutKind::Black),
            TimeoutState::PenaltyShot => Some(TimeoutKind::PenaltyShot),
        }
    }

    /// The seconds that remain of a team timeout.
    pub fn remaining(self) -> (secs: Option<u32>)
        ensures
            secs == self.remaining_spec(),
    {
        match self {
            TimeoutState::White(secs) | TimeoutState::Black(secs) => Some(secs),
            _ => None,
        }
    }
}

/// The timeout overlay as numbers. Times are readings of the contest clock,
/// in milliseconds.
pub struct TimeoutModel {
    pub state: TimeoutState,
    /// The clock reading at which the active timeout began.
    pub entered_at: int,
    /// The length of the active team timeout, in whole seconds.
    pub length: u32,
}

impl TimeoutModel {
    /// Without a timeout nothing is kept of the last one; a team timeout
    /// never shows more seconds than its length.
    pub open spec fn wf(self) -> bool {
        match self.state {
            TimeoutState::Inactive => self.entered_at == 0 && self.length == 0,
            TimeoutState::Referee | TimeoutState::PenaltyShot => 0 <= self.entered_at
                && self.length == 0,
            TimeoutState::White(secs) | TimeoutState::Black(secs) => 0 <= self.entered_at && secs
                <= self.length,
        }
    }

    /// No timeout.
    pub open spec fn none() -> TimeoutModel {
        TimeoutModel { state: TimeoutState::Inactive, entered_at: 0, length: 0 }
    }

    /// Whether a timeout is active.
    pub open spec fn is_active(self) -> bool {
        self.state !is Inactive
    }

    /// A timeout of `kind` that begins at clock reading `at`; a team timeout
    /// lasts `secs` seconds.
    pub open spec fn begin(kind: TimeoutKind, secs: u32, at: int) -> TimeoutModel {
        let state = TimeoutState::begin_spec(kind, secs);
        TimeoutModel {
            state,
            entered_at: at,
            length: if state.is_timed() {
                secs
            } else {
                0
            },
        }
    }

    /// Whole seconds left of a team timeout at clock reading `at`.
    pub open spec fn countdown(self, at: int) -> int {
        remaining_secs(self.length, at - self.entered_at)
    }

    /// Whether a team timeout has run down at clock reading `at`.
    pub open spec fn expired(self, at: int) -> bool {
        self.state.is_timed() && at - self.entered_at >= self.length * 1000
    }

    /// The overlay with the countdown of a team timeout brought up to clock
    /// reading `at`.
    pub open spec fn refresh(self, at: int) -> TimeoutModel {
        TimeoutModel { state: self.state.with_remaining(self.countdown(at) as u32), ..self }
    }
}

/// The timeout overlay: at most one timeout is active at a time.
#[derive(Clone, Copy, Debug)]
pub struct TimeoutOverlay {
    state: TimeoutState,
    entered_at: u64,
    length: u32,
}

impl View for TimeoutOverlay {
    type V = TimeoutModel;

    closed spec fn view(&self) -> TimeoutModel {
        TimeoutModel {
            state: self.state,
            entered_at: self.entered_at as int,
            length: self.length,
        }
    }
}

impl TimeoutOverlay {
    /// Validity of an overlay: its model is well formed.
    pub open spec fn wf(&self) -> bool {
        self@.wf()
    }

    /// An overlay with no timeout.
    pub fn new() -> (overlay: TimeoutOverlay)
        ensures
            overlay@ == TimeoutModel::none(),
            overlay.wf(),
    {
        TimeoutOverlay { state: TimeoutState::Inactive, entered_at: 0, length: 0 }
    }

    /// The timeout that is displayed.
    pub fn state(&self) -> (state: TimeoutState)
        ensures
            state == self@.state,
    {
        self.state
    }

    /// The clock reading at which the active timeout began.
    pub fn entered_at(&self) -> (at: u64)
        ensures
            at == self@.entered_at,
    {
        self.entered_at
    }

    /// The length of the active team timeout, in whole seconds.
    pub fn length(&self) -> (secs: u32)
        ensures
            secs == self@.length,
    {
        self.length
    }

    /// Whether a timeout is active.
    pub fn is_active(&self) -> (active: bool)
        ensures
            active == self@.is_active(),
    {
        match self.state {
            TimeoutState::Inactive => false,
            _ => true,
        }
    }

    /// Begins a timeout of `kind` at clock reading `at`, whatever was there
    /// before; a team timeout lasts `secs` seconds.
    pub fn begin(&mut self, kind: TimeoutKind, secs: u32, at: u64)
        ensures
            final(self)@ == TimeoutModel::begin(kind, secs, at as int),
            final(self).wf(),
    {
        match kind {
            TimeoutKind::Referee => {
                self.state = TimeoutState::Referee;
                self.length = 0;
            },
            TimeoutKind::White => {
                self.state = TimeoutState::White(secs);
                self.length = secs;
            },
            TimeoutKind::Black => {
                self.state = TimeoutState::Black(secs);
                self.length = secs;
            },
            TimeoutKind::PenaltyShot => {
                self.state = TimeoutState::PenaltyShot;
                self.length = 0;
            },
        }
        self.entered_at = at;
    }

    /// Ends the timeout.
    pub fn clear(&mut self)
        ensures
            final(self)@ == TimeoutModel::none(),
            final(self).wf(),
    {
        self.state = TimeoutState::Inactive;
        self.entered_at = 0;
        self.length = 0;
    }

    /// Whether a team timeout has run down at clock reading `at`.
    pub fn expired(&self, at: u64) -> (yes: bool)
        requires
            self@.entered_at <= at,
        ensures
            yes == self@.expired(at as int),
    {
        match self.state {
            TimeoutState::White(_) | TimeoutState::Black(_) => at - self.entered_at >= (
            self.length as u64) * 1000,
            _ => false,
        }
    }

    /// Brings the countdown of a team timeout up to clock reading `at`.
    pub fn refresh(&mut self, at: u64)
        requires
            old(self)@.entered_at <= at,
        ensures
            final(self)@ == old(self)@.refresh(at as int),
            old(self).wf() ==> final(self).wf(),
    {
        let left: u32 = remaining(self.length, at - self.entered_at);
        match self.state {
            TimeoutState::White(_) => {
                self.state = TimeoutState::White(left);
            },
            TimeoutState::Black(_) => {
                self.state = TimeoutState::Black(left);
            },
            _ => {},
        }
    }
}

} // verus!
