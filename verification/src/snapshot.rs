//! Snapshots: what is handed out of the manager for display and broadcast.
use vstd::prelude::*;
use crate::schedule::{BeepTestPeriod, GamePeriod};
use crate::timeout::TimeoutState;

verus! {

/// An immutable record of what should be displayed. It is a value: it keeps
/// no tie to the manager that it was taken from.
#[derive(Clone, Copy, Debug, PartialEq, Eq)]
pub struct Snapshot<P> {
    pub current_period: P,
    /// Whole seconds left in the current period.
    pub secs_in_period: u32,
    pub timeout: TimeoutState,
    pub b_score: u8,
    pub w_score: u8,
    /// The length queued for the upcoming period, if it was changed.
    pub next_period_len_secs: Option<u32>,
    /// Whether the contest has ended and its result should still be shown.
    pub is_old_game: bool,
    /// The index of the current level, in a contest that has levels.
    pub level: Option<u8>,
}

/// The snapshot of a full game.
pub type GameSnapshot = Snapshot<GamePeriod>;

/// The snapshot of a beep test.
pub type BeepTestSnapshot = Snapshot<BeepTestPeriod>;

impl<P> Snapshot<P> {
    /// The snapshot of a contest that waits in `period` with nothing to
    /// show yet.
    pub open spec fn waiting_spec(period: P) -> Snapshot<P> {
        Snapshot {
            current_period: period,
            secs_in_period: 0,
            timeout: TimeoutState::Inactive,
            b_score: 0,
            w_score: 0,
            next_period_len_secs: None,
            is_old_game: false,
            level: None,
        }
    }

    /// The snapshot of a contest that waits in `period` with nothing to
    /// show yet.
    pub fn waiting(period: P) -> (snapshot: Snapshot<P>)
        ensures
            snapshot == Self::waiting_spec(period),
    {
        Snapshot {
            current_period: period,
            secs_in_period: 0,
            timeout: TimeoutState::Inactive,
            b_score: 0,
            w_score: 0,
            next_period_len_secs: None,
            is_old_game: false,
            level: None,
        }
    }
}

impl Default for Snapshot<GamePeriod> {
    /// A game that has not begun.
    fn default() -> (snapshot: Snapshot<GamePeriod>)
        ensures
            snapshot == Snapshot::<GamePeriod>::waiting_spec(GamePeriod::BetweenGames),
    {
        Snapshot::waiting(GamePeriod::BetweenGames)
    }
}

impl Default for Snapshot<BeepTestPeriod> {
    /// A beep test that has not begun.
    fn default() -> (snapshot: Snapshot<BeepTestPeriod>)
        ensures
            snapshot == Snapshot::<BeepTestPeriod>::waiting_spec(BeepTestPeriod::Pre),
    {
        Snapshot::waiting(BeepTestPeriod::Pre)
    }
}

} // verus!
