//! The state that the broadcast overlay keeps, and which page it shows.
use vstd::prelude::*;
use crate::schedule::GamePeriod;
use crate::snapshot::GameSnapshot;

verus! {

/// What is known of one team. `Pic` is the form in which pictures are held.
#[derive(Clone, Debug, PartialEq, Eq)]
pub struct TeamInfo<Pic> {
    pub team_name: String,
    /// Name, number, picture and picture in gear of each player.
    pub players: Vec<(String, u8, Option<Pic>, Option<Pic>)>,
    /// Name, role and picture of each support member.
    pub support_members: Vec<(String, String, Option<Pic>)>,
    pub flag: Option<Pic>,
}

impl<Pic> TeamInfo<Pic> {
    /// A team of which only the name is known.
    pub fn with_name(name: &str) -> (team: Self)
        ensures
            team.team_name@ == name@,
            team.players@.len() == 0,
            team.support_members@.len() == 0,
            team.flag is None,
    {
        TeamInfo {
            team_name: name.to_owned(),
            players: Vec::new(),
            support_members: Vec::new(),
            flag: None,
        }
    }
}

/// What arrives from the referee's console: a snapshot, and whatever else
/// has changed since the packet before.
#[derive(Clone, Debug, PartialEq, Eq)]
pub struct StatePacket<Pic> {
    pub snapshot: GameSnapshot,
    pub black: Option<TeamInfo<Pic>>,
    pub white: Option<TeamInfo<Pic>>,
    pub game_id: Option<u32>,
    pub pool: Option<String>,
    pub start_time: Option<String>,
    /// Name and picture of each referee.
    pub referees: Option<Vec<(String, Option<Pic>)>>,
}

/// Everything the overlay draws from.
#[derive(Clone, Debug, PartialEq, Eq)]
pub struct State<Pic> {
    pub snapshot: GameSnapshot,
    pub black: TeamInfo<Pic>,
    pub white: TeamInfo<Pic>,
    /// Name and picture of each referee.
    pub referees: Vec<(String, Option<Pic>)>,
    pub game_id: u32,
    pub pool: String,
    pub start_time: String,
    pub half_play_duration: Option<u32>,
}

/// The new value of a field for which a packet may hold a replacement.
pub open spec fn replaced<T>(old_value: T, replacement: Option<T>) -> T {
    match replacement {
        Some(value) => value,
        None => old_value,
    }
}

/// The length of a half that is kept once `snapshot` has been seen: between
/// games the length queued for the next period, if there is one; else what
/// was `kept` before.
pub open spec fn half_length_spec(kept: Option<u32>, snapshot: GameSnapshot) -> Option<u32> {
    if snapshot.current_period == GamePeriod::BetweenGames && snapshot.next_period_len_secs
        is Some {
        snapshot.next_period_len_secs
    } else {
        kept
    }
}

impl<Pic> State<Pic> {
    /// Takes over what `received` holds: the snapshot in any case, and each
    /// other field for which the packet has a value.
    pub fn update_state(&mut self, received: StatePacket<Pic>)
        ensures
            final(self).snapshot == received.snapshot,
            final(self).black == replaced(old(self).black, received.black),
            final(self).white == replaced(old(self).white, received.white),
            final(self).game_id == replaced(old(self).game_id, received.game_id),
            final(self).pool == replaced(old(self).pool, received.pool),
            final(self).start_time == replaced(old(self).start_time, received.start_time),
            final(self).referees == replaced(old(self).referees, received.referees),
            final(self).half_play_duration == old(self).half_play_duration,
    {
        if let Some(team) = received.black {
            self.black = team;
        }
        if let Some(team) = received.white {
            self.white = team;
        }
        if let Some(game_id) = received.game_id {
            self.game_id = game_id;
        }
        if let Some(pool) = received.pool {
            self.pool = pool;
        }
        if let Some(start_time) = received.start_time {
            self.start_time = start_time;
        }
        if let Some(referees) = received.referees {
            self.referees = referees;
        }
        self.snapshot = received.snapshot;
    }

    /// Chooses the page for the snapshot at hand. Between games the length
    /// queued for the next period, if there is one, is kept as the length of
    /// a half.
    pub fn next_page(&mut self, bands: &PageBands) -> (page: Page)
        ensures
            page == page_spec(old(self).snapshot, *bands),
            final(self).half_play_duration == half_length_spec(
                old(self).half_play_duration,
                old(self).snapshot,
            ),
            final(self).snapshot == old(self).snapshot,
            final(self).black == old(self).black,
            final(self).white == old(self).white,
            final(self).referees == old(self).referees,
            final(self).game_id == old(self).game_id,
            final(self).pool == old(self).pool,
            final(self).start_time == old(self).start_time,
    {
        if self.snapshot.current_period == GamePeriod::BetweenGames {
            if let Some(duration) = self.snapshot.next_period_len_secs {
                self.half_play_duration = Some(duration);
            }
        }
        select_page(&self.snapshot, bands)
    }
}

/// The pages of the overlay.
#[derive(Clone, Copy, Debug, PartialEq, Eq, Structural)]
pub enum Page {
    /// The result of the game that has just ended.
    FinalScores,
    /// The card of the next game.
    NextGame,
    /// The rosters of the two teams.
    Roster,
    /// The countdown to the start of the game.
    PreGame,
    /// The scoreboard during the halves and half time.
    InGame,
    /// The scoreboard during overtime and sudden death.
    Overtime,
}

/// The bands of the countdown between games, in whole seconds: at
/// `roster_from` seconds and above, up to `roster_until`, the rosters are
/// shown; above that the card of the next game or the last result; below it
/// the countdown to the start.
#[derive(Clone, Copy, Debug, PartialEq, Eq, Structural)]
pub struct PageBands {
    pub roster_from: u32,
    pub roster_until: u32,
}

impl Default for PageBands {
    /// Rosters from 150 down to 30 seconds before the start.
    fn default() -> (bands: PageBands)
        ensures
            bands == (PageBands { roster_from: 30, roster_until: 150 }),
    {
        PageBands { roster_from: 30, roster_until: 150 }
    }
}

/// The page for `snapshot`.
pub open spec fn page_spec(snapshot: GameSnapshot, bands: PageBands) -> Page {
    match snapshot.current_period {
        GamePeriod::BetweenGames => if snapshot.secs_in_period > bands.roster_until {
            if snapshot.is_old_game {
                Page::FinalScores
            } else {
                Page::NextGame
            }
        } else if snapshot.secs_in_period >= bands.roster_from {
            Page::Roster
        } else {
            Page::PreGame
        },
        GamePeriod::FirstHalf | GamePeriod::SecondHalf | GamePeriod::HalfTime => Page::InGame,
        _ => Page::Overtime,
    }
}

/// Chooses the page for `snapshot`.
pub fn select_page(snapshot: &GameSnapshot, bands: &PageBands) -> (page: Page)
    ensures
        page == page_spec(*snapshot, *bands),
{
    match snapshot.current_period {
        GamePeriod::BetweenGames => {
            if snapshot.secs_in_period > bands.roster_until {
                if snapshot.is_old_game {
                    Page::FinalScores
                } else {
                    Page::NextGame
                }
            } else if snapshot.secs_in_period >= bands.roster_from {
                Page::Roster
            } else {
                Page::PreGame
            }
        },
        GamePeriod::FirstHalf | GamePeriod::SecondHalf | GamePeriod::HalfTime => Page::InGame,
        GamePeriod::OvertimeFirstHalf
        | GamePeriod::OvertimeHalfTime
        | GamePeriod::OvertimeSecondHalf
        | GamePeriod::PreOvertime
        | GamePeriod::PreSuddenDeath
        | GamePeriod::SuddenDeath => Page::Overtime,
    }
}

} // verus!
