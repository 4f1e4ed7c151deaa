//! The ordered periods of a contest, and the two contests that are played:
//! the full game and the beep test.
use vstd::prelude::*;

verus! {

/// The periods of one kind of contest: which period follows which, and how
/// long each lasts. A value of the implementing type is the configuration
/// that the lengths and the enabled periods are read from.
///
/// The contest waits in its initial period until it is started, which puts
/// it into its first period. From there the successor table is followed, and
/// it ends somewhere: every transition brings the end one step nearer.
pub trait Schedule: Sized {
    /// The closed enumeration of this contest's periods.
    type Period: Copy + core::fmt::Debug;

    /// An upper bound on the number of transitions that can still follow `p`.
    spec fn steps_left(p: Self::Period) -> nat;

    /// The period in which the contest waits to be started.
    spec fn initial_spec() -> Self::Period;

    /// The period that starting the contest enters.
    spec fn first_spec() -> Self::Period;

    /// The period that follows `p` when its time is used up, if any does.
    spec fn successor_spec(&self, p: Self::Period) -> Option<Self::Period>;

    /// The nominal length of `p` in whole seconds, or `None` where `p` has
    /// no time limit.
    spec fn length_spec(&self, p: Self::Period) -> Option<u32>;

    /// The index of `p` among the levels of a ladder, where the contest has
    /// levels.
    spec fn level_spec(p: Self::Period) -> Option<u8>;

    fn initial() -> (p: Self::Period)
        ensures
            p == Self::initial_spec(),
    ;

    fn first() -> (p: Self::Period)
        ensures
            p == Self::first_spec(),
    ;

    fn is_initial(p: Self::Period) -> (yes: bool)
        ensures
            yes == (p == Self::initial_spec()),
    ;

    fn successor(&self, p: Self::Period) -> (next: Option<Self::Period>)
        ensures
            next == self.successor_spec(p),
    ;

    fn length(&self, p: Self::Period) -> (secs: Option<u32>)
        ensures
            secs == self.length_spec(p),
    ;

    fn level(p: Self::Period) -> (index: Option<u8>)
        ensures
            index == Self::level_spec(p),
    ;

    /// Every transition brings the end of the contest nearer, so no chain of
    /// transitions returns to a period it has left.
    proof fn successor_descends(&self, p: Self::Period)
        ensures
            self.successor_spec(p) matches Some(q) ==> Self::steps_left(q) < Self::steps_left(p),
    ;
}

/// The periods of a full game, in the order in which they can occur.
#[derive(Clone, Copy, Debug, PartialEq, Eq, PartialOrd, Ord, Hash, Structural)]
pub enum GamePeriod {
    BetweenGames,
    FirstHalf,
    HalfTime,
    SecondHalf,
    PreOvertime,
    OvertimeFirstHalf,
    OvertimeHalfTime,
    OvertimeSecondHalf,
    PreSuddenDeath,
    SuddenDeath,
}

/// Period lengths of a full game in whole seconds, and which of the optional
/// periods are played.
#[derive(Clone, Copy, Debug, PartialEq, Eq, Structural)]
pub struct GameConfig {
    pub half_play_duration: u32,
    pub half_time_duration: u32,
    pub overtime_allowed: bool,
    pub pre_overtime_break: u32,
    pub ot_half_play_duration: u32,
    pub ot_half_time_duration: u32,
    pub sudden_death_allowed: bool,
    pub pre_sudden_death_duration: u32,
    /// The countdown from the end of one game to the start of the next.
    pub nominal_break: u32,
}

impl Default for GameConfig {
    /// Fifteen-minute halves with three minutes of half time, overtime of
    /// two five-minute halves, and fifteen minutes between games.
    fn default() -> (config: GameConfig)
        ensures
            config == (GameConfig {
                half_play_duration: 900,
                half_time_duration: 180,
                overtime_allowed: true,
                pre_overtime_break: 180,
                ot_half_play_duration: 300,
                ot_half_time_duration: 180,
                sudden_death_allowed: true,
                pre_sudden_death_duration: 60,
                nominal_break: 900,
            }),
    {
        GameConfig {
            half_play_duration: 900,
            half_time_duration: 180,
            overtime_allowed: true,
            pre_overtime_break: 180,
            ot_half_play_duration: 300,
            ot_half_time_duration: 180,
            sudden_death_allowed: true,
            pre_sudden_death_duration: 60,
            nominal_break: 900,
        }
    }
}

impl Schedule for GameConfig {
    type Period = GamePeriod;

    open spec fn steps_left(p: GamePeriod) -> nat {
        match p {
            GamePeriod::FirstHalf => 9,
            GamePeriod::HalfTime => 8,
            GamePeriod::SecondHalf => 7,
            GamePeriod::PreOvertime => 6,
            GamePeriod::OvertimeFirstHalf => 5,
            GamePeriod::OvertimeHalfTime => 4,
            GamePeriod::OvertimeSecondHalf => 3,
            GamePeriod::PreSuddenDeath => 2,
            GamePeriod::SuddenDeath => 1,
            GamePeriod::BetweenGames => 0,
        }
    }

    open spec fn initial_spec() -> GamePeriod {
        GamePeriod::BetweenGames
    }

    open spec fn first_spec() -> GamePeriod {
        GamePeriod::FirstHalf
    }

    open spec fn successor_spec(&self, p: GamePeriod) -> Option<GamePeriod> {
        match p {
            GamePeriod::BetweenGames => None,
            GamePeriod::FirstHalf => Some(GamePeriod::HalfTime),
            GamePeriod::HalfTime => Some(GamePeriod::SecondHalf),
            GamePeriod::SecondHalf => if self.overtime_allowed {
                Some(GamePeriod::PreOvertime)
            } else if self.sudden_death_allowed {
                Some(GamePeriod::PreSuddenDeath)
            } else {
                Some(GamePeriod::BetweenGames)
            },
            GamePeriod::PreOvertime => Some(GamePeriod::OvertimeFirstHalf),
            GamePeriod::OvertimeFirstHalf => Some(GamePeriod::OvertimeHalfTime),
            GamePeriod::OvertimeHalfTime => Some(GamePeriod::OvertimeSecondHalf),
            GamePeriod::OvertimeSecondHalf => if self.sudden_death_allowed {
                Some(GamePeriod::PreSuddenDeath)
            } else {
                Some(GamePeriod::BetweenGames)
            },
            GamePeriod::PreSuddenDeath => Some(GamePeriod::SuddenDeath),
            GamePeriod::SuddenDeath => Some(GamePeriod::BetweenGames),
        }
    }

    open spec fn length_spec(&self, p: GamePeriod) -> Option<u32> {
        match p {
            GamePeriod::BetweenGames => Some(self.nominal_break),
            GamePeriod::FirstHalf | GamePeriod::SecondHalf => Some(self.half_play_duration),
            GamePeriod::HalfTime => Some(self.half_time_duration),
            GamePeriod::PreOvertime => Some(self.pre_overtime_break),
            GamePeriod::OvertimeFirstHalf | GamePeriod::OvertimeSecondHalf => Some(
                self.ot_half_play_duration,
            ),
            GamePeriod::OvertimeHalfTime => Some(self.ot_half_time_duration),
            GamePeriod::PreSuddenDeath => Some(self.pre_sudden_death_duration),
            GamePeriod::SuddenDeath => None,
        }
    }

    open spec fn level_spec(p: GamePeriod) -> Option<u8> {
        None
    }

    fn initial() -> (p: GamePeriod) {
        GamePeriod::BetweenGames
    }

    fn first() -> (p: GamePeriod) {
        GamePeriod::FirstHalf
    }

    fn is_initial(p: GamePeriod) -> (yes: bool) {
        p == GamePeriod::BetweenGames
    }

    fn successor(&self, p: GamePeriod) -> (next: Option<GamePeriod>) {
        match p {
            GamePeriod::BetweenGames => None,
            GamePeriod::FirstHalf => Some(GamePeriod::HalfTime),
            GamePeriod::HalfTime => Some(GamePeriod::SecondHalf),
            GamePeriod::SecondHalf => {
                if self.overtime_allowed {
                    Some(GamePeriod::PreOvertime)
                } else if self.sudden_death_allowed {
                    Some(GamePeriod::PreSuddenDeath)
                } else {
                    Some(GamePeriod::BetweenGames)
                }
            },
            GamePeriod::PreOvertime => Some(GamePeriod::OvertimeFirstHalf),
            GamePeriod::OvertimeFirstHalf => Some(GamePeriod::OvertimeHalfTime),
            GamePeriod::OvertimeHalfTime => Some(GamePeriod::OvertimeSecondHalf),
            GamePeriod::OvertimeSecondHalf => {
                if self.sudden_death_allowed {
                    Some(GamePeriod::PreSuddenDeath)
                } else {
                    Some(GamePeriod::BetweenGames)
                }
            },
            GamePeriod::PreSuddenDeath => Some(GamePeriod::SuddenDeath),
            GamePeriod::SuddenDeath => Some(GamePeriod::BetweenGames),
        }
    }

    fn length(&self, p: GamePeriod) -> (secs: Option<u32>) {
        match p {
            GamePeriod::BetweenGames => Some(self.nominal_break),
            GamePeriod::FirstHalf | GamePeriod::SecondHalf => Some(self.half_play_duration),
            GamePeriod::HalfTime => Some(self.half_time_duration),
            GamePeriod::PreOvertime => Some(self.pre_overtime_break),
            GamePeriod::OvertimeFirstHalf | GamePeriod::OvertimeSecondHalf => Some(
                self.ot_half_play_duration,
            ),
            GamePeriod::OvertimeHalfTime => Some(self.ot_half_time_duration),
            GamePeriod::PreSuddenDeath => Some(self.pre_sudden_death_duration),
            GamePeriod::SuddenDeath => None,
        }
    }

    fn level(p: GamePeriod) -> (index: Option<u8>) {
        None
    }

    proof fn successor_descends(&self, p: GamePeriod) {
    }
}

/// The periods of a beep test: the wait before it, then its levels in order.
#[derive(Clone, Copy, Debug, PartialEq, Eq, PartialOrd, Ord, Hash, Structural)]
pub enum BeepTestPeriod {
    Pre,
    Level0,
    Level1,
    Level2,
    Level3,
    Level4,
    Level5,
    Level6,
    Level7,
    Level8,
    Level9,
    Level10,
}

/// The length of each level of the beep-test ladder, in whole seconds.
#[derive(Clone, Copy, Debug)]
pub struct Levels {
    pub secs: [u32; 11],
}

impl Levels {
    /// A ladder whose levels all last `secs` seconds.
    pub fn uniform(secs: u32) -> (levels: Levels)
        ensures
            forall|i: int| 0 <= i < 11 ==> levels.secs@[i] == secs,
    {
        Levels { secs: [secs; 11] }
    }

    /// This ladder with level `index` lasting `secs` seconds. An index
    /// beyond the last level changes nothing.
    pub fn with_level(self, index: u8, secs: u32) -> (levels: Levels)
        ensures
            index < 11 ==> levels.secs@ == self.secs@.update(index as int, secs),
            index >= 11 ==> levels == self,
    {
        let mut out: Levels = self;
        if index < 11 {
            out.secs[index as usize] = secs;
        }
        out
    }
}

impl Schedule for Levels {
    type Period = BeepTestPeriod;

    open spec fn steps_left(p: BeepTestPeriod) -> nat {
        match Self::level_spec(p) {
            Some(k) => (10 - k) as nat,
            None => 0,
        }
    }

    open spec fn initial_spec() -> BeepTestPeriod {
        BeepTestPeriod::Pre
    }

    open spec fn first_spec() -> BeepTestPeriod {
        BeepTestPeriod::Level0
    }

    open spec fn successor_spec(&self, p: BeepTestPeriod) -> Option<BeepTestPeriod> {
        match p {
            BeepTestPeriod::Pre => None,
            BeepTestPeriod::Level0 => Some(BeepTestPeriod::Level1),
            BeepTestPeriod::Level1 => Some(BeepTestPeriod::Level2),
            BeepTestPeriod::Level2 => Some(BeepTestPeriod::Level3),
            BeepTestPeriod::Level3 => Some(BeepTestPeriod::Level4),
            BeepTestPeriod::Level4 => Some(BeepTestPeriod::Level5),
            BeepTestPeriod::Level5 => Some(BeepTestPeriod::Level6),
            BeepTestPeriod::Level6 => Some(BeepTestPeriod::Level7),
            BeepTestPeriod::Level7 => Some(BeepTestPeriod::Level8),
            BeepTestPeriod::Level8 => Some(BeepTestPeriod::Level9),
            BeepTestPeriod::Level9 => Some(BeepTestPeriod::Level10),
            BeepTestPeriod::Level10 => None,
        }
    }

    open spec fn length_spec(&self, p: BeepTestPeriod) -> Option<u32> {
        match Self::level_spec(p) {
            Some(k) => Some(self.secs@[k as int]),
            None => None,
        }
    }

    open spec fn level_spec(p: BeepTestPeriod) -> Option<u8> {
        match p {
            BeepTestPeriod::Pre => None,
            BeepTestPeriod::Level0 => Some(0),
            BeepTestPeriod::Level1 => Some(1),
            BeepTestPeriod::Level2 => Some(2),
            BeepTestPeriod::Level3 => Some(3),
            BeepTestPeriod::Level4 => Some(4),
            BeepTestPeriod::Level5 => Some(5),
            BeepTestPeriod::Level6 => Some(6),
            BeepTestPeriod::Level7 => Some(7),
            BeepTestPeriod::Level8 => Some(8),
            BeepTestPeriod::Level9 => Some(9),
            BeepTestPeriod::Level10 => Some(10),
        }
    }

    fn initial() -> (p: BeepTestPeriod) {
        BeepTestPeriod::Pre
    }

    fn first() -> (p: BeepTestPeriod) {
        BeepTestPeriod::Level0
    }

    fn is_initial(p: BeepTestPeriod) -> (yes: bool) {
        p == BeepTestPeriod::Pre
    }

    fn successor(&self, p: BeepTestPeriod) -> (next: Option<BeepTestPeriod>) {
        match p {
            BeepTestPeriod::Pre => None,
            BeepTestPeriod::Level0 => Some(BeepTestPeriod::Level1),
            BeepTestPeriod::Level1 => Some(BeepTestPeriod::Level2),
            BeepTestPeriod::Level2 => Some(BeepTestPeriod::Level3),
            BeepTestPeriod::Level3 => Some(BeepTestPeriod::Level4),
            BeepTestPeriod::Level4 => Some(BeepTestPeriod::Level5),
            BeepTestPeriod::Level5 => Some(BeepTestPeriod::Level6),
            BeepTestPeriod::Level6 => Some(BeepTestPeriod::Level7),
            BeepTestPeriod::Level7 => Some(BeepTestPeriod::Level8),
            BeepTestPeriod::Level8 => Some(BeepTestPeriod::Level9),
            BeepTestPeriod::Level9 => Some(BeepTestPeriod::Level10),
            BeepTestPeriod::Level10 => None,
        }
    }

    fn length(&self, p: BeepTestPeriod) -> (secs: Option<u32>) {
        match Self::level(p) {
            Some(k) => Some(self.secs[k as usize]),
            None => None,
        }
    }

    fn level(p: BeepTestPeriod) -> (index: Option<u8>) {
        match p {
            BeepTestPeriod::Pre => None,
            BeepTestPeriod::Level0 => Some(0),
            BeepTestPeriod::Level1 => Some(1),
            BeepTestPeriod::Level2 => Some(2),
            BeepTestPeriod::Level3 => Some(3),
            BeepTestPeriod::Level4 => Some(4),
            BeepTestPeriod::Level5 => Some(5),
            BeepTestPeriod::Level6 => Some(6),
            BeepTestPeriod::Level7 => Some(7),
            BeepTestPeriod::Level8 => Some(8),
            BeepTestPeriod::Level9 => Some(9),
            BeepTestPeriod::Level10 => Some(10),
        }
    }

    proof fn successor_descends(&self, p: BeepTestPeriod) {
    }
}

} // verus!
