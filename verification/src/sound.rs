//! Which sound a new beep-test snapshot calls for.
use vstd::prelude::*;
use crate::schedule::BeepTestPeriod;
use crate::snapshot::BeepTestSnapshot;

verus! {

/// Which sounds are made without an operator asking for them.
#[derive(Clone, Copy, Debug, PartialEq, Eq, Structural)]
pub struct SoundSettings {
    /// Sound the buzzer when a period ends and play starts.
    pub auto_sound_start_play: bool,
    /// Sound the buzzer when a period ends and play stops.
    pub auto_sound_stop_play: bool,
}

/// The sound to make, if any.
#[derive(Clone, Copy, Debug, PartialEq, Eq, Structural)]
pub enum SoundCue {
    Silence,
    Whistle,
    Buzzer,
}

/// Seconds before the end of a level at which the whistle is blown.
pub const WHISTLE_AT_SECS: u32 = 5;

/// The sound that the snapshot `new` calls for when `shown` is on display.
///
/// A sound is made only in a level, and only when the seconds have changed.
/// Five seconds before the end of a level the whistle is blown. At the end
/// of a level play starts, and the buzzer sounds if the settings say so.
pub open spec fn sound_cue_spec(
    settings: SoundSettings,
    shown: BeepTestSnapshot,
    new: BeepTestSnapshot,
) -> SoundCue {
    let ticked = new.current_period != BeepTestPeriod::Pre && new.secs_in_period
        != shown.secs_in_period;
    if ticked && new.secs_in_period == WHISTLE_AT_SECS {
        SoundCue::Whistle
    } else if ticked && new.secs_in_period == 0 && settings.auto_sound_start_play {
        SoundCue::Buzzer
    } else {
        SoundCue::Silence
    }
}

/// Whether the whistle is blown before the end of `period`.
fn is_whistle_period(period: BeepTestPeriod) -> (yes: bool)
    ensures
        yes == (period != BeepTestPeriod::Pre),
{
    match period {
        BeepTestPeriod::Level0
        | BeepTestPeriod::Level1
        | BeepTestPeriod::Level2
        | BeepTestPeriod::Level3
        | BeepTestPeriod::Level4
        | BeepTestPeriod::Level5
        | BeepTestPeriod::Level6
        | BeepTestPeriod::Level7
        | BeepTestPeriod::Level8
        | BeepTestPeriod::Level9
        | BeepTestPeriod::Level10 => true,
        BeepTestPeriod::Pre => false,
    }
}

/// Whether play starts, and whether it stops, at the end of `period`.
fn end_of_period(period: BeepTestPeriod) -> (ends: (bool, bool))
    ensures
        ends == (true, false),
{
    match period {
        BeepTestPeriod::Pre
        | BeepTestPeriod::Level0
        | BeepTestPeriod::Level1
        | BeepTestPeriod::Level2
        | BeepTestPeriod::Level3
        | BeepTestPeriod::Level4
        | BeepTestPeriod::Level5
        | BeepTestPeriod::Level6
        | BeepTestPeriod::Level7
        | BeepTestPeriod::Level8
        | BeepTestPeriod::Level9
        | BeepTestPeriod::Level10 => (true, false),
    }
}

/// The sound that the snapshot `new` calls for when `shown` is on display.
pub fn sound_cue(settings: &SoundSettings, shown: &BeepTestSnapshot, new: &BeepTestSnapshot) -> (cue:
    SoundCue)
    ensures
        cue == sound_cue_spec(*settings, *shown, *new),
{
    let prereqs: bool = new.current_period != BeepTestPeriod::Pre && new.secs_in_period
        != shown.secs_in_period;
    let (end_starts_play, end_stops_play): (bool, bool) = end_of_period(new.current_period);
    let is_buzz_period: bool = end_starts_play && settings.auto_sound_start_play || end_stops_play
        && settings.auto_sound_stop_play;
    let play_whistle: bool = prereqs && is_whistle_period(new.current_period) && new.secs_in_period
        == WHISTLE_AT_SECS;
    let play_buzzer: bool = prereqs && is_buzz_period && new.secs_in_period == 0;
    if play_whistle {
        SoundCue::Whistle
    } else if play_buzzer {
        SoundCue::Buzzer
    } else {
        SoundCue::Silence
    }
}

} // verus!
