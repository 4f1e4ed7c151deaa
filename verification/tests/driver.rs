use game_clock::driver::{plan_wait, refresh, Console, Effects, Message, Refresh, Wait, Wake};
use game_clock::manager::{TournamentError, TournamentManager};
use game_clock::schedule::{BeepTestPeriod, GameConfig, GamePeriod, Levels};
use game_clock::snapshot::{BeepTestSnapshot, Snapshot};
use game_clock::sound::{SoundCue, SoundSettings};
use game_clock::time::Instant;

fn secs(s: u32) -> Instant {
    Instant::from_secs(s)
}

const AUTO: SoundSettings = SoundSettings { auto_sound_start_play: true, auto_sound_stop_play: false };

const NOTHING: Effects = Effects { cue: SoundCue::Silence, broadcast: None };

fn level(period: BeepTestPeriod, left: u32, index: Option<u8>) -> BeepTestSnapshot {
    let mut snapshot = Snapshot::waiting(period);
    snapshot.secs_in_period = left;
    snapshot.level = index;
    snapshot
}

#[test]
fn wait_goes_by_the_next_update_time() {
    assert_eq!(plan_wait(Some(secs(5)), secs(4)), Wait::Until(secs(5)));
    assert_eq!(plan_wait(Some(secs(5)), secs(5)), Wait::Poll);
    assert_eq!(plan_wait(Some(secs(5)), secs(6)), Wait::Poll);
    assert_eq!(plan_wait(None, secs(6)), Wait::ForChange);
}

#[test]
fn round_after_a_deadline_hands_on_snapshot_and_next_time() {
    let mut tm = TournamentManager::new(GameConfig::default());
    tm.start_now(secs(0)).unwrap();
    let round = refresh(&mut tm, Wake::Deadline, Instant::from_millis(12_500)).unwrap();
    assert_eq!(round.snapshot.current_period, GamePeriod::FirstHalf);
    assert_eq!(round.snapshot.secs_in_period, 888);
    assert_eq!(round.next_time, Some(secs(13)));
    let polled = refresh(&mut tm, Wake::Unchanged, secs(13)).unwrap();
    assert_eq!(polled.snapshot.secs_in_period, 887);
    assert_eq!(polled.next_time, Some(secs(14)));
}

#[test]
fn round_after_a_stop_waits_for_the_next_change() {
    let mut tm = TournamentManager::new(GameConfig::default());
    tm.start_now(secs(0)).unwrap();
    tm.stop_clock(secs(10)).unwrap();
    let round = refresh(&mut tm, Wake::Changed(false), secs(11)).unwrap();
    assert_eq!(
        round,
        Refresh { snapshot: tm.generate_snapshot(secs(11)).unwrap(), next_time: None }
    );
    assert_eq!(round.snapshot.secs_in_period, 890);
    tm.start_clock(secs(20)).unwrap();
    let round = refresh(&mut tm, Wake::Changed(true), secs(20)).unwrap();
    assert_eq!(round.next_time, Some(secs(21)));
}

#[test]
fn round_ends_the_updater_when_the_signal_is_closed() {
    let mut tm = TournamentManager::new(GameConfig::default());
    tm.start_now(secs(0)).unwrap();
    assert_eq!(refresh(&mut tm, Wake::Closed, secs(30)), None);
    assert_eq!(tm.period_state().secs_in_period, 900);
}

#[test]
fn commands_are_the_messages_that_do_not_repeat() {
    assert!(!Message::Reset.is_repeatable());
    assert!(!Message::Start.is_repeatable());
    assert!(!Message::Stop.is_repeatable());
    assert!(Message::NoAction.is_repeatable());
    assert!(Message::NewSnapshot(BeepTestSnapshot::default()).is_repeatable());
}

#[test]
fn start_message_starts_the_test_and_later_the_clock() {
    let mut tm = TournamentManager::new(Levels::uniform(60));
    let mut console = Console::new(AUTO);
    assert_eq!(console.last_message, Message::NoAction);
    assert_eq!(console.snapshot, BeepTestSnapshot::default());
    let started = console.handle(&mut tm, Message::Start, secs(0)).unwrap();
    let level0 = level(BeepTestPeriod::Level0, 60, Some(0));
    assert_eq!(started, Effects { cue: SoundCue::Silence, broadcast: Some(level0) });
    assert_eq!(console.snapshot, level0);
    assert_eq!(console.last_message, Message::Start);
    assert!(tm.clock_is_running());
    assert_eq!(console.handle(&mut tm, Message::Stop, secs(10)), Ok(NOTHING));
    assert!(!tm.clock_is_running());
    assert_eq!(console.snapshot, level0);
    let resumed = console.handle(&mut tm, Message::Start, secs(30)).unwrap();
    assert_eq!(resumed.broadcast, Some(level0));
    assert!(tm.clock_is_running());
    assert_eq!(tm.current_period(), BeepTestPeriod::Level0);
    tm.update(secs(31));
    assert_eq!(tm.period_state().secs_in_period, 49);
}

#[test]
fn command_that_comes_twice_in_a_row_is_ignored() {
    let mut tm = TournamentManager::new(Levels::uniform(60));
    let mut console = Console::new(AUTO);
    console.handle(&mut tm, Message::Start, secs(0)).unwrap();
    assert_eq!(console.handle(&mut tm, Message::Start, secs(1)), Ok(NOTHING));
    console.handle(&mut tm, Message::Stop, secs(2)).unwrap();
    assert_eq!(console.handle(&mut tm, Message::Stop, secs(3)), Ok(NOTHING));
    assert_eq!(console.last_message, Message::Stop);
    assert!(!tm.clock_is_running());
}

#[test]
fn stop_with_a_stopped_clock_is_reported() {
    let mut tm = TournamentManager::new(Levels::uniform(60));
    let mut console = Console::new(AUTO);
    assert_eq!(
        console.handle(&mut tm, Message::Stop, secs(0)),
        Err(TournamentError::NotRunning)
    );
    assert_eq!(console.last_message, Message::Stop);
}

#[test]
fn start_with_a_running_clock_shows_the_snapshot_again() {
    let mut tm = TournamentManager::new(Levels::uniform(60));
    let mut console = Console::new(AUTO);
    console.handle(&mut tm, Message::Start, secs(1)).unwrap();
    console.handle(&mut tm, Message::NoAction, secs(2)).unwrap();
    tm.update(secs(11));
    let version = tm.clock_running_signal().version;
    let shown = level(BeepTestPeriod::Level0, 50, Some(0));
    assert_eq!(
        console.handle(&mut tm, Message::Start, secs(11)),
        Ok(Effects { cue: SoundCue::Silence, broadcast: Some(shown) })
    );
    assert_eq!(console.snapshot, shown);
    assert!(tm.clock_is_running());
    assert_eq!(tm.clock_running_signal().version, version);
}

#[test]
fn reset_message_shows_the_test_before_its_start() {
    let mut tm = TournamentManager::new(Levels::uniform(60));
    let mut console = Console::new(AUTO);
    console.handle(&mut tm, Message::Start, secs(0)).unwrap();
    tm.update(secs(70));
    let reset = console.handle(&mut tm, Message::Reset, secs(71)).unwrap();
    let pre = level(BeepTestPeriod::Pre, 0, None);
    assert_eq!(reset, Effects { cue: SoundCue::Silence, broadcast: Some(pre) });
    assert_eq!(console.snapshot, pre);
    assert!(!tm.clock_is_running());
    assert_eq!(tm.current_period(), BeepTestPeriod::Pre);
}

#[test]
fn new_snapshot_is_shown_and_sounds_at_the_right_seconds() {
    let mut tm = TournamentManager::new(Levels::uniform(60));
    let mut console = Console::new(AUTO);
    let six = level(BeepTestPeriod::Level2, 6, Some(2));
    let five = level(BeepTestPeriod::Level2, 5, Some(2));
    let zero = level(BeepTestPeriod::Level2, 0, Some(2));
    assert_eq!(
        console.handle(&mut tm, Message::NewSnapshot(six), secs(1)),
        Ok(Effects { cue: SoundCue::Silence, broadcast: Some(six) })
    );
    assert_eq!(
        console.handle(&mut tm, Message::NewSnapshot(five), secs(2)),
        Ok(Effects { cue: SoundCue::Whistle, broadcast: Some(five) })
    );
    assert_eq!(
        console.handle(&mut tm, Message::NewSnapshot(five), secs(2)),
        Ok(Effects { cue: SoundCue::Silence, broadcast: Some(five) })
    );
    assert_eq!(
        console.apply_snapshot(zero),
        Effects { cue: SoundCue::Buzzer, broadcast: Some(zero) }
    );
    assert_eq!(console.snapshot, zero);
    assert_eq!(console.last_message, Message::NewSnapshot(five));
    assert_eq!(tm.current_period(), BeepTestPeriod::Pre);
}
