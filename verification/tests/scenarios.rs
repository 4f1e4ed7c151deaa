use game_clock::manager::{TournamentError, TournamentManager};
use game_clock::schedule::{BeepTestPeriod, GameConfig, GamePeriod, Levels};
use game_clock::time::Instant;
use game_clock::timeout::{TimeoutKind, TimeoutState};

fn secs(s: u32) -> Instant {
    Instant::from_secs(s)
}

#[test]
fn first_half_runs_out_into_half_time() {
    let config = GameConfig { half_play_duration: 900, half_time_duration: 180, ..GameConfig::default() };
    let mut tm = TournamentManager::new(config);
    assert_eq!(tm.start_now(secs(0)), Ok(()));
    assert_eq!(tm.current_period(), GamePeriod::FirstHalf);
    tm.update(secs(899));
    assert_eq!(tm.current_period(), GamePeriod::FirstHalf);
    assert_eq!(tm.period_state().secs_in_period, 1);
    tm.update(secs(900));
    assert_eq!(tm.current_period(), GamePeriod::HalfTime);
    assert_eq!(tm.period_state().secs_in_period, 180);
    let shown = tm.generate_snapshot(secs(900)).unwrap();
    assert_eq!(shown.current_period, GamePeriod::HalfTime);
    assert_eq!(shown.secs_in_period, 180);
}

#[test]
fn beep_test_moves_to_level_one_a_second_late() {
    let levels = Levels::uniform(45).with_level(0, 60).with_level(1, 50);
    let mut tm = TournamentManager::new(levels);
    tm.reset_beep_test_now(secs(0));
    assert_eq!(tm.start_beep_test_now(secs(0)), Ok(()));
    tm.update(secs(61));
    let shown = tm.generate_snapshot(secs(61)).unwrap();
    assert_eq!(shown.current_period, BeepTestPeriod::Level1);
    assert_eq!(shown.secs_in_period, 49);
    assert_eq!(shown.level, Some(1));
}

#[test]
fn white_timeout_counts_down_and_freezes_the_period() {
    let mut tm = TournamentManager::new(GameConfig::default());
    tm.set_team_timeout_secs(60);
    tm.start_now(secs(0)).unwrap();
    tm.update(secs(100));
    let at_entry = tm.period_state().secs_in_period;
    assert_eq!(at_entry, 800);
    assert_eq!(tm.enter_timeout(TimeoutKind::White, secs(100)), Ok(()));
    assert_eq!(tm.timeout(), TimeoutState::White(60));
    for step in 1..=10u32 {
        tm.update(secs(100 + step));
    }
    assert_eq!(tm.timeout(), TimeoutState::White(50));
    assert_eq!(tm.period_state().secs_in_period, at_entry);
}

#[test]
fn stopping_twice_fails_the_second_time() {
    let mut tm = TournamentManager::new(GameConfig::default());
    tm.start_now(secs(0)).unwrap();
    assert_eq!(tm.stop_clock(secs(3)), Ok(()));
    assert_eq!(tm.stop_clock(secs(4)), Err(TournamentError::NotRunning));
}
