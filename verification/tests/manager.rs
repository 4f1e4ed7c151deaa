use game_clock::manager::{TournamentError, TournamentManager};
use game_clock::model::Timezone;
use game_clock::schedule::{BeepTestPeriod, GameConfig, GamePeriod, Levels};
use game_clock::sequencer::{remaining, PeriodState};
use game_clock::signal::ClockRunningSignal;
use game_clock::time::Instant;
use game_clock::timeout::{TimeoutKind, TimeoutState};

fn ms(millis: u64) -> Instant {
    Instant::from_millis(millis)
}

fn secs(s: u32) -> Instant {
    Instant::from_secs(s)
}

fn game() -> TournamentManager<GameConfig> {
    TournamentManager::new(GameConfig::default())
}

fn started_game() -> TournamentManager<GameConfig> {
    let mut tm = game();
    tm.start_now(secs(0)).unwrap();
    tm
}

fn left(tm: &TournamentManager<GameConfig>) -> u32 {
    tm.period_state().secs_in_period
}

#[test]
fn new_manager_waits_between_games_with_a_stopped_clock() {
    let tm = game();
    assert_eq!(
        tm.period_state(),
        PeriodState {
            current: GamePeriod::BetweenGames,
            secs_in_period: 900,
            next_period_len_secs: None
        }
    );
    assert!(!tm.clock_is_running());
    assert_eq!(tm.timeout(), TimeoutState::Inactive);
    assert_eq!(tm.clock_running_signal(), ClockRunningSignal { value: false, version: 0 });
    let shown = tm.generate_snapshot(secs(0)).unwrap();
    assert_eq!(shown.current_period, GamePeriod::BetweenGames);
    assert_eq!(shown.secs_in_period, 900);
    assert_eq!((shown.b_score, shown.w_score), (0, 0));
    assert!(!shown.is_old_game);
    assert_eq!(shown.level, None);
}

#[test]
fn remaining_seconds_are_the_length_less_the_whole_seconds_gone() {
    assert_eq!(remaining(900, 0), 900);
    assert_eq!(remaining(900, 999), 900);
    assert_eq!(remaining(900, 1_000), 899);
    assert_eq!(remaining(900, 899_999), 1);
    assert_eq!(remaining(900, 900_000), 0);
    assert_eq!(remaining(900, u64::MAX), 0);
    assert_eq!(remaining(0, 0), 0);
}

#[test]
fn countdown_never_increases_between_updates() {
    let mut tm = started_game();
    tm.update(ms(10_400));
    assert_eq!(left(&tm), 890);
    tm.update(ms(10_900));
    assert_eq!(left(&tm), 890);
    tm.update(ms(11_000));
    assert_eq!(left(&tm), 889);
    tm.update(ms(899_999));
    assert_eq!(left(&tm), 1);
}

#[test]
fn update_with_an_earlier_now_changes_nothing() {
    let mut tm = started_game();
    tm.update(secs(20));
    let before = tm.generate_snapshot(secs(20)).unwrap();
    tm.update(secs(15));
    tm.update(secs(20));
    tm.update(secs(0));
    assert_eq!(tm.generate_snapshot(secs(20)).unwrap(), before);
    assert_eq!(left(&tm), 880);
    tm.update(secs(21));
    assert_eq!(left(&tm), 879);
}

#[test]
fn pause_and_resume_lose_and_gain_no_time() {
    let mut tm = started_game();
    tm.update(secs(20));
    assert_eq!(left(&tm), 880);
    assert_eq!(tm.stop_clock(ms(20_400)), Ok(()));
    assert_eq!(tm.start_clock(secs(50)), Ok(()));
    assert_eq!(left(&tm), 880);
    tm.update(secs(50));
    assert_eq!(left(&tm), 880);
    tm.update(ms(50_599));
    assert_eq!(left(&tm), 880);
    tm.update(ms(50_600));
    assert_eq!(left(&tm), 879);
}

#[test]
fn update_while_paused_changes_nothing() {
    let mut tm = started_game();
    tm.stop_clock(secs(20)).unwrap();
    tm.update(secs(20));
    tm.update(secs(500));
    assert_eq!(left(&tm), 880);
    assert_eq!(tm.current_period(), GamePeriod::FirstHalf);
}

#[test]
fn timeout_entered_and_cancelled_at_once_changes_nothing() {
    let mut tm = started_game();
    tm.update(secs(30));
    let before = tm.generate_snapshot(secs(30)).unwrap();
    assert_eq!(tm.enter_timeout(TimeoutKind::Referee, secs(30)), Ok(()));
    assert_eq!(tm.timeout(), TimeoutState::Referee);
    assert_eq!(tm.cancel_timeout(secs(30)), Ok(()));
    assert_eq!(tm.generate_snapshot(secs(30)).unwrap(), before);
    tm.update(ms(30_999));
    assert_eq!(left(&tm), 870);
    tm.update(secs(31));
    assert_eq!(left(&tm), 869);
}

#[test]
fn time_in_a_timeout_does_not_count_against_the_period() {
    let mut tm = started_game();
    tm.update(secs(30));
    tm.enter_timeout(TimeoutKind::PenaltyShot, secs(30)).unwrap();
    tm.update(secs(45));
    assert_eq!(tm.timeout(), TimeoutState::PenaltyShot);
    assert_eq!(left(&tm), 870);
    tm.cancel_timeout(secs(50)).unwrap();
    assert_eq!(tm.timeout(), TimeoutState::Inactive);
    tm.update(secs(50));
    assert_eq!(left(&tm), 870);
    tm.update(secs(51));
    assert_eq!(left(&tm), 869);
}

#[test]
fn second_timeout_is_refused_and_names_the_active_one() {
    let mut tm = started_game();
    tm.enter_timeout(TimeoutKind::White, secs(10)).unwrap();
    assert_eq!(
        tm.enter_timeout(TimeoutKind::Black, secs(11)),
        Err(TournamentError::TimeoutConflict(TimeoutKind::White))
    );
    assert_eq!(tm.timeout(), TimeoutState::White(60));
    tm.cancel_timeout(secs(12)).unwrap();
    tm.enter_timeout(TimeoutKind::Referee, secs(13)).unwrap();
    assert_eq!(
        tm.enter_timeout(TimeoutKind::Referee, secs(14)),
        Err(TournamentError::TimeoutConflict(TimeoutKind::Referee))
    );
    tm.cancel_timeout(secs(15)).unwrap();
    tm.enter_timeout(TimeoutKind::Black, secs(16)).unwrap();
    assert_eq!(
        tm.enter_timeout(TimeoutKind::White, secs(17)),
        Err(TournamentError::TimeoutConflict(TimeoutKind::Black))
    );
    tm.cancel_timeout(secs(18)).unwrap();
    tm.enter_timeout(TimeoutKind::PenaltyShot, secs(19)).unwrap();
    assert_eq!(
        tm.enter_timeout(TimeoutKind::White, secs(20)),
        Err(TournamentError::TimeoutConflict(TimeoutKind::PenaltyShot))
    );
}

#[test]
fn cancelling_without_a_timeout_is_refused() {
    let mut tm = started_game();
    assert_eq!(tm.cancel_timeout(secs(5)), Err(TournamentError::InvalidTransition));
}

#[test]
fn team_timeout_runs_down_and_ends_by_itself() {
    let mut tm = started_game();
    tm.set_team_timeout_secs(45);
    tm.update(secs(100));
    tm.enter_timeout(TimeoutKind::Black, secs(100)).unwrap();
    assert_eq!(tm.timeout(), TimeoutState::Black(45));
    tm.update(ms(144_999));
    assert_eq!(tm.timeout(), TimeoutState::Black(1));
    assert_eq!(left(&tm), 800);
    tm.update(secs(145));
    assert_eq!(tm.timeout(), TimeoutState::Inactive);
    assert_eq!(left(&tm), 800);
    tm.update(ms(146_500));
    assert_eq!(left(&tm), 799);
}

#[test]
fn period_goes_on_from_the_instant_at_which_the_timeout_ran_down() {
    let mut tm = started_game();
    tm.update(secs(100));
    tm.enter_timeout(TimeoutKind::White, secs(100)).unwrap();
    tm.update(secs(170));
    assert_eq!(tm.timeout(), TimeoutState::Inactive);
    assert_eq!(left(&tm), 790);
}

#[test]
fn paused_clock_pauses_the_team_timeout() {
    let mut tm = started_game();
    tm.enter_timeout(TimeoutKind::White, secs(10)).unwrap();
    tm.update(secs(20));
    assert_eq!(tm.timeout(), TimeoutState::White(50));
    tm.stop_clock(secs(20)).unwrap();
    tm.update(secs(300));
    assert_eq!(tm.timeout(), TimeoutState::White(50));
    tm.start_clock(secs(300)).unwrap();
    tm.update(secs(305));
    assert_eq!(tm.timeout(), TimeoutState::White(45));
}

#[test]
fn next_update_time_is_the_next_whole_second_of_the_period() {
    let mut tm = started_game();
    tm.update(ms(30_250));
    assert_eq!(tm.next_update_time(ms(30_250)), Some(secs(31)));
    let before = tm.generate_snapshot(ms(30_250)).unwrap();
    tm.update(secs(31));
    assert_ne!(tm.generate_snapshot(secs(31)).unwrap(), before);
    assert_eq!(left(&tm), 869);
    assert_eq!(tm.next_update_time(secs(31)), Some(secs(32)));
}

#[test]
fn next_update_time_is_the_next_whole_second_of_the_team_timeout() {
    let mut tm = started_game();
    tm.enter_timeout(TimeoutKind::White, ms(10_300)).unwrap();
    tm.update(ms(10_700));
    assert_eq!(tm.next_update_time(ms(10_700)), Some(ms(11_300)));
    tm.update(ms(11_300));
    assert_eq!(tm.timeout(), TimeoutState::White(59));
    tm.update(ms(70_000));
    assert_eq!(tm.next_update_time(ms(70_000)), Some(ms(70_300)));
    tm.update(ms(70_300));
    assert_eq!(tm.timeout(), TimeoutState::Inactive);
}

#[test]
fn next_update_time_is_at_hand_when_a_change_is_overdue() {
    let mut tm = started_game();
    assert_eq!(tm.next_update_time(secs(2_000)), Some(ms(2_000_001)));
    tm.enter_timeout(TimeoutKind::Black, secs(10)).unwrap();
    assert_eq!(tm.next_update_time(secs(400)), Some(ms(400_001)));
}

#[test]
fn no_next_update_time_while_nothing_counts() {
    let mut tm = game();
    assert_eq!(tm.next_update_time(secs(1)), None);
    tm.start_now(secs(1)).unwrap();
    tm.stop_clock(secs(2)).unwrap();
    assert_eq!(tm.next_update_time(secs(3)), None);
    tm.start_clock(secs(3)).unwrap();
    tm.enter_timeout(TimeoutKind::Referee, secs(4)).unwrap();
    assert_eq!(tm.next_update_time(secs(5)), None);
    tm.cancel_timeout(secs(6)).unwrap();
    assert_eq!(tm.next_update_time(secs(6)), Some(secs(7)));
}

#[test]
fn no_next_update_time_beyond_the_end_of_time() {
    let mut tm = game();
    tm.start_now(ms(u64::MAX - 10)).unwrap();
    assert_eq!(tm.next_update_time(ms(u64::MAX - 10)), None);
    tm.update(ms(u64::MAX));
    assert_eq!(left(&tm), 900);
}

#[test]
fn starting_a_contest_that_is_under_way_is_refused() {
    let mut tm = started_game();
    tm.update(secs(5));
    assert_eq!(tm.start_now(secs(6)), Err(TournamentError::InvalidTransition));
    assert_eq!(tm.current_period(), GamePeriod::FirstHalf);
    assert_eq!(left(&tm), 895);
}

#[test]
fn clock_commands_are_refused_in_the_wrong_state() {
    let mut tm = game();
    assert_eq!(tm.stop_clock(secs(0)), Err(TournamentError::NotRunning));
    assert_eq!(tm.start_clock(secs(1)), Ok(()));
    assert_eq!(tm.start_clock(secs(2)), Err(TournamentError::AlreadyRunning));
    assert!(tm.clock_is_running());
}

#[test]
fn game_without_overtime_runs_through_in_one_update() {
    let config = GameConfig {
        overtime_allowed: false,
        sudden_death_allowed: false,
        ..GameConfig::default()
    };
    let mut tm = TournamentManager::new(config);
    tm.start_now(secs(0)).unwrap();
    tm.update(secs(1_979));
    assert_eq!(tm.current_period(), GamePeriod::SecondHalf);
    assert_eq!(left(&tm), 1);
    tm.update(secs(1_985));
    let shown = tm.generate_snapshot(secs(1_985)).unwrap();
    assert_eq!(shown.current_period, GamePeriod::BetweenGames);
    assert_eq!(shown.secs_in_period, 895);
    assert!(shown.is_old_game);
    tm.update(secs(5_000));
    assert_eq!(tm.current_period(), GamePeriod::BetweenGames);
    assert_eq!(left(&tm), 0);
    assert_eq!(tm.next_update_time(secs(5_000)), None);
    assert_eq!(tm.start_now(secs(5_001)), Ok(()));
    let shown = tm.generate_snapshot(secs(5_001)).unwrap();
    assert_eq!(shown.current_period, GamePeriod::FirstHalf);
    assert!(!shown.is_old_game);
}

#[test]
fn game_with_overtime_ends_up_in_sudden_death() {
    let mut tm = started_game();
    let order = [
        (0, GamePeriod::FirstHalf, 900),
        (900, GamePeriod::HalfTime, 180),
        (1_080, GamePeriod::SecondHalf, 900),
        (1_980, GamePeriod::PreOvertime, 180),
        (2_160, GamePeriod::OvertimeFirstHalf, 300),
        (2_460, GamePeriod::OvertimeHalfTime, 180),
        (2_640, GamePeriod::OvertimeSecondHalf, 300),
        (2_940, GamePeriod::PreSuddenDeath, 60),
        (3_000, GamePeriod::SuddenDeath, 0),
    ];
    for (at, period, length) in order {
        tm.update(secs(at));
        assert_eq!(tm.current_period(), period);
        assert_eq!(left(&tm), length);
    }
    tm.update(secs(50_000));
    assert_eq!(tm.current_period(), GamePeriod::SuddenDeath);
    assert_eq!(left(&tm), 0);
    assert_eq!(tm.next_update_time(secs(50_000)), None);
}

#[test]
fn sudden_death_without_overtime() {
    let config = GameConfig { overtime_allowed: false, ..GameConfig::default() };
    let mut tm = TournamentManager::new(config);
    tm.start_now(secs(0)).unwrap();
    tm.update(secs(1_980));
    assert_eq!(tm.current_period(), GamePeriod::PreSuddenDeath);
    assert_eq!(left(&tm), 60);
}

#[test]
fn overtime_without_sudden_death_ends_the_game() {
    let config = GameConfig { sudden_death_allowed: false, ..GameConfig::default() };
    let mut tm = TournamentManager::new(config);
    tm.start_now(secs(0)).unwrap();
    tm.update(secs(2_939));
    assert_eq!(tm.current_period(), GamePeriod::OvertimeSecondHalf);
    tm.update(secs(2_940));
    assert_eq!(tm.current_period(), GamePeriod::BetweenGames);
    assert_eq!(left(&tm), 900);
}

#[test]
fn period_of_length_zero_is_passed_at_once() {
    let config = GameConfig { half_time_duration: 0, ..GameConfig::default() };
    let mut tm = TournamentManager::new(config);
    tm.start_now(secs(0)).unwrap();
    tm.update(secs(900));
    assert_eq!(tm.current_period(), GamePeriod::SecondHalf);
    assert_eq!(left(&tm), 900);
}

#[test]
fn first_period_of_length_zero_is_passed_on_the_first_update() {
    let config = GameConfig { half_play_duration: 0, ..GameConfig::default() };
    let mut tm = TournamentManager::new(config);
    tm.start_now(secs(7)).unwrap();
    assert_eq!(tm.current_period(), GamePeriod::FirstHalf);
    assert_eq!(left(&tm), 0);
    tm.update(secs(7));
    assert_eq!(tm.current_period(), GamePeriod::HalfTime);
    assert_eq!(left(&tm), 180);
}

#[test]
fn new_lengths_hold_from_the_next_period_on() {
    let mut tm = started_game();
    tm.update(secs(100));
    let shorter = GameConfig {
        half_play_duration: 600,
        half_time_duration: 240,
        ..GameConfig::default()
    };
    tm.set_period_lengths(shorter);
    assert_eq!(
        tm.period_state(),
        PeriodState {
            current: GamePeriod::FirstHalf,
            secs_in_period: 800,
            next_period_len_secs: Some(240)
        }
    );
    tm.update(secs(899));
    assert_eq!(left(&tm), 1);
    tm.update(secs(900));
    assert_eq!(
        tm.period_state(),
        PeriodState {
            current: GamePeriod::HalfTime,
            secs_in_period: 240,
            next_period_len_secs: None
        }
    );
    tm.update(secs(1_140));
    assert_eq!(tm.current_period(), GamePeriod::SecondHalf);
    assert_eq!(left(&tm), 600);
}

#[test]
fn lengths_set_before_the_start_hold_for_the_first_period() {
    let mut tm = game();
    tm.set_period_lengths(GameConfig { half_play_duration: 420, ..GameConfig::default() });
    let shown = tm.generate_snapshot(secs(0)).unwrap();
    assert_eq!(shown.next_period_len_secs, Some(420));
    assert_eq!(shown.secs_in_period, 900);
    tm.start_now(secs(3)).unwrap();
    assert_eq!(left(&tm), 420);
}

#[test]
fn reset_goes_back_to_the_initial_period_and_keeps_the_configuration() {
    let config = GameConfig { nominal_break: 300, ..GameConfig::default() };
    let mut tm = TournamentManager::new(config);
    tm.set_timezone(Timezone { utc_offset_secs: 7_200 });
    tm.start_now(secs(0)).unwrap();
    tm.set_scores(3, 2);
    tm.enter_timeout(TimeoutKind::Referee, secs(10)).unwrap();
    let version = tm.clock_running_signal().version;
    tm.reset_now(secs(20));
    let shown = tm.generate_snapshot(secs(20)).unwrap();
    assert_eq!(shown.current_period, GamePeriod::BetweenGames);
    assert_eq!(shown.secs_in_period, 300);
    assert_eq!(shown.timeout, TimeoutState::Inactive);
    assert_eq!((shown.b_score, shown.w_score), (0, 0));
    assert!(!tm.clock_is_running());
    assert_eq!(tm.clock_running_signal(), ClockRunningSignal { value: false, version: version + 1 });
    assert_eq!(tm.timezone(), Timezone { utc_offset_secs: 7_200 });
    tm.reset_now(secs(21));
    assert_eq!(tm.clock_running_signal().version, version + 1);
    tm.start_now(secs(30)).unwrap();
    tm.update(secs(40));
    assert_eq!(left(&tm), 890);
}

#[test]
fn scores_are_shown_and_cleared_by_a_new_start() {
    let mut tm = game();
    tm.set_scores(4, 7);
    let shown = tm.generate_snapshot(secs(0)).unwrap();
    assert_eq!((shown.b_score, shown.w_score), (4, 7));
    tm.start_now(secs(0)).unwrap();
    let shown = tm.generate_snapshot(secs(0)).unwrap();
    assert_eq!((shown.b_score, shown.w_score), (0, 0));
}

#[test]
fn every_start_and_stop_is_published() {
    let mut tm = game();
    let mut reader = tm.get_start_stop_rx();
    assert!(!reader.has_changed(&tm.clock_running_signal()));
    tm.start_clock(secs(1)).unwrap();
    assert!(reader.has_changed(&tm.clock_running_signal()));
    assert!(reader.borrow_and_update(&tm.clock_running_signal()));
    assert!(!reader.has_changed(&tm.clock_running_signal()));
    assert_eq!(tm.start_clock(secs(2)), Err(TournamentError::AlreadyRunning));
    assert!(!reader.has_changed(&tm.clock_running_signal()));
    let mut late_reader = tm.get_start_stop_rx();
    tm.stop_clock(secs(3)).unwrap();
    tm.start_clock(secs(4)).unwrap();
    assert!(reader.has_changed(&tm.clock_running_signal()));
    assert!(late_reader.has_changed(&tm.clock_running_signal()));
    assert!(late_reader.borrow_and_update(&tm.clock_running_signal()));
    assert!(reader.borrow_and_update(&tm.clock_running_signal()));
    assert_eq!(tm.clock_running_signal(), ClockRunningSignal { value: true, version: 3 });
}

#[test]
fn signal_version_starts_again_after_the_last() {
    let mut signal = ClockRunningSignal { value: false, version: u64::MAX };
    let reader = signal.subscribe();
    signal.publish(true);
    assert_eq!(signal, ClockRunningSignal { value: true, version: 0 });
    assert!(reader.has_changed(&signal));
    assert!(signal.latest());
}

#[test]
fn beep_test_stays_in_its_last_level() {
    let mut tm = TournamentManager::new(Levels::uniform(10));
    assert_eq!(tm.current_period(), BeepTestPeriod::Pre);
    assert_eq!(tm.period_state().secs_in_period, 0);
    tm.start_clock(secs(0)).unwrap();
    assert_eq!(tm.next_update_time(secs(0)), None);
    tm.start_beep_test_now(secs(0)).unwrap();
    tm.update(secs(109));
    assert_eq!(tm.current_period(), BeepTestPeriod::Level10);
    assert_eq!(tm.period_state().secs_in_period, 1);
    tm.update(secs(110));
    assert_eq!(tm.current_period(), BeepTestPeriod::Level10);
    assert_eq!(tm.period_state().secs_in_period, 0);
    assert_eq!(tm.next_update_time(secs(110)), None);
    tm.update(secs(10_000));
    let shown = tm.generate_snapshot(secs(10_000)).unwrap();
    assert_eq!(shown.current_period, BeepTestPeriod::Level10);
    assert_eq!(shown.secs_in_period, 0);
    assert_eq!(shown.level, Some(10));
    assert!(!shown.is_old_game);
    assert_eq!(tm.start_beep_test_now(secs(10_001)), Err(TournamentError::InvalidTransition));
    tm.reset_beep_test_now(secs(10_002));
    assert_eq!(tm.current_period(), BeepTestPeriod::Pre);
    assert!(!tm.clock_is_running());
}

#[test]
fn beep_test_levels_have_their_own_lengths() {
    let levels = Levels::uniform(30).with_level(0, 60).with_level(2, 20).with_level(11, 5);
    assert_eq!(levels.secs, [60, 30, 20, 30, 30, 30, 30, 30, 30, 30, 30]);
    let mut tm = TournamentManager::new(levels);
    tm.start_beep_test_now(secs(0)).unwrap();
    let order = [
        (0, BeepTestPeriod::Level0, 60, 0),
        (60, BeepTestPeriod::Level1, 30, 1),
        (90, BeepTestPeriod::Level2, 20, 2),
        (110, BeepTestPeriod::Level3, 30, 3),
    ];
    for (at, period, length, level) in order {
        tm.update(secs(at));
        let shown = tm.generate_snapshot(secs(at)).unwrap();
        assert_eq!(shown.current_period, period);
        assert_eq!(shown.secs_in_period, length);
        assert_eq!(shown.level, Some(level));
    }
}

#[test]
fn updates_at_any_rate_show_the_same_contest() {
    let mut often = started_game();
    let mut seldom = started_game();
    often.set_team_timeout_secs(30);
    seldom.set_team_timeout_secs(30);
    often.enter_timeout(TimeoutKind::White, secs(100)).unwrap();
    seldom.enter_timeout(TimeoutKind::White, secs(100)).unwrap();
    for step in 0..=4_000u64 {
        often.update(ms(100_000 + step * 250));
    }
    seldom.update(ms(1_100_000));
    assert_eq!(
        often.generate_snapshot(ms(1_100_000)).unwrap(),
        seldom.generate_snapshot(ms(1_100_000)).unwrap()
    );
    assert_eq!(seldom.current_period(), GamePeriod::HalfTime);
    assert_eq!(left(&seldom), 10);
    assert_eq!(often.next_update_time(ms(1_100_000)), seldom.next_update_time(ms(1_100_000)));
}

#[test]
fn nothing_changes_before_the_next_update_time() {
    let mut tm = started_game();
    tm.update(ms(42_100));
    let shown = tm.generate_snapshot(ms(42_100)).unwrap();
    let next = tm.next_update_time(ms(42_100)).unwrap();
    assert_eq!(next, secs(43));
    tm.update(ms(42_999));
    assert_eq!(tm.generate_snapshot(ms(42_999)).unwrap(), shown);
    tm.update(next);
    assert_ne!(tm.generate_snapshot(next).unwrap(), shown);
}
