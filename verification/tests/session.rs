use robbo_app::grid::Direction;
use robbo_app::progress::{run_seconds, victory_stats, LevelProgress, VictoryStats};
use robbo_app::session::{prepare_level_run, reset_run, CountdownStep, GameSession, LevelCountdown, SpeedrunTimer};
use robbo_app::steering::{RobboHeading, SteeringState};

#[test]
fn fresh_load_counts_down_three_seconds() {
    let mut session = GameSession::new();
    let mut timer = SpeedrunTimer { elapsed_ms: 999, running: true };
    let mut countdown = LevelCountdown::new();
    let mut steering = SteeringState { hold: Some(Direction::Up), tap_move: None, skip_move_on_tick: true, shoot_pending: true };
    prepare_level_run(false, "Original".to_string(), 0, "Original #1".to_string(), &mut session, &mut timer, &mut countdown, &mut steering);
    assert_eq!(session.tries, 1);
    assert_eq!(session.level_label, "Original #1");
    assert_eq!(timer, SpeedrunTimer::new());
    assert_eq!(steering, SteeringState::new());
    assert!(countdown.blocks_input());
    assert_eq!(countdown.display, 3);
    assert_eq!(countdown.second_elapsed(&mut timer), CountdownStep::NextNumber);
    assert_eq!(countdown.display, 2);
    assert_eq!(countdown.second_elapsed(&mut timer), CountdownStep::NextNumber);
    assert!(!timer.running);
    assert_eq!(countdown.second_elapsed(&mut timer), CountdownStep::Finished);
    assert!(!countdown.blocks_input());
    assert_eq!(countdown.display, 0);
    assert!(timer.running);
    timer.tick(true, 16);
    timer.tick(false, 16);
    assert_eq!(timer.elapsed_ms, 16);
}

#[test]
fn restart_skips_countdown_and_counts_tries() {
    let mut session = GameSession::new();
    let mut timer = SpeedrunTimer::new();
    let mut countdown = LevelCountdown::new();
    let mut steering = SteeringState::new();
    prepare_level_run(false, "P".to_string(), 2, "P #3".to_string(), &mut session, &mut timer, &mut countdown, &mut steering);
    prepare_level_run(true, "P".to_string(), 2, "P #3".to_string(), &mut session, &mut timer, &mut countdown, &mut steering);
    prepare_level_run(true, "P".to_string(), 2, "P #3".to_string(), &mut session, &mut timer, &mut countdown, &mut steering);
    assert_eq!(session.tries, 3);
    assert_eq!(session.level_index, 2);
    assert!(countdown.skip && !countdown.active);
    assert!(!countdown.blocks_input());
    assert!(!countdown.counting());
    countdown.idle_frame(&mut timer);
    assert!(timer.running);
}

#[test]
fn reset_run_clears_everything() {
    let mut heading = RobboHeading { last_direction: Direction::Left, facing_direction: Direction::Up, walk_frame: 4 };
    let mut session = GameSession { pack_name: "A".to_string(), level_index: 3, level_label: "A #4".to_string(), tries: 7 };
    let mut timer = SpeedrunTimer { elapsed_ms: 10, running: true };
    let mut countdown = LevelCountdown { active: true, display: 2, skip: false };
    let mut steering = SteeringState { hold: None, tap_move: Some(Direction::Up), skip_move_on_tick: false, shoot_pending: false };
    reset_run(&mut heading, &mut session, &mut timer, &mut countdown, &mut steering);
    assert_eq!(heading, RobboHeading::new());
    assert_eq!(session, GameSession::new());
    assert_eq!(timer, SpeedrunTimer::new());
    assert_eq!(countdown, LevelCountdown::new());
    assert_eq!(steering, SteeringState::new());
}

#[test]
fn completion_records_bests() {
    let mut p = LevelProgress::new();
    p.record_completion(12_345, 3);
    assert_eq!(p, LevelProgress { completed: true, best_time_ms: 12_345, best_tries: 3 });
    p.record_completion(20_000, 1);
    assert_eq!(p, LevelProgress { completed: true, best_time_ms: 12_345, best_tries: 1 });
    p.record_completion(9_000, 5);
    assert_eq!(p, LevelProgress { completed: true, best_time_ms: 9_000, best_tries: 1 });
}

#[test]
fn victory_and_defeat_figures() {
    let p = LevelProgress { completed: true, best_time_ms: 61_999, best_tries: 2 };
    assert_eq!(
        victory_stats(Some(&p), 75_500, 4),
        VictoryStats { best_time_secs: 61, best_tries: 2, time_secs: 75, tries: 4 }
    );
    assert_eq!(
        victory_stats(None, 999, 3),
        VictoryStats { best_time_secs: 0, best_tries: 3, time_secs: 0, tries: 3 }
    );
    assert_eq!(run_seconds(42_001), 42);
}
