use robbo_app::grid::Cell;
use robbo_app::smoke::{smoke_step, SmokeAction, SmokeFailure, SmokeObservation, SmokeScenario, SmokeStep};

fn see(playing: bool, robbo: Option<Cell>, saved: bool) -> SmokeObservation {
    SmokeObservation { playing, robbo, after_shot_saved: saved }
}

/// Runs frames until a non-idle action, returning it and the frames used.
fn next_action(s: &mut SmokeScenario, obs: SmokeObservation) -> (SmokeAction, u32) {
    let mut frames = 0;
    loop {
        frames += 1;
        let a = smoke_step(s, obs);
        if a != SmokeAction::Idle {
            return (a, frames);
        }
        if frames > 1000 {
            return (a, frames);
        }
    }
}

#[test]
fn smoke_run_passes_when_robbo_moves_right() {
    let mut s = SmokeScenario::new();
    let start = Cell { col: 3, row: 5 };
    let (a, _) = next_action(&mut s, see(false, None, false));
    assert_eq!(a, SmokeAction::EnterMainMenu);
    let (a, _) = next_action(&mut s, see(false, None, false));
    assert_eq!(a, SmokeAction::LoadFirstLevel);
    let (a, frames) = next_action(&mut s, see(true, Some(start), false));
    assert_eq!(a, SmokeAction::CaptureStart);
    assert_eq!(frames, 47);
    assert_eq!(s.start_cell, Some(start));
    let (a, _) = next_action(&mut s, see(true, Some(start), false));
    assert_eq!(a, SmokeAction::PressRight);
    let (a, frames) = next_action(&mut s, see(true, Some(Cell { col: 4, row: 5 }), false));
    assert_eq!(a, SmokeAction::ReleaseKeys { capture_after: true });
    assert_eq!(frames, 91);
    assert!(s.moved);
    assert_eq!(s.step, SmokeStep::Done);
    let (a, frames) = next_action(&mut s, see(true, Some(Cell { col: 4, row: 5 }), true));
    assert_eq!(a, SmokeAction::Exit { success: true });
    assert_eq!(frames, 181);
}

#[test]
fn smoke_run_fails_when_robbo_stays() {
    let mut s = SmokeScenario::new();
    let start = Cell { col: 3, row: 5 };
    next_action(&mut s, see(false, None, false));
    next_action(&mut s, see(false, None, false));
    next_action(&mut s, see(true, Some(start), false));
    next_action(&mut s, see(true, Some(start), false));
    let (a, _) = next_action(&mut s, see(true, Some(start), false));
    assert_eq!(a, SmokeAction::ReleaseKeys { capture_after: false });
    assert_eq!(s.error, Some(SmokeFailure::DidNotMove));
    let (a, _) = next_action(&mut s, see(true, Some(start), true));
    assert_eq!(a, SmokeAction::Exit { success: false });
}

#[test]
fn smoke_run_fails_without_playing_state_or_robbo() {
    let mut s = SmokeScenario::new();
    next_action(&mut s, see(false, None, false));
    next_action(&mut s, see(false, None, false));
    let (a, _) = next_action(&mut s, see(false, None, true));
    assert_eq!(s.error, Some(SmokeFailure::NotPlaying));
    assert_eq!(a, SmokeAction::Exit { success: false });

    let mut s = SmokeScenario::new();
    next_action(&mut s, see(false, None, false));
    next_action(&mut s, see(false, None, false));
    let (a, _) = next_action(&mut s, see(true, None, false));
    assert_eq!(s.error, Some(SmokeFailure::MissingScreenshot));
    assert_eq!(a, SmokeAction::Exit { success: false });
}

#[test]
fn smoke_run_fails_without_second_screenshot() {
    let mut s = SmokeScenario::new();
    s.step = SmokeStep::Done;
    s.moved = true;
    assert_eq!(smoke_step(&mut s, see(true, None, false)), SmokeAction::Exit { success: false });
    assert_eq!(s.error, Some(SmokeFailure::MissingScreenshot));
}

#[test]
fn smoke_fail_ends_the_steps() {
    let mut s = SmokeScenario::new();
    s.fail(SmokeFailure::RobboMissing);
    assert_eq!(s.step, SmokeStep::Done);
    assert_eq!(s.error, Some(SmokeFailure::RobboMissing));
}
