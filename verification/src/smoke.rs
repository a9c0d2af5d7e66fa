//! The end-to-end smoke run as a frame-by-frame state machine: skip the
//! intro, load the first level, let it warm up, capture a screenshot, hold
//! the right arrow, check that Robbo moved right, capture again and exit.
//! Each frame the front-end reports what it sees and performs the returned
//! action (state changes, key presses, screenshots, exit).

use vstd::prelude::*;
use crate::grid::Cell;

verus! {

#[derive(Clone, Copy, Debug, PartialEq, Eq, Structural)]
pub enum SmokeStep {
    Boot,
    SkipIntro,
    LoadLevel,
    Warmup,
    ShotBefore,
    Move,
    ShotAfter,
    Done,
}

/// Why the smoke run failed.
#[derive(Clone, Copy, Debug, PartialEq, Eq, Structural)]
pub enum SmokeFailure {
    /// The level did not reach the playing state.
    NotPlaying,
    /// No Robbo after the level loaded.
    RobboMissing,
    /// Robbo did not move right while the arrow was held.
    DidNotMove,
    /// The second screenshot was not written.
    MissingScreenshot,
}

#[derive(Clone, Copy, Debug, PartialEq, Eq, Structural)]
pub struct SmokeScenario {
    pub step: SmokeStep,
    pub wait_frames: u32,
    pub start_cell: Option<Cell>,
    pub moved: bool,
    pub error: Option<SmokeFailure>,
}

/// What the front-end sees this frame.
#[derive(Clone, Copy, Debug, PartialEq, Eq, Structural)]
pub struct SmokeObservation {
    /// The app is in the playing state.
    pub playing: bool,
    /// Robbo's cell, if there is a Robbo.
    pub robbo: Option<Cell>,
    /// The after-move screenshot exists on disk.
    pub after_shot_saved: bool,
}

/// What the front-end does this frame.
#[derive(Clone, Copy, Debug, PartialEq, Eq, Structural)]
pub enum SmokeAction {
    /// Nothing outward.
    Idle,
    /// Leave the intro for the main menu.
    EnterMainMenu,
    /// Select the first level of the first pack, clear the input cooldown,
    /// load it afresh and enter play.
    LoadFirstLevel,
    /// Save a screenshot of the level's start.
    CaptureStart,
    /// Hold the right arrow.
    PressRight,
    /// Release all keys, then save the after-move screenshot when
    /// `capture_after` holds.
    ReleaseKeys { capture_after: bool },
    /// End the run, successfully or not.
    Exit { success: bool },
}

/// Records a failure and ends the run's steps.
pub open spec fn spec_fail(s: SmokeScenario, why: SmokeFailure) -> SmokeScenario {
    SmokeScenario { error: Some(why), step: SmokeStep::Done, ..s }
}

pub open spec fn moved_right(start: Option<Cell>, end: Option<Cell>) -> bool {
    match (start, end) {
        (Some(a), Some(b)) => b.col > a.col,
        _ => false,
    }
}

/// One frame of the smoke run.
pub open spec fn spec_smoke_step(s: SmokeScenario, obs: SmokeObservation) -> (SmokeScenario, SmokeAction) {
    if s.wait_frames > 0 {
        (SmokeScenario { wait_frames: (s.wait_frames - 1) as u32, ..s }, SmokeAction::Idle)
    } else {
        match s.step {
            SmokeStep::Done => if !obs.after_shot_saved {
                (spec_fail(s, SmokeFailure::MissingScreenshot), SmokeAction::Exit { success: false })
            } else {
                (s, SmokeAction::Exit { success: s.error is None })
            },
            SmokeStep::Boot => (SmokeScenario { step: SmokeStep::SkipIntro, wait_frames: 2, ..s }, SmokeAction::Idle),
            SmokeStep::SkipIntro => (SmokeScenario { step: SmokeStep::LoadLevel, wait_frames: 5, ..s }, SmokeAction::EnterMainMenu),
            SmokeStep::LoadLevel => (SmokeScenario { step: SmokeStep::Warmup, wait_frames: 45, ..s }, SmokeAction::LoadFirstLevel),
            SmokeStep::Warmup => if !obs.playing {
                (spec_fail(s, SmokeFailure::NotPlaying), SmokeAction::Idle)
            } else if obs.robbo is None {
                (spec_fail(s, SmokeFailure::RobboMissing), SmokeAction::Idle)
            } else {
                (SmokeScenario { start_cell: obs.robbo, step: SmokeStep::ShotBefore, ..s }, SmokeAction::Idle)
            },
            SmokeStep::ShotBefore => (SmokeScenario { step: SmokeStep::Move, wait_frames: 45, ..s }, SmokeAction::CaptureStart),
            SmokeStep::Move => (SmokeScenario { step: SmokeStep::ShotAfter, wait_frames: 90, ..s }, SmokeAction::PressRight),
            SmokeStep::ShotAfter => if !moved_right(s.start_cell, obs.robbo) {
                (spec_fail(s, SmokeFailure::DidNotMove), SmokeAction::ReleaseKeys { capture_after: false })
            } else {
                (
                    SmokeScenario { moved: true, step: SmokeStep::Done, wait_frames: 180, ..s },
                    SmokeAction::ReleaseKeys { capture_after: true },
                )
            },
        }
    }
}

/// A run whose steps finished without an error saw Robbo move right.
pub open spec fn smoke_inv(s: SmokeScenario) -> bool {
    s.step == SmokeStep::Done && s.error is None ==> s.moved
}

impl SmokeScenario {
    /// A run at its first step.
    pub fn new() -> (s: Self)
        ensures
            s == (SmokeScenario { step: SmokeStep::Boot, wait_frames: 0, start_cell: None, moved: false, error: None }),
    {
        SmokeScenario { step: SmokeStep::Boot, wait_frames: 0, start_cell: None, moved: false, error: None }
    }

    /// Records a failure and ends the run's steps.
    pub fn fail(&mut self, why: SmokeFailure)
        ensures
            *final(self) == spec_fail(*old(self), why),
    {
        self.error = Some(why);
        self.step = SmokeStep::Done;
    }
}

/// Advances the run by one frame; see [`spec_smoke_step`].
pub fn smoke_step(s: &mut SmokeScenario, obs: SmokeObservation) -> (action: SmokeAction)
    ensures
        (*final(s), action) == spec_smoke_step(*old(s), obs),
{
    if s.wait_frames > 0 {
        s.wait_frames = s.wait_frames - 1;
        return SmokeAction::Idle;
    }
    match s.step {
        SmokeStep::Done => {
            if !obs.after_shot_saved {
                s.fail(SmokeFailure::MissingScreenshot);
                SmokeAction::Exit { success: false }
            } else {
                SmokeAction::Exit { success: s.error.is_none() }
            }
        },
        SmokeStep::Boot => {
            s.step = SmokeStep::SkipIntro;
            s.wait_frames = 2;
            SmokeAction::Idle
        },
        SmokeStep::SkipIntro => {
            s.step = SmokeStep::LoadLevel;
            s.wait_frames = 5;
            SmokeAction::EnterMainMenu
        },
        SmokeStep::LoadLevel => {
            s.step = SmokeStep::Warmup;
            s.wait_frames = 45;
            SmokeAction::LoadFirstLevel
        },
        SmokeStep::Warmup => {
            if !obs.playing {
                s.fail(SmokeFailure::NotPlaying);
            } else if obs.robbo.is_none() {
                s.fail(SmokeFailure::RobboMissing);
            } else {
                s.start_cell = obs.robbo;
                s.step = SmokeStep::ShotBefore;
            }
            SmokeAction::Idle
        },
        SmokeStep::ShotBefore => {
            s.step = SmokeStep::Move;
            s.wait_frames = 45;
            SmokeAction::CaptureStart
        },
        SmokeStep::Move => {
            s.step = SmokeStep::ShotAfter;
            s.wait_frames = 90;
            SmokeAction::PressRight
        },
        SmokeStep::ShotAfter => {
            let moved = match (s.start_cell, obs.robbo) {
                (Some(start), Some(end)) => end.col > start.col,
                _ => false,
            };
            if !moved {
                s.fail(SmokeFailure::DidNotMove);
                SmokeAction::ReleaseKeys { capture_after: false }
            } else {
                s.moved = true;
                s.step = SmokeStep::Done;
                s.wait_frames = 180;
                SmokeAction::ReleaseKeys { capture_after: true }
            }
        },
    }
}

/// The run passes only after Robbo was seen moving right and no step
/// failed: every frame keeps that invariant from the first step on, and the
/// run exits only from its last step, successfully only without an error.
pub proof fn law_smoke_passes_only_after_move(s: SmokeScenario, obs: SmokeObservation)
    requires
        smoke_inv(s),
    ensures
        smoke_inv(SmokeScenario { step: SmokeStep::Boot, wait_frames: 0, start_cell: None, moved: false, error: None }),
        smoke_inv(spec_smoke_step(s, obs).0),
        spec_smoke_step(s, obs).1 is Exit ==> s.step == SmokeStep::Done && s.wait_frames == 0,
        spec_smoke_step(s, obs).1 == (SmokeAction::Exit { success: true }) ==> s.error is None && s.moved,
{
}

/// A failure is kept: once an error is recorded, no later frame clears it
/// and the run can only exit unsuccessfully.
pub proof fn law_smoke_failure_sticks(s: SmokeScenario, obs: SmokeObservation)
    requires
        s.error is Some,
    ensures
        spec_smoke_step(s, obs).0.error is Some,
        spec_smoke_step(s, obs).1 != (SmokeAction::Exit { success: true }),
{
}

} // verus!
