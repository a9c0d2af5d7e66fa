//! Per-level run state: attempts, the speed-run timer and the 3-2-1
//! countdown that gates input at level start.

use vstd::prelude::*;
use crate::steering::{SteeringState, RobboHeading};

verus! {

/// Speed-run clock of the current level.
#[derive(Clone, Copy, Debug, PartialEq, Eq, Structural)]
pub struct SpeedrunTimer {
    pub elapsed_ms: u64,
    pub running: bool,
}

/// The 3-2-1 countdown before gameplay input (skipped on restart). The
/// one-second step clock itself belongs to the front-end.
#[derive(Clone, Copy, Debug, PartialEq, Eq, Structural)]
pub struct LevelCountdown {
    pub active: bool,
    /// Number shown: 3, 2, 1, or 0 when hidden.
    pub display: u8,
    pub skip: bool,
}

/// The level being played.
#[derive(Clone, Debug, PartialEq, Eq)]
pub struct GameSession {
    pub pack_name: String,
    pub level_index: usize,
    pub level_label: String,
    /// Attempts this level (1 on fresh load, +1 on each restart).
    pub tries: u32,
}

/// What a countdown step asks of the front-end.
#[derive(Clone, Copy, Debug, PartialEq, Eq, Structural)]
pub enum CountdownStep {
    /// Show the next number and restart the one-second clock.
    NextNumber,
    /// The countdown is over: remove the overlay.
    Finished,
}

/// Countdown after one more second: the next number, or over.
pub open spec fn spec_second_elapsed(c: LevelCountdown) -> (LevelCountdown, CountdownStep) {
    if c.display > 1 {
        (LevelCountdown { display: (c.display - 1) as u8, ..c }, CountdownStep::NextNumber)
    } else {
        (LevelCountdown { active: false, display: 0, skip: c.skip }, CountdownStep::Finished)
    }
}

/// Countdown state on a level load.
pub open spec fn spec_countdown_start(restart: bool) -> LevelCountdown {
    if restart {
        LevelCountdown { active: false, display: 0, skip: true }
    } else {
        LevelCountdown { active: true, display: COUNTDOWN_START, skip: false }
    }
}

pub open spec fn spec_blocks_input(c: LevelCountdown) -> bool {
    c.active && !c.skip
}

/// First number of the countdown.
pub const COUNTDOWN_START: u8 = 3;

impl SpeedrunTimer {
    /// Stopped at zero.
    pub fn new() -> (t: Self)
        ensures
            t == (SpeedrunTimer { elapsed_ms: 0, running: false }),
    {
        SpeedrunTimer { elapsed_ms: 0, running: false }
    }

    /// Adds a frame's `delta_ms` while playing with the clock running.
    pub fn tick(&mut self, playing: bool, delta_ms: u64)
        requires
            playing && old(self).running ==> old(self).elapsed_ms + delta_ms <= u64::MAX,
        ensures
            final(self).running == old(self).running,
            final(self).elapsed_ms == if playing && old(self).running {
                old(self).elapsed_ms + delta_ms
            } else {
                old(self).elapsed_ms as int
            },
    {
        if playing && self.running {
            self.elapsed_ms = self.elapsed_ms + delta_ms;
        }
    }
}

impl LevelCountdown {
    /// Inactive and hidden.
    pub fn new() -> (c: Self)
        ensures
            c == (LevelCountdown { active: false, display: 0, skip: false }),
    {
        LevelCountdown { active: false, display: 0, skip: false }
    }

    /// Whether gameplay input waits for the countdown.
    pub fn blocks_input(&self) -> (b: bool)
        ensures
            b == spec_blocks_input(*self),
    {
        self.active && !self.skip
    }

    /// Countdown state on a level load: a restart skips it, a fresh load
    /// starts it at three.
    pub fn start(&mut self, restart: bool)
        ensures
            *final(self) == spec_countdown_start(restart),
    {
        if restart {
            self.skip = true;
            self.active = false;
            self.display = 0;
        } else {
            self.skip = false;
            self.active = true;
            self.display = COUNTDOWN_START;
        }
    }

    /// Whether the countdown is under way, so that its clock runs.
    pub fn counting(&self) -> (b: bool)
        ensures
            b == (!self.skip && self.active),
    {
        !self.skip && self.active
    }

    /// A frame while playing with no countdown under way: the speed-run
    /// clock starts once the countdown is inactive.
    pub fn idle_frame(&self, timer: &mut SpeedrunTimer)
        requires
            !(!self.skip && self.active),
        ensures
            final(timer).elapsed_ms == old(timer).elapsed_ms,
            final(timer).running == (old(timer).running || !self.active),
    {
        if !self.active && !timer.running {
            timer.running = true;
        }
    }

    /// One second of the countdown has passed: show the next number, or end
    /// the countdown and start the speed-run clock.
    pub fn second_elapsed(&mut self, timer: &mut SpeedrunTimer) -> (step: CountdownStep)
        ensures
            (*final(self), step) == spec_second_elapsed(*old(self)),
            old(self).display > 1 ==> *final(timer) == *old(timer),
            old(self).display <= 1 ==> *final(timer) == (SpeedrunTimer { running: true, ..*old(timer) }),
    {
        if self.display > 1 {
            self.display = self.display - 1;
            CountdownStep::NextNumber
        } else {
            self.active = false;
            self.display = 0;
            timer.running = true;
            CountdownStep::Finished
        }
    }
}

impl GameSession {
    /// No level loaded.
    pub fn new() -> (s: Self)
        ensures
            s.pack_name@ == Seq::<char>::empty(),
            s.level_index == 0,
            s.level_label@ == Seq::<char>::empty(),
            s.tries == 0,
    {
        GameSession { pack_name: String::new(), level_index: 0, level_label: String::new(), tries: 0 }
    }
}

/// Resets the run for a level load: the session names the level and counts
/// the attempt (a restart adds one, a fresh load starts at one), the
/// speed-run clock stops at zero, the countdown starts (or is skipped on a
/// restart), and latched steering is dropped.
pub fn prepare_level_run(
    restart: bool,
    pack_name: String,
    level_index: usize,
    level_label: String,
    session: &mut GameSession,
    timer: &mut SpeedrunTimer,
    countdown: &mut LevelCountdown,
    steering: &mut SteeringState,
)
    requires
        restart ==> old(session).tries < u32::MAX,
    ensures
        final(session).pack_name == pack_name,
        final(session).level_index == level_index,
        final(session).level_label == level_label,
        final(session).tries == if restart { old(session).tries + 1 } else { 1 },
        *final(timer) == (SpeedrunTimer { elapsed_ms: 0, running: false }),
        *final(countdown) == spec_countdown_start(restart),
        *final(steering) == (SteeringState { hold: None, tap_move: None, skip_move_on_tick: false, shoot_pending: false }),
{
    *steering = SteeringState::new();
    session.pack_name = pack_name;
    session.level_index = level_index;
    session.level_label = level_label;
    if restart {
        session.tries = session.tries + 1;
    } else {
        session.tries = 1;
    }
    timer.elapsed_ms = 0;
    timer.running = false;
    countdown.start(restart);
}

/// Resets every piece of run state when gameplay is left for a menu.
pub fn reset_run(
    heading: &mut RobboHeading,
    session: &mut GameSession,
    timer: &mut SpeedrunTimer,
    countdown: &mut LevelCountdown,
    steering: &mut SteeringState,
)
    ensures
        *final(heading) == (RobboHeading { last_direction: crate::grid::Direction::Down, facing_direction: crate::grid::Direction::Down, walk_frame: 0 }),
        final(session).pack_name@ == Seq::<char>::empty(),
        final(session).level_index == 0,
        final(session).level_label@ == Seq::<char>::empty(),
        final(session).tries == 0,
        *final(timer) == (SpeedrunTimer { elapsed_ms: 0, running: false }),
        *final(countdown) == (LevelCountdown { active: false, display: 0, skip: false }),
        *final(steering) == (SteeringState { hold: None, tap_move: None, skip_move_on_tick: false, shoot_pending: false }),
{
    *heading = RobboHeading::new();
    *session = GameSession::new();
    timer.elapsed_ms = 0;
    timer.running = false;
    *countdown = LevelCountdown::new();
    *steering = SteeringState::new();
}

/// A fresh load blocks input for exactly three countdown seconds: after
/// the first and second the next number shows, after the third the countdown
/// is over and input flows. A restart never blocks input.
pub proof fn law_countdown_three_seconds()
    ensures
        ({
            let c0 = spec_countdown_start(false);
            let (c1, s1) = spec_second_elapsed(c0);
            let (c2, s2) = spec_second_elapsed(c1);
            let (c3, s3) = spec_second_elapsed(c2);
            &&& spec_blocks_input(c0) && spec_blocks_input(c1) && spec_blocks_input(c2)
            &&& s1 == CountdownStep::NextNumber && c1.display == 2
            &&& s2 == CountdownStep::NextNumber && c2.display == 1
            &&& s3 == CountdownStep::Finished && !spec_blocks_input(c3) && c3.display == 0
        }),
        !spec_blocks_input(spec_countdown_start(true)),
{
}

} // verus!
