//! Intro sequence: logo, "presents", title fly-off, then the main menu. Each
//! phase lasts a fixed time; any key or click skips the rest.

use vstd::prelude::*;
use crate::progress::ProfileData;

verus! {

/// Phases of the intro, in order.
#[derive(Clone, Copy, Debug, PartialEq, Eq, Structural)]
pub enum IntroPhase {
    LogoFadeIn,
    LogoFadeOut,
    PresentsIn,
    PresentsOut,
    TitleIn,
    TitleFly,
    Done,
}

/// Progress of the intro (its phase clock belongs to the front-end).
#[derive(Clone, Copy, Debug, PartialEq, Eq, Structural)]
pub struct IntroSequence {
    pub phase: IntroPhase,
    pub skipped: bool,
    pub music_started: bool,
}

pub open spec fn spec_rank(p: IntroPhase) -> int {
    match p {
        IntroPhase::LogoFadeIn => 0,
        IntroPhase::LogoFadeOut => 1,
        IntroPhase::PresentsIn => 2,
        IntroPhase::PresentsOut => 3,
        IntroPhase::TitleIn => 4,
        IntroPhase::TitleFly => 5,
        IntroPhase::Done => 6,
    }
}

pub open spec fn spec_next_phase(p: IntroPhase) -> IntroPhase {
    match p {
        IntroPhase::LogoFadeIn => IntroPhase::LogoFadeOut,
        IntroPhase::LogoFadeOut => IntroPhase::PresentsIn,
        IntroPhase::PresentsIn => IntroPhase::PresentsOut,
        IntroPhase::PresentsOut => IntroPhase::TitleIn,
        IntroPhase::TitleIn => IntroPhase::TitleFly,
        IntroPhase::TitleFly => IntroPhase::Done,
        IntroPhase::Done => IntroPhase::Done,
    }
}

/// Length of each phase in milliseconds; the last phase has none.
pub open spec fn spec_phase_millis(p: IntroPhase) -> Option<u32> {
    match p {
        IntroPhase::LogoFadeIn => Some(250),
        IntroPhase::LogoFadeOut => Some(500),
        IntroPhase::PresentsIn => Some(250),
        IntroPhase::PresentsOut => Some(500),
        IntroPhase::TitleIn => Some(250),
        IntroPhase::TitleFly => Some(1000),
        IntroPhase::Done => None,
    }
}

/// `n` phase ends from `p`.
pub open spec fn spec_advance_n(p: IntroPhase, n: nat) -> IntroPhase
    decreases n,
{
    if n == 0 { p } else { spec_advance_n(spec_next_phase(p), (n - 1) as nat) }
}

impl IntroPhase {
    /// Position of the phase in the sequence.
    pub fn rank(self) -> (r: u8)
        ensures
            r == spec_rank(self),
    {
        match self {
            IntroPhase::LogoFadeIn => 0,
            IntroPhase::LogoFadeOut => 1,
            IntroPhase::PresentsIn => 2,
            IntroPhase::PresentsOut => 3,
            IntroPhase::TitleIn => 4,
            IntroPhase::TitleFly => 5,
            IntroPhase::Done => 6,
        }
    }

    /// The phase that follows when this one's time is up.
    pub fn next(self) -> (p: IntroPhase)
        ensures
            p == spec_next_phase(self),
    {
        match self {
            IntroPhase::LogoFadeIn => IntroPhase::LogoFadeOut,
            IntroPhase::LogoFadeOut => IntroPhase::PresentsIn,
            IntroPhase::PresentsIn => IntroPhase::PresentsOut,
            IntroPhase::PresentsOut => IntroPhase::TitleIn,
            IntroPhase::TitleIn => IntroPhase::TitleFly,
            IntroPhase::TitleFly => IntroPhase::Done,
            IntroPhase::Done => IntroPhase::Done,
        }
    }

    /// How long the phase lasts, in milliseconds.
    pub fn millis(self) -> (ms: Option<u32>)
        ensures
            ms == spec_phase_millis(self),
    {
        match self {
            IntroPhase::LogoFadeIn => Some(250),
            IntroPhase::LogoFadeOut => Some(500),
            IntroPhase::PresentsIn => Some(250),
            IntroPhase::PresentsOut => Some(500),
            IntroPhase::TitleIn => Some(250),
            IntroPhase::TitleFly => Some(1000),
            IntroPhase::Done => None,
        }
    }
}

impl IntroSequence {
    /// The intro at its first phase.
    pub fn new() -> (s: Self)
        ensures
            s == (IntroSequence { phase: IntroPhase::LogoFadeIn, skipped: false, music_started: false }),
    {
        IntroSequence { phase: IntroPhase::LogoFadeIn, skipped: false, music_started: false }
    }

    /// Whether the intro still runs its phases.
    pub fn running(&self) -> (b: bool)
        ensures
            b == (!self.skipped && self.phase != IntroPhase::Done),
    {
        !self.skipped && self.phase != IntroPhase::Done
    }

    /// Whether the background fades in: from the "presents" phase on.
    pub fn space_fading(&self) -> (b: bool)
        ensures
            b == (spec_rank(self.phase) >= 2),
    {
        self.phase.rank() >= 2
    }

    /// Whether the title music should start now: once the title appears,
    /// and only once.
    pub fn wants_title_music(&self) -> (b: bool)
        ensures
            b == (!self.music_started && spec_rank(self.phase) >= 4),
    {
        !self.music_started && self.phase.rank() >= 4
    }

    /// The current phase's time is up: moves to the next phase. When the
    /// intro is over, the profile remembers it was seen. Returns whether the
    /// intro is over (the front-end then goes to the main menu).
    pub fn phase_elapsed(&mut self, profile: &mut ProfileData) -> (done: bool)
        ensures
            final(self).phase == spec_next_phase(old(self).phase),
            final(self).skipped == old(self).skipped,
            final(self).music_started == old(self).music_started,
            done == (final(self).phase == IntroPhase::Done),
            done ==> final(profile).intro_seen && final(profile).last_pack == old(profile).last_pack
                && final(profile).last_level == old(profile).last_level,
            !done ==> *final(profile) == *old(profile),
    {
        self.phase = self.phase.next();
        if self.phase == IntroPhase::Done {
            profile.intro_seen = true;
            true
        } else {
            false
        }
    }

    /// A key or click skips the intro: it is over and the profile remembers
    /// it was seen. Returns whether the title music must start now (it has
    /// not yet, and the audio is ready).
    pub fn skip(&mut self, audio_ready: bool, profile: &mut ProfileData) -> (start_music: bool)
        ensures
            final(self).phase == IntroPhase::Done,
            final(self).skipped,
            start_music == (!old(self).music_started && audio_ready),
            final(self).music_started == (old(self).music_started || audio_ready),
            final(profile).intro_seen,
            final(profile).last_pack == old(profile).last_pack,
            final(profile).last_level == old(profile).last_level,
    {
        let start_music = !self.music_started && audio_ready;
        if start_music {
            self.music_started = true;
        }
        self.skipped = true;
        self.phase = IntroPhase::Done;
        profile.intro_seen = true;
        start_music
    }
}

/// Whether the intro plays at all: only until it has been seen once.
pub fn intro_wanted(profile: &ProfileData) -> (b: bool)
    ensures
        b == !profile.intro_seen,
{
    !profile.intro_seen
}

/// The intro runs through its six timed phases in order and is over after
/// the sixth; each phase comes strictly later than the one before, and the
/// whole sequence lasts 2.75 seconds.
pub proof fn law_intro_runs_in_order()
    ensures
        spec_advance_n(IntroPhase::LogoFadeIn, 6) == IntroPhase::Done,
        forall|k: nat| k < 6 ==> #[trigger] spec_advance_n(IntroPhase::LogoFadeIn, k) != IntroPhase::Done,
        forall|p: IntroPhase| p != IntroPhase::Done ==> spec_rank(#[trigger] spec_next_phase(p)) == spec_rank(p) + 1,
        spec_phase_millis(IntroPhase::LogoFadeIn)->0 + spec_phase_millis(IntroPhase::LogoFadeOut)->0
            + spec_phase_millis(IntroPhase::PresentsIn)->0 + spec_phase_millis(IntroPhase::PresentsOut)->0
            + spec_phase_millis(IntroPhase::TitleIn)->0 + spec_phase_millis(IntroPhase::TitleFly)->0 == 2750,
{
    reveal_with_fuel(spec_advance_n, 7);
    assert forall|k: nat| k < 6 implies #[trigger] spec_advance_n(IntroPhase::LogoFadeIn, k) != IntroPhase::Done by {
        reveal_with_fuel(spec_advance_n, 7);
        assert(k == 0 || k == 1 || k == 2 || k == 3 || k == 4 || k == 5);
    }
}

} // verus!
