//! Saved player progress: the profile of the last game and the best results
//! per level, and the statistics shown when a level ends.

use vstd::prelude::*;

verus! {

/// The last game played and whether the intro has been seen.
#[derive(Clone, Debug, PartialEq, Eq)]
pub struct ProfileData {
    pub last_pack: String,
    /// One-based level number; zero when no level has been played.
    pub last_level: u32,
    /// After the first full intro play-through, the logo sequence is skipped.
    pub intro_seen: bool,
}

/// Best results of one level.
#[derive(Clone, Copy, Debug, PartialEq, Eq, Structural)]
pub struct LevelProgress {
    pub completed: bool,
    /// Best completion time; zero when none is recorded.
    pub best_time_ms: u64,
    /// Fewest attempts to complete; zero when none is recorded.
    pub best_tries: u32,
}

/// Figures of the victory panel, in whole seconds and attempts.
#[derive(Clone, Copy, Debug, PartialEq, Eq, Structural)]
pub struct VictoryStats {
    pub best_time_secs: u64,
    pub best_tries: u32,
    pub time_secs: u64,
    pub tries: u32,
}

/// A recorded best improves when none is recorded yet (zero) or the new value is lower.
pub open spec fn improved_best(best: int, new: int) -> int {
    if best == 0 || new < best { new } else { best }
}

impl ProfileData {
    /// No game played yet.
    pub fn new() -> (p: Self)
        ensures
            p.last_pack@ == Seq::<char>::empty(),
            p.last_level == 0,
            !p.intro_seen,
    {
        ProfileData { last_pack: String::new(), last_level: 0, intro_seen: false }
    }
}

impl LevelProgress {
    /// Nothing recorded.
    pub fn new() -> (p: Self)
        ensures
            p == (LevelProgress { completed: false, best_time_ms: 0, best_tries: 0 }),
    {
        LevelProgress { completed: false, best_time_ms: 0, best_tries: 0 }
    }

    /// Records a completion in `elapsed_ms` after `tries` attempts: the level
    /// is completed, and each best is replaced when unset or beaten.
    pub fn record_completion(&mut self, elapsed_ms: u64, tries: u32)
        ensures
            final(self).completed,
            final(self).best_time_ms == improved_best(old(self).best_time_ms as int, elapsed_ms as int),
            final(self).best_tries == improved_best(old(self).best_tries as int, tries as int),
    {
        self.completed = true;
        if self.best_time_ms == 0 || elapsed_ms < self.best_time_ms {
            self.best_time_ms = elapsed_ms;
        }
        if self.best_tries == 0 || tries < self.best_tries {
            self.best_tries = tries;
        }
    }
}

/// Figures of the victory panel: the saved bests (zero time and the current
/// attempts when nothing is saved) beside this run's time and attempts.
pub fn victory_stats(progress: Option<&LevelProgress>, elapsed_ms: u64, tries: u32) -> (s: VictoryStats)
    ensures
        s.best_time_secs == match progress { Some(p) => p.best_time_ms / 1000, None => 0 },
        s.best_tries == match progress { Some(p) => p.best_tries, None => tries },
        s.time_secs == elapsed_ms / 1000,
        s.tries == tries,
{
    let (best_time_secs, best_tries) = match progress {
        Some(p) => (p.best_time_ms / 1000, p.best_tries),
        None => (0, tries),
    };
    VictoryStats { best_time_secs, best_tries, time_secs: elapsed_ms / 1000, tries }
}

/// Whole seconds of a run, as the panels show it.
pub fn run_seconds(elapsed_ms: u64) -> (s: u64)
    ensures
        s == elapsed_ms / 1000,
{
    elapsed_ms / 1000
}

/// Recording a completion never makes a best worse, and a second recording
/// with the same figures changes nothing.
pub proof fn law_bests_only_improve(p: LevelProgress, elapsed_ms: u64, tries: u32)
    ensures
        p.best_time_ms != 0 ==> improved_best(p.best_time_ms as int, elapsed_ms as int) <= p.best_time_ms,
        p.best_tries != 0 ==> improved_best(p.best_tries as int, tries as int) <= p.best_tries,
        improved_best(improved_best(p.best_time_ms as int, elapsed_ms as int), elapsed_ms as int)
            == improved_best(p.best_time_ms as int, elapsed_ms as int),
        improved_best(improved_best(p.best_tries as int, tries as int), tries as int)
            == improved_best(p.best_tries as int, tries as int),
{
}

} // verus!
