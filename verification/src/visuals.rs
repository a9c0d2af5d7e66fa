//! Bookkeeping of the level's visual entities: which sim elements need a
//! sprite spawned or removed, the tick-based plan of each glide between
//! cells, when the magnet beams are rebuilt, and which sprites follow the
//! sim's facing.

use vstd::prelude::*;
use crate::grid::Cell;
use crate::elements::{ElementKind, spec_is_bear_kind, spec_projectile_visual, is_bear_kind, projectile_visual_for};

verus! {

/// The tick-based part of a visual glide from one cell to the next; the
/// front-end adds the fraction travelled.
#[derive(Clone, Copy, Debug, PartialEq, Eq, Structural)]
pub struct StepPlan {
    pub from: Cell,
    pub to: Cell,
    /// Sim tick when this step began.
    pub start_tick: u64,
    /// How many sim ticks this glide spans (at least one).
    pub step_ticks: u32,
}

/// Tracks the sim tick at which the magnet beams were last rebuilt.
#[derive(Clone, Copy, Debug, PartialEq, Eq, Structural)]
pub struct MagnetBeams {
    pub last_sim_tick: u64,
}

/// What to change so that the visual entities match the sim's elements.
#[derive(Clone, Debug, PartialEq, Eq)]
pub struct Reconciliation {
    /// Mapped ids whose element is gone: despawn their entity.
    pub despawn: Vec<u32>,
    /// Element ids without an entity, in element order: spawn one.
    pub spawn: Vec<u32>,
}

/// Whether the beams must be rebuilt for `sim_tick`.
pub open spec fn spec_needs_rebuild(b: MagnetBeams, sim_tick: u64) -> bool {
    sim_tick != b.last_sim_tick
}

/// The tracker after looking at `sim_tick`.
pub open spec fn spec_seen(b: MagnetBeams, sim_tick: u64) -> MagnetBeams {
    MagnetBeams { last_sim_tick: sim_tick }
}

pub open spec fn max_one(t: u32) -> u32 {
    if t < 1 { 1 } else { t }
}

/// Whether the sprite image of an element follows its kind and facing each
/// frame; bears, magnets, capsules, butterflies and laser visuals are drawn
/// by their own systems.
pub open spec fn spec_follows_facing(kind: ElementKind) -> bool {
    !spec_is_bear_kind(kind) && !(kind is Magnet) && kind != ElementKind::Capsule && kind != ElementKind::Butterfly
        && spec_projectile_visual(kind) is None
}

impl StepPlan {
    /// Resting on `cell` since `tick`.
    pub fn settled(cell: Cell, tick: u64) -> (p: Self)
        ensures
            p == (StepPlan { from: cell, to: cell, start_tick: tick, step_ticks: 1 }),
    {
        StepPlan { from: cell, to: cell, start_tick: tick, step_ticks: 1 }
    }

    /// A glide from `from` to `to` starting at `start_tick` over `step_ticks`
    /// ticks (at least one).
    pub fn begin_step(from: Cell, to: Cell, start_tick: u64, step_ticks: u32) -> (p: Self)
        ensures
            p == (StepPlan { from, to, start_tick, step_ticks: max_one(step_ticks) }),
    {
        StepPlan { from, to, start_tick, step_ticks: if step_ticks < 1 { 1 } else { step_ticks } }
    }

    /// Redirects the glide to `from`→`to`. A glide still under way
    /// (`in_flight`) continues from where it was heading, so the sprite never
    /// jumps back.
    pub fn retarget(&mut self, in_flight: bool, from: Cell, to: Cell, start_tick: u64, step_ticks: u32)
        ensures
            final(self).from == if old(self).from != old(self).to && in_flight { old(self).to } else { from },
            final(self).to == to,
            final(self).start_tick == start_tick,
            final(self).step_ticks == max_one(step_ticks),
    {
        self.from = if self.from != self.to && in_flight { self.to } else { from };
        self.to = to;
        self.start_tick = start_tick;
        self.step_ticks = if step_ticks < 1 { 1 } else { step_ticks };
    }

    /// An idle or finished glide is anchored to the element's current cell.
    pub fn anchor(&mut self, finished: bool, cell: Cell, tick: u64) -> (anchored: bool)
        ensures
            anchored == (old(self).from == old(self).to || finished),
            anchored ==> final(self).from == cell && final(self).to == cell && final(self).start_tick == tick
                && final(self).step_ticks == old(self).step_ticks,
            !anchored ==> *final(self) == *old(self),
    {
        if self.from == self.to || finished {
            self.from = cell;
            self.to = cell;
            self.start_tick = tick;
            true
        } else {
            false
        }
    }
}

impl MagnetBeams {
    /// Never built.
    pub fn new() -> (b: Self)
        ensures
            b.last_sim_tick == 0,
    {
        MagnetBeams { last_sim_tick: 0 }
    }

    /// Forces a rebuild on the next frame (level reload or teardown).
    pub fn reset(&mut self)
        ensures
            *final(self) == (MagnetBeams { last_sim_tick: u64::MAX }),
    {
        self.last_sim_tick = u64::MAX;
    }

    /// Whether the beams must be rebuilt for `sim_tick`; remembers the tick.
    pub fn needs_rebuild(&mut self, sim_tick: u64) -> (rebuild: bool)
        ensures
            rebuild == spec_needs_rebuild(*old(self), sim_tick),
            *final(self) == spec_seen(*old(self), sim_tick),
    {
        if sim_tick == self.last_sim_tick {
            false
        } else {
            self.last_sim_tick = sim_tick;
            true
        }
    }
}

/// Whether an element's sprite image follows its kind and facing each frame.
pub fn follows_facing(kind: &ElementKind) -> (b: bool)
    ensures
        b == spec_follows_facing(*kind),
{
    if is_bear_kind(kind) {
        return false;
    }
    match kind {
        ElementKind::Magnet { .. } => false,
        ElementKind::Capsule => false,
        ElementKind::Butterfly => false,
        _ => projectile_visual_for(kind).is_none(),
    }
}

fn contains_id(ids: &Vec<u32>, id: u32) -> (b: bool)
    ensures
        b == ids@.contains(id),
{
    let mut i: usize = 0;
    while i < ids.len()
        invariant
            i <= ids@.len(),
            forall|j: int| 0 <= j < i ==> ids@[j] != id,
        decreases ids@.len() - i,
    {
        if ids[i] == id {
            return true;
        }
        i = i + 1;
    }
    false
}

/// Compares the ids that have an entity with the ids of the sim's elements:
/// entities of vanished elements are despawned, elements without an entity
/// get one.
pub fn reconcile(mapped: &Vec<u32>, current: &Vec<u32>) -> (r: Reconciliation)
    ensures
        r.despawn@ == mapped@.filter(|id: u32| !current@.contains(id)),
        r.spawn@ == current@.filter(|id: u32| !mapped@.contains(id)),
{
    let mut despawn: Vec<u32> = Vec::new();
    let mut i: usize = 0;
    while i < mapped.len()
        invariant
            i <= mapped@.len(),
            despawn@ == mapped@.take(i as int).filter(|id: u32| !current@.contains(id)),
        decreases mapped@.len() - i,
    {
        proof {
            reveal_with_fuel(Seq::filter, 1);
            assert(mapped@.take(i + 1).drop_last() =~= mapped@.take(i as int));
        }
        if !contains_id(current, mapped[i]) {
            despawn.push(mapped[i]);
        }
        i = i + 1;
    }
    let mut spawn: Vec<u32> = Vec::new();
    let mut k: usize = 0;
    while k < current.len()
        invariant
            k <= current@.len(),
            spawn@ == current@.take(k as int).filter(|id: u32| !mapped@.contains(id)),
        decreases current@.len() - k,
    {
        proof {
            reveal_with_fuel(Seq::filter, 1);
            assert(current@.take(k + 1).drop_last() =~= current@.take(k as int));
        }
        if !contains_id(mapped, current[k]) {
            spawn.push(current[k]);
        }
        k = k + 1;
    }
    proof {
        assert(mapped@.take(mapped@.len() as int) =~= mapped@);
        assert(current@.take(current@.len() as int) =~= current@);
    }
    Reconciliation { despawn, spawn }
}

/// The beams are rebuilt once per sim tick: a second look at the same tick
/// does not rebuild, a new tick does, and after a reset every tick but the
/// largest rebuilds.
pub proof fn law_beams_once_per_tick(b: MagnetBeams, tick: u64, next: u64)
    ensures
        !spec_needs_rebuild(spec_seen(b, tick), tick),
        next != tick ==> spec_needs_rebuild(spec_seen(b, tick), next),
        next < u64::MAX ==> spec_needs_rebuild(MagnetBeams { last_sim_tick: u64::MAX }, next),
{
}

/// After reconciling, every element id has an entity and no entity is kept
/// for a vanished element.
pub proof fn law_reconcile_matches(mapped: Seq<u32>, current: Seq<u32>)
    ensures
        ({
            let despawn = mapped.filter(|id: u32| !current.contains(id));
            let spawn = current.filter(|id: u32| !mapped.contains(id));
            &&& forall|id: u32| current.contains(id) ==> mapped.contains(id) || spawn.contains(id)
            &&& forall|id: u32| mapped.contains(id) && !current.contains(id) ==> despawn.contains(id)
            &&& forall|id: u32| despawn.contains(id) ==> !current.contains(id)
        }),
{
    let despawn = mapped.filter(|id: u32| !current.contains(id));
    let spawn = current.filter(|id: u32| !mapped.contains(id));
    assert forall|id: u32| current.contains(id) implies mapped.contains(id) || spawn.contains(id) by {
        current.filter_lemma(|x: u32| !mapped.contains(x));
    }
    assert forall|id: u32| mapped.contains(id) && !current.contains(id) implies despawn.contains(id) by {
        mapped.filter_lemma(|x: u32| !current.contains(x));
    }
    assert forall|id: u32| despawn.contains(id) implies !current.contains(id) by {
        let i = choose|i: int| 0 <= i < despawn.len() && despawn[i] == id;
        mapped.filter_lemma(|x: u32| !current.contains(x));
    }
}

} // verus!
