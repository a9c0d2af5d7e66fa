//! Sound decisions: which effect plays for a simulation event, how loud it is
//! relative to Robbo's distance, and which looping ambience an enemy carries.
//! Volumes themselves are floating-point and are applied by the front-end;
//! attenuation here is exact, as a count of eighths.

use vstd::prelude::*;
use crate::grid::{Cell, chebyshev, grid_distance};
use crate::elements::{ElementKind, GunType};
use crate::events::GameEvent;
use crate::visuals::{Reconciliation, reconcile};

verus! {

/// Grid squares at or inside this range play at full effect volume.
pub const SFX_FULL_RANGE: i16 = 4;
/// Grid squares at or beyond this range are silent.
pub const SFX_SILENT_RANGE: i16 = 12;
/// Attenuation is counted in steps of 1 / `ATTENUATION_STEPS`: one per grid
/// square of the fall-off span.
pub const ATTENUATION_STEPS: u8 = 8;

/// What to play for one simulation event.
#[derive(Clone, Copy, Debug, PartialEq, Eq)]
pub enum SfxCue {
    Silent,
    /// A music-volume stinger, not positioned.
    Stinger { key: &'static str },
    /// A sound effect at `source` (unpositioned when `None`).
    Sound { key: &'static str, source: Option<Cell> },
}

/// An element of the level as the looping enemy ambience sees it.
#[derive(Clone, Copy, Debug, PartialEq, Eq)]
pub struct AmbientSource {
    pub id: u32,
    pub kind: ElementKind,
    pub hidden: bool,
}

/// Linear fall-off in eighths: 8 up to the full range, 0 from the silent
/// range on, one eighth less per square in between.
pub open spec fn spec_attenuation(distance: int) -> int {
    if distance <= SFX_FULL_RANGE {
        ATTENUATION_STEPS as int
    } else if distance >= SFX_SILENT_RANGE {
        0
    } else {
        SFX_SILENT_RANGE - distance
    }
}

/// Both cells are close enough that their distance is computed without overflow.
pub open spec fn cells_comparable(a: Cell, b: Cell) -> bool {
    &&& i16::MIN < a.col - b.col <= i16::MAX
    &&& i16::MIN < a.row - b.row <= i16::MAX
}

pub open spec fn spec_sfx_attenuation(source: Option<Cell>, listener: Option<Cell>) -> int {
    match (source, listener) {
        (Some(src), Some(ear)) => spec_attenuation(chebyshev(src, ear)),
        _ => ATTENUATION_STEPS as int,
    }
}

pub open spec fn spec_shoot_sfx_key(gun_type: GunType) -> Seq<char> {
    match gun_type {
        GunType::Regular => "shoot_regular"@,
        GunType::Laser => "shoot_laser"@,
        GunType::Blaster => "shoot_blaster"@,
    }
}

pub open spec fn spec_enemy_ambient_key(kind: ElementKind) -> Option<Seq<char>> {
    match kind {
        ElementKind::Bear { .. } | ElementKind::BlackBear { .. } => Some("enemy_bear"@),
        ElementKind::Bird { .. } => Some("enemy_bird"@),
        ElementKind::Butterfly => Some("enemy_butterfly"@),
        _ => None,
    }
}

pub open spec fn spec_collect_sfx_key(kind: ElementKind) -> Option<Seq<char>> {
    match kind {
        ElementKind::Screw => Some("collected_screw"@),
        ElementKind::Key => Some("collected_key"@),
        ElementKind::BulletPickup => Some("collected_ammo"@),
        _ => None,
    }
}

/// The key and source that `cue` plays, if it is a positioned sound.
pub open spec fn sound_of(cue: SfxCue) -> Option<(Seq<char>, Option<Cell>)> {
    match cue {
        SfxCue::Sound { key, source } => Some((key@, source)),
        _ => None,
    }
}

/// The cue for one event, keyed by the names of the sound manifest.
pub open spec fn spec_sfx_cue(event: GameEvent, robbo_id: u32, listener: Option<Cell>) -> Option<(Seq<char>, Option<Cell>)> {
    match event {
        GameEvent::Moved { entity_id, to, .. } => if entity_id == robbo_id { Some(("walk"@, Some(to))) } else { None },
        GameEvent::Shot { from, gun_type, .. } => Some((spec_shoot_sfx_key(gun_type), Some(from))),
        GameEvent::Collected { kind, at } => match spec_collect_sfx_key(kind) {
            Some(k) => Some((k, Some(at))),
            None => None,
        },
        GameEvent::Exploded { at } => Some(("explosion"@, Some(at))),
        GameEvent::Revealed { at } => Some(("explosion"@, Some(at))),
        GameEvent::DoorOpened { at } => Some(("door"@, Some(at))),
        GameEvent::Teleported { to, .. } => Some(("teleport"@, Some(to))),
        GameEvent::Died { entity_id } => if entity_id == robbo_id { Some(("death"@, listener)) } else { None },
        _ => None,
    }
}

/// A visible enemy with an ambience loop.
pub open spec fn is_ambient_live(source: AmbientSource) -> bool {
    spec_enemy_ambient_key(source.kind) is Some && !source.hidden
}

/// Ids of the visible enemies with an ambience loop, in element order.
pub open spec fn ambient_live_ids(sources: Seq<AmbientSource>) -> Seq<u32>
    decreases sources.len(),
{
    if sources.len() == 0 {
        Seq::empty()
    } else {
        let rest = ambient_live_ids(sources.drop_last());
        if is_ambient_live(sources.last()) { rest.push(sources.last().id) } else { rest }
    }
}

/// Loops that stay running across a frame: none after a level load.
pub open spec fn ambient_kept(level_loaded: bool, pooled: Seq<u32>) -> Seq<u32> {
    if level_loaded { Seq::empty() } else { pooled }
}

/// The loops to stop and the loops to start for one frame (see
/// [`enemy_ambient_plan`]).
pub open spec fn spec_ambient_plan(active: bool, level_loaded: bool, pooled: Seq<u32>, sources: Seq<AmbientSource>) -> (Seq<u32>, Seq<u32>) {
    let kept = ambient_kept(level_loaded, pooled);
    let cleared = if level_loaded { pooled } else { Seq::<u32>::empty() };
    let live = ambient_live_ids(sources);
    if !active {
        (cleared + kept, Seq::empty())
    } else {
        (cleared + kept.filter(|id: u32| !live.contains(id)), live.filter(|id: u32| !kept.contains(id)))
    }
}

/// Whether `id` has a loop running once a plan is applied: it ran before
/// and was not stopped, or the front-end started it (`added`).
pub open spec fn in_pool_after(pooled: Seq<u32>, despawn: Seq<u32>, added: Seq<u32>, id: u32) -> bool {
    (pooled.contains(id) && !despawn.contains(id)) || added.contains(id)
}

/// Attenuation of an effect at `distance` squares, in eighths of full volume.
pub fn distance_attenuation(distance: i16) -> (a: u8)
    ensures
        a == spec_attenuation(distance as int),
        a <= ATTENUATION_STEPS,
{
    if distance <= SFX_FULL_RANGE {
        ATTENUATION_STEPS
    } else if distance >= SFX_SILENT_RANGE {
        0
    } else {
        (SFX_SILENT_RANGE - distance) as u8
    }
}

/// Attenuation of an effect played at `source` and heard at `listener`, in
/// eighths; full when either end is unknown.
pub fn sfx_attenuation(source: Option<Cell>, listener: Option<Cell>) -> (a: u8)
    requires
        source is Some && listener is Some ==> cells_comparable(source->0, listener->0),
    ensures
        a == spec_sfx_attenuation(source, listener),
{
    match (source, listener) {
        (Some(src), Some(ear)) => distance_attenuation(grid_distance(src, ear)),
        _ => ATTENUATION_STEPS,
    }
}

/// Sound played when a gun of this type fires.
pub fn shoot_sfx_key(gun_type: GunType) -> (key: &'static str)
    ensures
        key@ == spec_shoot_sfx_key(gun_type),
{
    proof {
        reveal_strlit("shoot_regular");
        reveal_strlit("shoot_laser");
        reveal_strlit("shoot_blaster");
    }
    match gun_type {
        GunType::Regular => "shoot_regular",
        GunType::Laser => "shoot_laser",
        GunType::Blaster => "shoot_blaster",
    }
}

/// Looping ambience carried by an enemy; `None` for other kinds.
pub fn enemy_ambient_sfx_key(kind: &ElementKind) -> (key: Option<&'static str>)
    ensures
        key is Some <==> spec_enemy_ambient_key(*kind) is Some,
        key is Some ==> key->0@ == spec_enemy_ambient_key(*kind)->0,
{
    proof {
        reveal_strlit("enemy_bear");
        reveal_strlit("enemy_bird");
        reveal_strlit("enemy_butterfly");
    }
    match kind {
        ElementKind::Bear { .. } | ElementKind::BlackBear { .. } => Some("enemy_bear"),
        ElementKind::Bird { .. } => Some("enemy_bird"),
        ElementKind::Butterfly => Some("enemy_butterfly"),
        _ => None,
    }
}

/// What to play for one event of a step. Level completion plays the
/// `level_complete` stinger; Robbo's own moves and death, shots, pickups,
/// explosions, doors and teleports play positioned effects; everything else
/// is silent. `listener` is Robbo's cell, where his death is heard.
pub fn sfx_for_event(event: &GameEvent, robbo_id: u32, listener: Option<Cell>) -> (cue: SfxCue)
    ensures
        event is LevelComplete ==> (cue matches SfxCue::Stinger { key } && key@ == "level_complete"@),
        !(event is LevelComplete) ==> !(cue is Stinger) && sound_of(cue) == spec_sfx_cue(*event, robbo_id, listener),
{
    proof {
        reveal_strlit("level_complete");
        reveal_strlit("walk");
        reveal_strlit("collected_screw");
        reveal_strlit("collected_key");
        reveal_strlit("collected_ammo");
        reveal_strlit("explosion");
        reveal_strlit("door");
        reveal_strlit("teleport");
        reveal_strlit("death");
    }
    match event {
        GameEvent::LevelComplete => SfxCue::Stinger { key: "level_complete" },
        GameEvent::Moved { entity_id, to, .. } => {
            if *entity_id == robbo_id {
                SfxCue::Sound { key: "walk", source: Some(*to) }
            } else {
                SfxCue::Silent
            }
        },
        GameEvent::Shot { from, gun_type, .. } => SfxCue::Sound { key: shoot_sfx_key(*gun_type), source: Some(*from) },
        GameEvent::Collected { kind, at } => match kind {
            ElementKind::Screw => SfxCue::Sound { key: "collected_screw", source: Some(*at) },
            ElementKind::Key => SfxCue::Sound { key: "collected_key", source: Some(*at) },
            ElementKind::BulletPickup => SfxCue::Sound { key: "collected_ammo", source: Some(*at) },
            _ => SfxCue::Silent,
        },
        GameEvent::Exploded { at } => SfxCue::Sound { key: "explosion", source: Some(*at) },
        GameEvent::Revealed { at } => SfxCue::Sound { key: "explosion", source: Some(*at) },
        GameEvent::DoorOpened { at } => SfxCue::Sound { key: "door", source: Some(*at) },
        GameEvent::Teleported { to, .. } => SfxCue::Sound { key: "teleport", source: Some(*to) },
        GameEvent::Died { entity_id } => {
            if *entity_id == robbo_id {
                SfxCue::Sound { key: "death", source: listener }
            } else {
                SfxCue::Silent
            }
        },
        _ => SfxCue::Silent,
    }
}

fn live_ambient_ids(sources: &Vec<AmbientSource>) -> (ids: Vec<u32>)
    ensures
        ids@ == ambient_live_ids(sources@),
{
    let mut ids: Vec<u32> = Vec::new();
    let mut i: usize = 0;
    while i < sources.len()
        invariant
            i <= sources@.len(),
            ids@ == ambient_live_ids(sources@.take(i as int)),
        decreases sources@.len() - i,
    {
        proof {
            assert(sources@.take(i + 1).drop_last() =~= sources@.take(i as int));
        }
        let s = sources[i];
        if enemy_ambient_sfx_key(&s.kind).is_some() && !s.hidden {
            ids.push(s.id);
        }
        i = i + 1;
    }
    proof {
        assert(sources@.take(sources@.len() as int) =~= sources@);
    }
    ids
}

/// Which enemy ambience loops to stop and which to start this frame.
/// `pooled` are the enemies with a loop running; a level load stops all of
/// them first. Outside active play (paused, locked audio, countdown) every
/// loop stops; during play the loops of enemies that vanished or hid stop,
/// and each visible enemy with an ambience and no loop gets one (the
/// front-end skips those too far away to hear, and retries them later).
pub fn enemy_ambient_plan(active: bool, level_loaded: bool, pooled: &Vec<u32>, sources: &Vec<AmbientSource>) -> (plan: Reconciliation)
    ensures
        (plan.despawn@, plan.spawn@) == spec_ambient_plan(active, level_loaded, pooled@, sources@),
{
    let empty: Vec<u32> = Vec::new();
    let (kept, cleared) = if level_loaded { (&empty, pooled) } else { (pooled, &empty) };
    let mut despawn: Vec<u32> = Vec::new();
    let mut i: usize = 0;
    while i < cleared.len()
        invariant
            i <= cleared@.len(),
            despawn@ == cleared@.take(i as int),
        decreases cleared@.len() - i,
    {
        despawn.push(cleared[i]);
        i = i + 1;
    }
    proof {
        assert(cleared@.take(cleared@.len() as int) =~= cleared@);
    }
    if !active {
        let mut k: usize = 0;
        while k < kept.len()
            invariant
                k <= kept@.len(),
                despawn@ == cleared@ + kept@.take(k as int),
            decreases kept@.len() - k,
        {
            proof {
                assert(cleared@ + kept@.take(k + 1) =~= (cleared@ + kept@.take(k as int)).push(kept@[k as int]));
            }
            despawn.push(kept[k]);
            k = k + 1;
        }
        proof {
            assert(kept@.take(kept@.len() as int) =~= kept@);
        }
        return Reconciliation { despawn, spawn: Vec::new() };
    }
    let live = live_ambient_ids(sources);
    let r = reconcile(kept, &live);
    let mut rest = r.despawn;
    despawn.append(&mut rest);
    Reconciliation { despawn, spawn: r.spawn }
}

/// What the front-end's ambience pool holds once a frame's plan is applied,
/// where `added` are the offered loops it started (it skips those too far
/// away to hear). Outside active play the pool is empty. During play every
/// loop belongs to a visible enemy with an ambience, and such an enemy is
/// without a loop only when it was offered and skipped; when every offered
/// loop starts, the pool holds exactly those enemies.
pub proof fn law_ambient_pool_after_plan(
    active: bool,
    level_loaded: bool,
    pooled: Seq<u32>,
    sources: Seq<AmbientSource>,
    added: Seq<u32>,
)
    requires
        forall|id: u32| added.contains(id) ==> spec_ambient_plan(active, level_loaded, pooled, sources).1.contains(id),
    ensures
        ({
            let (despawn, spawn) = spec_ambient_plan(active, level_loaded, pooled, sources);
            let live = ambient_live_ids(sources);
            &&& !active ==> forall|id: u32| !in_pool_after(pooled, despawn, added, id)
            &&& active ==> forall|id: u32| in_pool_after(pooled, despawn, added, id) ==> live.contains(id)
            &&& active ==> forall|id: u32| live.contains(id) && !in_pool_after(pooled, despawn, added, id)
                ==> spawn.contains(id) && !added.contains(id)
            &&& (active && forall|id: u32| spawn.contains(id) ==> added.contains(id)) ==>
                forall|id: u32| in_pool_after(pooled, despawn, added, id) <==> live.contains(id)
        }),
{
    broadcast use vstd::seq_lib::group_seq_properties;
    let kept = ambient_kept(level_loaded, pooled);
    let live = ambient_live_ids(sources);
    let (despawn, spawn) = spec_ambient_plan(active, level_loaded, pooled, sources);
    let stale = kept.filter(|id: u32| !live.contains(id));
    let fresh = live.filter(|id: u32| !kept.contains(id));
    assert forall|id: u32| fresh.contains(id) <==> live.contains(id) && !kept.contains(id) by {
        live.filter_lemma(|x: u32| !kept.contains(x));
        if fresh.contains(id) {
            live.lemma_filter_contains_rev(|x: u32| !kept.contains(x), id);
            let j = choose|j: int| 0 <= j < fresh.len() && fresh[j] == id;
            assert(!kept.contains(fresh[j]));
        }
        if live.contains(id) && !kept.contains(id) {
            let i = choose|i: int| 0 <= i < live.len() && live[i] == id;
            assert(fresh.contains(live[i]));
        }
    }
    assert forall|id: u32| stale.contains(id) <==> kept.contains(id) && !live.contains(id) by {
        kept.filter_lemma(|x: u32| !live.contains(x));
        if stale.contains(id) {
            kept.lemma_filter_contains_rev(|x: u32| !live.contains(x), id);
            let j = choose|j: int| 0 <= j < stale.len() && stale[j] == id;
            assert(!live.contains(stale[j]));
        }
        if kept.contains(id) && !live.contains(id) {
            let i = choose|i: int| 0 <= i < kept.len() && kept[i] == id;
            assert(stale.contains(kept[i]));
        }
    }
    if !active {
        assert(spawn =~= Seq::<u32>::empty());
    }
}

/// Attenuation falls off linearly: full up to the full range, silent from
/// the silent range on, one step less per square in between, and never
/// louder further away.
pub proof fn law_attenuation_linear_falloff(d1: int, d2: int)
    ensures
        d1 <= d2 ==> spec_attenuation(d1) >= spec_attenuation(d2),
        d1 <= SFX_FULL_RANGE ==> spec_attenuation(d1) == ATTENUATION_STEPS,
        d1 >= SFX_SILENT_RANGE ==> spec_attenuation(d1) == 0,
        SFX_FULL_RANGE <= d1 < SFX_SILENT_RANGE ==> spec_attenuation(d1) - spec_attenuation(d1 + 1) == 1,
        0 <= spec_attenuation(d1) <= ATTENUATION_STEPS,
{
}

/// Distance between cells does not depend on which end is the listener.
pub proof fn law_distance_symmetric(a: Cell, b: Cell)
    ensures
        chebyshev(a, b) == chebyshev(b, a),
        chebyshev(a, b) >= 0,
        chebyshev(a, b) == 0 <==> (a.col == b.col && a.row == b.row),
{
}

/// Every pickup that shows a collect pop is also heard: a positioned sound at
/// the pickup's cell, whoever Robbo is and wherever he listens, with a sound
/// of its own per kind (screw, key, ammo).
pub proof fn law_collect_pops_are_heard(kind: ElementKind, at: Cell, robbo_id: u32, listener: Option<Cell>)
    requires
        crate::elements::spec_is_collect_pop_kind(kind),
    ensures
        crate::events::spec_fx_for_event(GameEvent::Collected { kind, at }) == (crate::events::FxCue::CollectPop { at, kind }),
        spec_sfx_cue(GameEvent::Collected { kind, at }, robbo_id, listener) matches Some((key, source)) && source == Some(at),
        kind == ElementKind::Screw ==> spec_sfx_cue(GameEvent::Collected { kind, at }, robbo_id, listener) == Some(("collected_screw"@, Some(at))),
        kind == ElementKind::Key ==> spec_sfx_cue(GameEvent::Collected { kind, at }, robbo_id, listener) == Some(("collected_key"@, Some(at))),
        kind == ElementKind::BulletPickup ==> spec_sfx_cue(GameEvent::Collected { kind, at }, robbo_id, listener) == Some(("collected_ammo"@, Some(at))),
        forall|other: ElementKind| crate::elements::spec_is_collect_pop_kind(other) && other != kind
            ==> #[trigger] spec_collect_sfx_key(other) != spec_collect_sfx_key(kind),
{
    reveal_strlit("collected_screw");
    reveal_strlit("collected_key");
    reveal_strlit("collected_ammo");
    assert("collected_screw"@[10] != "collected_key"@[10]);
    assert("collected_screw"@[10] != "collected_ammo"@[10]);
    assert("collected_key"@[10] != "collected_ammo"@[10]);
}

} // verus!
