//! Simulation events as the front-end receives them, and the presentation
//! decisions taken per event: effect bursts, the walk cycle, and the
//! per-entity step index used to start visual glides.

use vstd::prelude::*;
use crate::grid::{Cell, Direction};
use crate::elements::{ElementKind, GunType, spec_is_collect_pop_kind, is_collect_pop_kind, WALK_FRAMES};

verus! {

broadcast use vstd::std_specs::hash::group_hash_axioms;

/// An event emitted by one simulation step.
#[derive(Clone, Copy, Debug, PartialEq, Eq, Structural)]
pub enum GameEvent {
    Moved { entity_id: u32, from: Cell, to: Cell },
    Pushed { entity_id: u32, from: Cell, to: Cell },
    Teleported { entity_id: u32, from: Cell, to: Cell },
    Shot { from: Cell, direction: Direction, gun_type: GunType },
    Collected { kind: ElementKind, at: Cell },
    Exploded { at: Cell },
    Revealed { at: Cell },
    DoorOpened { at: Cell },
    TileCleared { at: Cell },
    Died { entity_id: u32 },
    LevelComplete,
    LevelFailed,
}

/// A short-lived particle effect to spawn for one event.
#[derive(Clone, Copy, Debug, PartialEq, Eq, Structural)]
pub enum FxCue {
    Nothing,
    /// Sparkle bursts at both ends of a teleport.
    TeleportBursts { from: Cell, to: Cell },
    /// Orange burst for bombs and question-mark reveals.
    ExplosionBurst { at: Cell },
    /// Spark trail along the first cells of a shot.
    ShotTrail { from: Cell, direction: Direction },
    /// Grow-and-fade pop of a collected pickup.
    CollectPop { at: Cell, kind: ElementKind },
}

pub open spec fn spec_fx_for_event(event: GameEvent) -> FxCue {
    match event {
        GameEvent::Teleported { from, to, .. } => FxCue::TeleportBursts { from, to },
        GameEvent::Exploded { at } => FxCue::ExplosionBurst { at },
        GameEvent::Revealed { at } => FxCue::ExplosionBurst { at },
        GameEvent::Shot { from, direction, .. } => FxCue::ShotTrail { from, direction },
        GameEvent::Collected { kind, at } => if spec_is_collect_pop_kind(kind) { FxCue::CollectPop { at, kind } } else { FxCue::Nothing },
        _ => FxCue::Nothing,
    }
}

/// Whether `event` is a move of the entity `id`.
pub open spec fn is_move_of(event: GameEvent, id: u32) -> bool {
    event matches GameEvent::Moved { entity_id, .. } && entity_id == id
}

/// Whether some event of `events` moves the entity `id`.
pub open spec fn spec_moved(events: Seq<GameEvent>, id: u32) -> bool {
    exists|i: int| 0 <= i < events.len() && is_move_of(#[trigger] events[i], id)
}

/// Walk-cycle frame after a sim step: advanced (mod six) when Robbo moved.
pub open spec fn spec_next_walk_frame(frame: usize, moved: bool) -> usize {
    if moved { ((frame + 1) % (WALK_FRAMES as int)) as usize } else { frame }
}

/// Per entity, the start and end cell of its last move or push among `events`.
pub open spec fn spec_step_index(events: Seq<GameEvent>) -> Map<u32, (Cell, Cell)>
    decreases events.len(),
{
    if events.len() == 0 {
        Map::empty()
    } else {
        let prev = spec_step_index(events.drop_last());
        match events.last() {
            GameEvent::Moved { entity_id, from, to } => prev.insert(entity_id, (from, to)),
            GameEvent::Pushed { entity_id, from, to } => prev.insert(entity_id, (from, to)),
            _ => prev,
        }
    }
}

/// Per entity, the start and end cell of its last teleport among `events`.
pub open spec fn spec_teleport_index(events: Seq<GameEvent>) -> Map<u32, (Cell, Cell)>
    decreases events.len(),
{
    if events.len() == 0 {
        Map::empty()
    } else {
        let prev = spec_teleport_index(events.drop_last());
        match events.last() {
            GameEvent::Teleported { entity_id, from, to } => prev.insert(entity_id, (from, to)),
            _ => prev,
        }
    }
}

/// The particle effect that `event` triggers.
pub fn fx_for_event(event: &GameEvent) -> (cue: FxCue)
    ensures
        cue == spec_fx_for_event(*event),
{
    match event {
        GameEvent::Teleported { from, to, .. } => FxCue::TeleportBursts { from: *from, to: *to },
        GameEvent::Exploded { at } => FxCue::ExplosionBurst { at: *at },
        GameEvent::Revealed { at } => FxCue::ExplosionBurst { at: *at },
        GameEvent::Shot { from, direction, .. } => FxCue::ShotTrail { from: *from, direction: *direction },
        GameEvent::Collected { kind, at } => {
            if is_collect_pop_kind(kind) {
                FxCue::CollectPop { at: *at, kind: *kind }
            } else {
                FxCue::Nothing
            }
        },
        _ => FxCue::Nothing,
    }
}

/// Whether the step's events include a move of the entity `robbo_id`.
pub fn robbo_moved(events: &Vec<GameEvent>, robbo_id: u32) -> (b: bool)
    ensures
        b == spec_moved(events@, robbo_id),
{
    let mut i: usize = 0;
    while i < events.len()
        invariant
            i <= events@.len(),
            forall|j: int| 0 <= j < i ==> !is_move_of(#[trigger] events@[j], robbo_id),
        decreases events@.len() - i,
    {
        match &events[i] {
            GameEvent::Moved { entity_id, .. } => {
                if *entity_id == robbo_id {
                    assert(is_move_of(events@[i as int], robbo_id));
                    return true;
                }
            },
            _ => {},
        }
        i = i + 1;
    }
    false
}

/// Walk-cycle frame after a sim step.
pub fn next_walk_frame(frame: usize, moved: bool) -> (f: usize)
    ensures
        f == spec_next_walk_frame(frame, moved),
        f < WALK_FRAMES || (!moved && f == frame),
{
    if moved {
        (frame % WALK_FRAMES + 1) % WALK_FRAMES
    } else {
        frame
    }
}

/// Indexes the moves and pushes of one step: for each entity, the cells of its
/// last move or push, so that a glide starts from the right origin.
pub fn step_index(events: &Vec<GameEvent>) -> (m: std::collections::HashMap<u32, (Cell, Cell)>)
    ensures
        m@ == spec_step_index(events@),
{
    let mut m: std::collections::HashMap<u32, (Cell, Cell)> = std::collections::HashMap::new();
    let mut i: usize = 0;
    while i < events.len()
        invariant
            i <= events@.len(),
            m@ == spec_step_index(events@.take(i as int)),
        decreases events@.len() - i,
    {
        assert(events@.take(i + 1).drop_last() =~= events@.take(i as int));
        match &events[i] {
            GameEvent::Moved { entity_id, from, to } => {
                m.insert(*entity_id, (*from, *to));
            },
            GameEvent::Pushed { entity_id, from, to } => {
                m.insert(*entity_id, (*from, *to));
            },
            _ => {},
        }
        i = i + 1;
    }
    assert(events@.take(events@.len() as int) =~= events@);
    m
}

/// Indexes the teleports of one step: for each entity, the cells of its last teleport.
pub fn teleport_index(events: &Vec<GameEvent>) -> (m: std::collections::HashMap<u32, (Cell, Cell)>)
    ensures
        m@ == spec_teleport_index(events@),
{
    let mut m: std::collections::HashMap<u32, (Cell, Cell)> = std::collections::HashMap::new();
    let mut i: usize = 0;
    while i < events.len()
        invariant
            i <= events@.len(),
            m@ == spec_teleport_index(events@.take(i as int)),
        decreases events@.len() - i,
    {
        assert(events@.take(i + 1).drop_last() =~= events@.take(i as int));
        match &events[i] {
            GameEvent::Teleported { entity_id, from, to } => {
                m.insert(*entity_id, (*from, *to));
            },
            _ => {},
        }
        i = i + 1;
    }
    assert(events@.take(events@.len() as int) =~= events@);
    m
}

} // verus!
