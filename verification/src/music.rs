//! Background-music decisions: which looping track should play, when a
//! running track is kept, replaced or stopped, and which level track to
//! (re)start after the countdown or an unpause. Whether an asset has loaded
//! and whether the music volume is audible are handed in by the front-end,
//! which also spawns and despawns the audio players.

use vstd::prelude::*;

verus! {

/// The music track that is current, and the audio player that plays it.
/// A track can be current without a player when music is muted.
pub struct BgmState<E> {
    pub track_path: Option<String>,
    pub entity: Option<E>,
}

/// What the front-end does after a music decision: despawn `stop`, and when
/// `spawn` holds, start the current track looping and hand its player back
/// with [`BgmState::started`].
pub struct BgmChange<E> {
    pub stop: Option<E>,
    pub spawn: bool,
}

/// `path` is the current track and a player is running it.
pub open spec fn is_current<E>(bgm: BgmState<E>, path: Seq<char>) -> bool {
    &&& bgm.track_path matches Some(p) && p@ == path
    &&& bgm.entity is Some
}

pub open spec fn no_change<E>() -> BgmChange<E> {
    BgmChange { stop: None, spawn: false }
}

/// Starting `path`: nothing happens while it already plays or while its
/// asset is not loaded; otherwise the running player stops, `path` becomes
/// current, and a new player starts only when the music is audible.
pub open spec fn spec_start_bgm<E>(bgm: BgmState<E>, path: String, loaded: bool, audible: bool) -> (BgmState<E>, BgmChange<E>) {
    if is_current(bgm, path@) || !loaded {
        (bgm, no_change())
    } else {
        (BgmState { track_path: Some(path), entity: None }, BgmChange { stop: bgm.entity, spawn: audible })
    }
}

/// `idx` is the first position of `path` in `list`, or `None` when it does
/// not occur.
pub open spec fn is_first_index(list: Seq<String>, path: Seq<char>, idx: Option<usize>) -> bool {
    match idx {
        Some(i) => i < list.len() && list[i as int]@ == path && forall|j: int| 0 <= j < i ==> list[j]@ != path,
        None => forall|j: int| 0 <= j < list.len() ==> list[j]@ != path,
    }
}

impl<E> BgmState<E> {
    /// No track, no player.
    pub fn new() -> (b: Self)
        ensures
            b.track_path is None,
            b.entity is None,
    {
        BgmState { track_path: None, entity: None }
    }

    /// Records the player the front-end spawned for the current track.
    pub fn started(&mut self, entity: E)
        ensures
            final(self).track_path == old(self).track_path,
            final(self).entity == Some(entity),
    {
        self.entity = Some(entity);
    }
}

/// Stops the music and forgets the track; returns the player to despawn.
pub fn stop_bgm<E>(bgm: &mut BgmState<E>) -> (stopped: Option<E>)
    ensures
        stopped == old(bgm).entity,
        final(bgm).entity is None,
        final(bgm).track_path is None,
{
    let stopped = bgm.entity.take();
    bgm.track_path = None;
    stopped
}

/// Starts `path` looping unless it already plays (see [`spec_start_bgm`]).
pub fn start_bgm<E>(bgm: &mut BgmState<E>, path: &String, loaded: bool, audible: bool) -> (change: BgmChange<E>)
    ensures
        (*final(bgm), change) == spec_start_bgm(*old(bgm), *path, loaded, audible),
{
    let current = match &bgm.track_path {
        Some(p) => *p == *path && bgm.entity.is_some(),
        None => false,
    };
    if current || !loaded {
        return BgmChange { stop: None, spawn: false };
    }
    let stop = bgm.entity.take();
    bgm.track_path = Some(path.clone());
    BgmChange { stop, spawn: audible }
}

/// Keeps the menu track running on the main menu once audio is unlocked. A
/// menu player whose asset is no longer loaded is stopped (the track stays
/// current); otherwise the menu track is started as by [`start_bgm`].
pub fn ensure_menu_bgm<E>(
    bgm: &mut BgmState<E>,
    on_main_menu: bool,
    unlocked: bool,
    menu_path: &String,
    loaded: bool,
    audible: bool,
) -> (change: BgmChange<E>)
    ensures
        !on_main_menu || !unlocked ==> *final(bgm) == *old(bgm) && change == no_change::<E>(),
        on_main_menu && unlocked && is_current(*old(bgm), menu_path@) ==> if loaded {
            *final(bgm) == *old(bgm) && change == no_change::<E>()
        } else {
            &&& final(bgm).track_path == old(bgm).track_path
            &&& final(bgm).entity is None
            &&& change == (BgmChange { stop: old(bgm).entity, spawn: false })
        },
        on_main_menu && unlocked && !is_current(*old(bgm), menu_path@) ==>
            (*final(bgm), change) == spec_start_bgm(*old(bgm), *menu_path, loaded, audible),
{
    if !on_main_menu || !unlocked {
        return BgmChange { stop: None, spawn: false };
    }
    let current = match &bgm.track_path {
        Some(p) => *p == *menu_path && bgm.entity.is_some(),
        None => false,
    };
    if current {
        if loaded {
            return BgmChange { stop: None, spawn: false };
        }
        let stop = bgm.entity.take();
        return BgmChange { stop, spawn: false };
    }
    start_bgm(bgm, menu_path, loaded, audible)
}

/// First position of `path` among the level tracks.
pub fn level_track_index(level_music: &Vec<String>, path: &String) -> (idx: Option<usize>)
    ensures
        is_first_index(level_music@, path@, idx),
{
    let mut i: usize = 0;
    while i < level_music.len()
        invariant
            i <= level_music@.len(),
            forall|j: int| 0 <= j < i ==> level_music@[j]@ != path@,
        decreases level_music@.len() - i,
    {
        if level_music[i] == *path {
            return Some(i);
        }
        i = i + 1;
    }
    None
}

/// The level track to start once the countdown is over: only while playing,
/// after the countdown, with audio unlocked, and for a queued track that the
/// manifest lists.
pub fn level_bgm_after_countdown(
    playing: bool,
    countdown_active: bool,
    unlocked: bool,
    pending: &Option<String>,
    level_music: &Vec<String>,
) -> (idx: Option<usize>)
    ensures
        !playing || countdown_active || !unlocked || pending is None ==> idx is None,
        playing && !countdown_active && unlocked && pending is Some ==> is_first_index(level_music@, pending->0@, idx),
{
    if !playing || countdown_active || !unlocked {
        return None;
    }
    match pending {
        Some(path) => level_track_index(level_music, path),
        None => None,
    }
}

/// The level track to restart after an unpause: only with audio unlocked,
/// input not blocked by the countdown, no player running, and a queued
/// track that the manifest lists.
pub fn level_bgm_on_resume<E>(
    bgm: &BgmState<E>,
    unlocked: bool,
    countdown_blocks_input: bool,
    pending: &Option<String>,
    level_music: &Vec<String>,
) -> (idx: Option<usize>)
    ensures
        !unlocked || countdown_blocks_input || bgm.entity is Some || pending is None ==> idx is None,
        unlocked && !countdown_blocks_input && bgm.entity is None && pending is Some ==> is_first_index(level_music@, pending->0@, idx),
{
    if !unlocked || countdown_blocks_input || bgm.entity.is_some() {
        return None;
    }
    match pending {
        Some(path) => level_track_index(level_music, path),
        None => None,
    }
}

/// Starting a track twice in a row changes nothing the second time when it
/// was audible: the first start leaves it current once its player is
/// recorded, and the second keeps the player.
pub proof fn law_start_is_idempotent<E>(bgm: BgmState<E>, path: String, audible: bool, player: E)
    ensures
        ({
            let (after, _) = spec_start_bgm(bgm, path, true, audible);
            let running = BgmState { track_path: after.track_path, entity: if is_current(bgm, path@) { after.entity } else { Some(player) } };
            spec_start_bgm(running, path, true, audible) == (running, no_change::<E>())
        }),
{
}

/// Stopping the music always leaves no player and no current track, so the
/// next start of any loaded track replaces nothing and starts it.
pub proof fn law_stop_then_start<E>(path: String, audible: bool)
    ensures
        ({
            let stopped = BgmState::<E> { track_path: None, entity: None };
            spec_start_bgm(stopped, path, true, audible)
                == (BgmState::<E> { track_path: Some(path), entity: None }, BgmChange::<E> { stop: None, spawn: audible })
        }),
{
}

} // verus!
