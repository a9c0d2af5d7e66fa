//! Game-flow state machine: the screens of the game and how key presses,
//! in-game menu buttons, HUD buttons and level results move between them.
//! Each decision returns what the front-end must do (load a level, switch
//! screen, close a menu, undo a step); the front-end performs it.

use vstd::prelude::*;
use crate::grid::Direction;
use crate::levels::{LevelRegistry, LevelSelection, wrap_prev, wrap_next, at_least_one};
use crate::steering::{
    DirectionKeys, RobboHeading, SteeringState, spec_taps, spec_taps_turns, update_steering,
};
use crate::session::{SpeedrunTimer, spec_blocks_input, spec_countdown_start};
use crate::events::GameEvent;

verus! {

/// Screens of the game.
#[derive(Clone, Copy, Debug, PartialEq, Eq, Structural)]
pub enum AppState {
    Boot,
    Intro,
    MainMenu,
    LevelSelect,
    Playing,
    Paused,
    LevelComplete,
    GameOver,
}

/// Request to load the selected level.
#[derive(Clone, Copy, Debug, PartialEq, Eq, Structural)]
pub struct LoadLevelEvent {
    /// A restart counts an extra attempt and skips the countdown.
    pub restart: bool,
}

/// Swallows menu keys for a few frames after entering gameplay (prevents
/// the Enter that started a level from reaching the next screen).
#[derive(Clone, Copy, Debug, PartialEq, Eq, Structural)]
pub struct InputCooldown {
    pub frames_remaining: u8,
}

/// Keys pressed this frame.
#[derive(Clone, Copy, Debug, PartialEq, Eq, Structural)]
pub struct GameKeys {
    /// Some key was pressed this frame.
    pub any: bool,
    pub arrows: DirectionKeys,
    pub wasd: DirectionKeys,
    pub enter: bool,
    pub escape: bool,
    pub space: bool,
    /// Undo (Z).
    pub z: bool,
    /// Redo (X).
    pub x: bool,
    /// Restart (R).
    pub r: bool,
    /// Quit to level select (Q).
    pub q: bool,
    /// Next level (N).
    pub n: bool,
}

/// Screen change, level load and menu dismissal asked of the front-end.
#[derive(Clone, Copy, Debug, PartialEq, Eq, Structural)]
pub struct FlowOutcome {
    pub next_state: Option<AppState>,
    pub load_level: Option<LoadLevelEvent>,
    pub dismiss_menu: bool,
}

/// Everything one frame of game keys asks of the front-end.
#[derive(Clone, Debug, PartialEq, Eq)]
pub struct GameKeyOutcome {
    pub flow: FlowOutcome,
    /// Audio may start (browsers need a user gesture first).
    pub unlock_audio: bool,
    /// Turns to replay in the simulation, in order.
    pub turns: Vec<Direction>,
    /// Undo the last step.
    pub undo: bool,
    /// Redo the last undone step.
    pub redo: bool,
}

/// Buttons of the in-game menus (pause, victory, defeat).
#[derive(Clone, Copy, Debug, PartialEq, Eq, Structural)]
pub enum GameMenuAction {
    Resume,
    Restart,
    MainMenu,
    NextLevel,
    Retry,
    LevelSelect,
    Share,
}

/// Buttons of the in-level HUD.
#[derive(Clone, Copy, Debug, PartialEq, Eq, Structural)]
pub enum HudButton {
    PauseMenu,
    Restart,
}

/// Frames of menu input swallowed after entering gameplay.
pub const ENTER_PLAY_COOLDOWN_FRAMES: u8 = 4;

pub open spec fn no_flow() -> FlowOutcome {
    FlowOutcome { next_state: None, load_level: None, dismiss_menu: false }
}

pub open spec fn go_to(state: AppState) -> FlowOutcome {
    FlowOutcome { next_state: Some(state), load_level: None, dismiss_menu: true }
}

pub open spec fn load_and_go(restart: bool, state: AppState) -> FlowOutcome {
    FlowOutcome { next_state: Some(state), load_level: Some(LoadLevelEvent { restart }), dismiss_menu: true }
}

/// A direction key, arrow or WASD.
pub open spec fn either_keys(a: DirectionKeys, b: DirectionKeys) -> DirectionKeys {
    DirectionKeys { up: a.up || b.up, down: a.down || b.down, left: a.left || b.left, right: a.right || b.right }
}

/// Pack and level after the level-select arrows: up/down change pack (and
/// reset the level), left/right change level within the pack.
pub open spec fn spec_level_select_nav(sel: LevelSelection, reg: LevelRegistry, keys: DirectionKeys) -> LevelSelection {
    let pc = at_least_one(reg.pack_count());
    let s1 = if keys.up { LevelSelection { pack_index: wrap_prev(sel.pack_index as int, pc) as usize, level_index: 0 } } else { sel };
    let s2 = if keys.down { LevelSelection { pack_index: wrap_next(s1.pack_index as int, pc) as usize, level_index: 0 } } else { s1 };
    match reg.spec_level_count(s2.pack_index as int) {
        Some(n) => {
            let a = if keys.left { wrap_prev(s2.level_index as int, at_least_one(n)) } else { s2.level_index as int };
            let b = if keys.right { wrap_next(a, at_least_one(n)) } else { a };
            LevelSelection { level_index: b as usize, ..s2 }
        },
        None => s2,
    }
}

/// The level-select arrows cause no overflow.
pub open spec fn level_select_nav_ok(sel: LevelSelection, reg: LevelRegistry, keys: DirectionKeys) -> bool {
    let pc = at_least_one(reg.pack_count());
    let s1 = if keys.up { LevelSelection { pack_index: wrap_prev(sel.pack_index as int, pc) as usize, level_index: 0 } } else { sel };
    let s2 = if keys.down { LevelSelection { pack_index: wrap_next(s1.pack_index as int, pc) as usize, level_index: 0 } } else { s1 };
    &&& keys.up ==> sel.pack_index + pc <= usize::MAX
    &&& keys.down ==> s1.pack_index < usize::MAX
    &&& reg.spec_level_count(s2.pack_index as int) matches Some(n) ==> {
        let a = if keys.left { wrap_prev(s2.level_index as int, at_least_one(n)) } else { s2.level_index as int };
        &&& keys.left ==> s2.level_index + at_least_one(n) <= usize::MAX
        &&& keys.right ==> a < usize::MAX
    }
}

/// Whether the selected pack has a level after the selected one.
pub open spec fn has_next_level(sel: LevelSelection, reg: LevelRegistry) -> bool {
    reg.spec_level_count(sel.pack_index as int) matches Some(n) && sel.level_index + 1 < n
}

/// Decision of the game keys, per screen, apart from steering and the
/// selection: what the front-end must do.
pub open spec fn spec_game_keys_flow(state: AppState, keys: GameKeys, blocks: bool, cooldown: u8, sel: LevelSelection, reg: LevelRegistry) -> FlowOutcome {
    match state {
        AppState::LevelSelect => if cooldown > 0 {
            no_flow()
        } else {
            FlowOutcome {
                next_state: if keys.escape { Some(AppState::MainMenu) } else if keys.enter { Some(AppState::Playing) } else { None },
                load_level: if keys.enter { Some(LoadLevelEvent { restart: false }) } else { None },
                dismiss_menu: keys.enter || keys.escape,
            }
        },
        AppState::Playing => if !blocks && !keys.space && !keys.z && !keys.x && keys.escape {
            FlowOutcome { next_state: Some(AppState::Paused), load_level: None, dismiss_menu: false }
        } else {
            no_flow()
        },
        AppState::Paused => if keys.escape {
            go_to(AppState::Playing)
        } else if keys.r {
            load_and_go(true, AppState::Playing)
        } else if keys.q {
            go_to(AppState::LevelSelect)
        } else {
            no_flow()
        },
        AppState::LevelComplete => if keys.n || keys.enter {
            if has_next_level(sel, reg) { load_and_go(false, AppState::Playing) } else { go_to(AppState::LevelSelect) }
        } else if keys.escape {
            go_to(AppState::LevelSelect)
        } else {
            no_flow()
        },
        AppState::GameOver => if keys.r {
            load_and_go(true, AppState::Playing)
        } else if keys.escape || keys.enter {
            go_to(AppState::LevelSelect)
        } else {
            no_flow()
        },
        _ => no_flow(),
    }
}

/// Whether the game keys start play anew (and so arm the input cooldown).
pub open spec fn spec_game_keys_begin_play(state: AppState, keys: GameKeys, cooldown: u8, sel: LevelSelection, reg: LevelRegistry) -> bool {
    match state {
        AppState::LevelSelect => cooldown == 0 && keys.enter,
        AppState::LevelComplete => (keys.n || keys.enter) && has_next_level(sel, reg),
        AppState::GameOver => keys.r,
        _ => false,
    }
}

/// Selection after the game keys.
pub open spec fn spec_game_keys_selection(state: AppState, keys: GameKeys, cooldown: u8, sel: LevelSelection, reg: LevelRegistry) -> LevelSelection {
    match state {
        AppState::LevelSelect => if cooldown > 0 { sel } else { spec_level_select_nav(sel, reg, keys.arrows) },
        AppState::LevelComplete => if (keys.n || keys.enter) && has_next_level(sel, reg) {
            LevelSelection { level_index: (sel.level_index + 1) as usize, ..sel }
        } else {
            sel
        },
        _ => sel,
    }
}

/// Whether the game keys steer Robbo this frame.
pub open spec fn steers(state: AppState, blocks: bool) -> bool {
    state == AppState::Playing && !blocks
}

/// Preconditions of the game keys: the selection arithmetic stays in range.
pub open spec fn game_keys_ok(state: AppState, keys: GameKeys, cooldown: u8, sel: LevelSelection, reg: LevelRegistry) -> bool {
    &&& (state == AppState::LevelSelect && cooldown == 0) ==> level_select_nav_ok(sel, reg, keys.arrows)
    &&& (state == AppState::LevelComplete && (keys.n || keys.enter) && reg.spec_level_count(sel.pack_index as int) is Some)
        ==> sel.level_index < usize::MAX
}

pub open spec fn spec_menu_button_flow(state: AppState, action: GameMenuAction, sel: LevelSelection, reg: LevelRegistry) -> FlowOutcome {
    match (state, action) {
        (AppState::Paused, GameMenuAction::Resume) => go_to(AppState::Playing),
        (AppState::Paused, GameMenuAction::Restart) => load_and_go(true, AppState::Playing),
        (AppState::Paused, GameMenuAction::MainMenu) => go_to(AppState::MainMenu),
        (AppState::LevelComplete, GameMenuAction::Restart) => load_and_go(true, AppState::Playing),
        (AppState::LevelComplete, GameMenuAction::NextLevel) => if has_next_level(sel, reg) {
            load_and_go(false, AppState::Playing)
        } else {
            go_to(AppState::LevelSelect)
        },
        (AppState::LevelComplete, GameMenuAction::MainMenu) => go_to(AppState::MainMenu),
        (AppState::GameOver, GameMenuAction::Retry) => load_and_go(true, AppState::Playing),
        (AppState::GameOver, GameMenuAction::MainMenu) => go_to(AppState::MainMenu),
        (AppState::GameOver, GameMenuAction::LevelSelect) => go_to(AppState::LevelSelect),
        _ => no_flow(),
    }
}

/// Cooldown after a menu button: a restart from the pause menu clears it,
/// starting play from the victory or defeat panel arms it.
pub open spec fn spec_menu_button_cooldown(state: AppState, action: GameMenuAction, cooldown: u8, sel: LevelSelection, reg: LevelRegistry) -> u8 {
    match (state, action) {
        (AppState::Paused, GameMenuAction::Restart) => 0,
        (AppState::LevelComplete, GameMenuAction::Restart) => ENTER_PLAY_COOLDOWN_FRAMES,
        (AppState::LevelComplete, GameMenuAction::NextLevel) => if has_next_level(sel, reg) { ENTER_PLAY_COOLDOWN_FRAMES } else { cooldown },
        (AppState::GameOver, GameMenuAction::Retry) => ENTER_PLAY_COOLDOWN_FRAMES,
        _ => cooldown,
    }
}

/// What a HUD button asks for while playing: the pause menu, or a
/// restarting load of the level; nothing on other screens.
pub open spec fn spec_hud_button_flow(state: AppState, button: HudButton) -> FlowOutcome {
    if state != AppState::Playing {
        no_flow()
    } else {
        match button {
            HudButton::PauseMenu => FlowOutcome { next_state: Some(AppState::Paused), load_level: None, dismiss_menu: false },
            HudButton::Restart => FlowOutcome { next_state: None, load_level: Some(LoadLevelEvent { restart: true }), dismiss_menu: false },
        }
    }
}

/// Screen after a level result, seen while playing; `None` when the event
/// does not end the level or the game is not being played.
pub open spec fn spec_level_end(state: AppState, event: GameEvent) -> Option<AppState> {
    if state != AppState::Playing {
        None
    } else {
        match event {
            GameEvent::LevelComplete => Some(AppState::LevelComplete),
            GameEvent::LevelFailed => Some(AppState::GameOver),
            _ => None,
        }
    }
}

impl AppState {
    /// The screen shown at start-up.
    pub fn new() -> (s: Self)
        ensures
            s == AppState::Boot,
    {
        AppState::Boot
    }
}

impl Default for AppState {
    fn default() -> (s: Self)
        ensures
            s == AppState::Boot,
    {
        AppState::Boot
    }
}

impl InputCooldown {
    /// No frames to swallow.
    pub fn new() -> (c: Self)
        ensures
            c.frames_remaining == 0,
    {
        InputCooldown { frames_remaining: 0 }
    }

    /// One frame passes.
    pub fn tick(&mut self)
        ensures
            final(self).frames_remaining == if old(self).frames_remaining > 0 { old(self).frames_remaining - 1 } else { 0 },
    {
        if self.frames_remaining > 0 {
            self.frames_remaining = self.frames_remaining - 1;
        }
    }

    /// Arms the cooldown as gameplay starts.
    pub fn begin_playing(&mut self)
        ensures
            final(self).frames_remaining == ENTER_PLAY_COOLDOWN_FRAMES,
    {
        self.frames_remaining = ENTER_PLAY_COOLDOWN_FRAMES;
    }
}

impl DirectionKeys {
    /// A direction counts as pressed when either of its keys is.
    pub fn either(&self, other: &DirectionKeys) -> (k: DirectionKeys)
        ensures
            k == either_keys(*self, *other),
    {
        DirectionKeys {
            up: self.up || other.up,
            down: self.down || other.down,
            left: self.left || other.left,
            right: self.right || other.right,
        }
    }
}

fn flow(next_state: Option<AppState>, load_level: Option<LoadLevelEvent>, dismiss_menu: bool) -> (f: FlowOutcome)
    ensures
        f == (FlowOutcome { next_state, load_level, dismiss_menu }),
{
    FlowOutcome { next_state, load_level, dismiss_menu }
}

/// Moves through the level list of the select screen with the arrows.
pub fn level_select_nav(selection: &mut LevelSelection, registry: &LevelRegistry, keys: DirectionKeys)
    requires
        level_select_nav_ok(*old(selection), *registry, keys),
    ensures
        *final(selection) == spec_level_select_nav(*old(selection), *registry, keys),
{
    if keys.up {
        selection.pack_prev(registry);
    }
    if keys.down {
        selection.pack_next(registry);
    }
    if keys.left {
        selection.level_prev(registry);
    }
    if keys.right {
        selection.level_next(registry);
    }
}

/// Whether the selected pack has a level after the selected one.
pub fn next_level_exists(selection: &LevelSelection, registry: &LevelRegistry) -> (b: bool)
    ensures
        b == has_next_level(*selection, *registry),
{
    match registry.level_count(selection.pack_index) {
        Some(n) => selection.level_index < n && selection.level_index + 1 < n,
        None => false,
    }
}

/// Game keys of one frame, per screen. Any key unlocks audio. On level
/// select (after the cooldown) the arrows move through packs and levels,
/// Enter plays and Escape returns to the main menu. While playing (once the
/// countdown allows) direction keys steer, then Space shoots, else Z undoes,
/// else X redoes, else Escape pauses. Paused: Escape resumes, else R
/// restarts, else Q quits to level select. Level complete: N or Enter goes
/// to the next level of the pack (or to level select after the last), else
/// Escape goes to level select. Game over: R retries, else Escape or Enter
/// goes to level select.
pub fn game_keyboard_input(
    state: AppState,
    keys: &GameKeys,
    countdown_blocks: bool,
    cooldown: &mut InputCooldown,
    selection: &mut LevelSelection,
    registry: &LevelRegistry,
    heading: &mut RobboHeading,
    steering: &mut SteeringState,
) -> (out: GameKeyOutcome)
    requires
        game_keys_ok(state, *keys, old(cooldown).frames_remaining, *old(selection), *registry),
    ensures
        out.unlock_audio == keys.any,
        out.flow == spec_game_keys_flow(state, *keys, countdown_blocks, old(cooldown).frames_remaining, *old(selection), *registry),
        *final(selection) == spec_game_keys_selection(state, *keys, old(cooldown).frames_remaining, *old(selection), *registry),
        final(cooldown).frames_remaining == if spec_game_keys_begin_play(state, *keys, old(cooldown).frames_remaining, *old(selection), *registry) {
            ENTER_PLAY_COOLDOWN_FRAMES
        } else {
            old(cooldown).frames_remaining
        },
        steers(state, countdown_blocks) ==> ({
            let (h, s) = spec_taps(*old(heading), *old(steering), either_keys(keys.arrows, keys.wasd));
            &&& *final(heading) == h
            &&& *final(steering) == (if keys.space { SteeringState { shoot_pending: true, ..s } } else { s })
            &&& out.turns@ == spec_taps_turns(*old(heading), *old(steering), either_keys(keys.arrows, keys.wasd))
            &&& out.undo == (!keys.space && keys.z)
            &&& out.redo == (!keys.space && !keys.z && keys.x)
        }),
        !steers(state, countdown_blocks) ==> *final(heading) == *old(heading) && *final(steering) == *old(steering)
            && out.turns@.len() == 0 && !out.undo && !out.redo,
{
    let mut out = GameKeyOutcome {
        flow: flow(None, None, false),
        unlock_audio: keys.any,
        turns: Vec::new(),
        undo: false,
        redo: false,
    };
    match state {
        AppState::LevelSelect => {
            if cooldown.frames_remaining > 0 {
                return out;
            }
            level_select_nav(selection, registry, keys.arrows);
            if keys.enter {
                out.flow = flow(Some(AppState::Playing), Some(LoadLevelEvent { restart: false }), true);
                cooldown.begin_playing();
            }
            if keys.escape {
                out.flow.next_state = Some(AppState::MainMenu);
                out.flow.dismiss_menu = true;
            }
        },
        AppState::Playing => {
            if countdown_blocks {
                return out;
            }
            let pressed = keys.arrows.either(&keys.wasd);
            out.turns = update_steering(heading, steering, pressed);
            if keys.space {
                steering.shoot_pending = true;
            } else if keys.z {
                out.undo = true;
            } else if keys.x {
                out.redo = true;
            } else if keys.escape {
                out.flow = flow(Some(AppState::Paused), None, false);
            }
        },
        AppState::Paused => {
            if keys.escape {
                out.flow = flow(Some(AppState::Playing), None, true);
            } else if keys.r {
                out.flow = flow(Some(AppState::Playing), Some(LoadLevelEvent { restart: true }), true);
            } else if keys.q {
                out.flow = flow(Some(AppState::LevelSelect), None, true);
            }
        },
        AppState::LevelComplete => {
            if keys.n || keys.enter {
                if next_level_exists(selection, registry) {
                    selection.level_index = selection.level_index + 1;
                    out.flow = flow(Some(AppState::Playing), Some(LoadLevelEvent { restart: false }), true);
                    cooldown.begin_playing();
                    return out;
                }
                out.flow = flow(Some(AppState::LevelSelect), None, true);
            } else if keys.escape {
                out.flow = flow(Some(AppState::LevelSelect), None, true);
            }
        },
        AppState::GameOver => {
            if keys.r {
                out.flow = flow(Some(AppState::Playing), Some(LoadLevelEvent { restart: true }), true);
                cooldown.begin_playing();
            } else if keys.escape || keys.enter {
                out.flow = flow(Some(AppState::LevelSelect), None, true);
            }
        },
        _ => {},
    }
    out
}

/// A pressed button of the in-game menus. Pause: resume, restart (clearing
/// the input cooldown) or main menu. Victory: restart, next level (or level
/// select after the last), main menu; sharing does nothing yet. Defeat:
/// retry, main menu or level select.
pub fn game_menu_button_input(
    state: AppState,
    action: GameMenuAction,
    cooldown: &mut InputCooldown,
    selection: &mut LevelSelection,
    registry: &LevelRegistry,
) -> (out: FlowOutcome)
    requires
        state == AppState::LevelComplete && action == GameMenuAction::NextLevel
            && registry.spec_level_count(old(selection).pack_index as int) is Some ==> old(selection).level_index < usize::MAX,
    ensures
        out == spec_menu_button_flow(state, action, *old(selection), *registry),
        final(cooldown).frames_remaining == spec_menu_button_cooldown(state, action, old(cooldown).frames_remaining, *old(selection), *registry),
        *final(selection) == if state == AppState::LevelComplete && action == GameMenuAction::NextLevel && has_next_level(*old(selection), *registry) {
            LevelSelection { level_index: (old(selection).level_index + 1) as usize, ..*old(selection) }
        } else {
            *old(selection)
        },
{
    match (state, action) {
        (AppState::Paused, GameMenuAction::Resume) => flow(Some(AppState::Playing), None, true),
        (AppState::Paused, GameMenuAction::Restart) => {
            cooldown.frames_remaining = 0;
            flow(Some(AppState::Playing), Some(LoadLevelEvent { restart: true }), true)
        },
        (AppState::Paused, GameMenuAction::MainMenu) => flow(Some(AppState::MainMenu), None, true),
        (AppState::LevelComplete, GameMenuAction::Restart) => {
            cooldown.begin_playing();
            flow(Some(AppState::Playing), Some(LoadLevelEvent { restart: true }), true)
        },
        (AppState::LevelComplete, GameMenuAction::NextLevel) => {
            if next_level_exists(selection, registry) {
                selection.level_index = selection.level_index + 1;
                cooldown.begin_playing();
                flow(Some(AppState::Playing), Some(LoadLevelEvent { restart: false }), true)
            } else {
                flow(Some(AppState::LevelSelect), None, true)
            }
        },
        (AppState::LevelComplete, GameMenuAction::MainMenu) => flow(Some(AppState::MainMenu), None, true),
        (AppState::GameOver, GameMenuAction::Retry) => {
            cooldown.begin_playing();
            flow(Some(AppState::Playing), Some(LoadLevelEvent { restart: true }), true)
        },
        (AppState::GameOver, GameMenuAction::MainMenu) => flow(Some(AppState::MainMenu), None, true),
        (AppState::GameOver, GameMenuAction::LevelSelect) => flow(Some(AppState::LevelSelect), None, true),
        _ => flow(None, None, false),
    }
}

/// A pressed HUD button while playing: pause, or restart the level with the
/// input cooldown cleared. Ignored on other screens.
pub fn hud_button_input(state: AppState, button: HudButton, cooldown: &mut InputCooldown) -> (out: FlowOutcome)
    ensures
        out == spec_hud_button_flow(state, button),
        state == AppState::Playing && button == HudButton::Restart ==> final(cooldown).frames_remaining == 0,
        !(state == AppState::Playing && button == HudButton::Restart) ==> *final(cooldown) == *old(cooldown),
{
    if state != AppState::Playing {
        return flow(None, None, false);
    }
    match button {
        HudButton::PauseMenu => flow(Some(AppState::Paused), None, false),
        HudButton::Restart => {
            cooldown.frames_remaining = 0;
            flow(None, Some(LoadLevelEvent { restart: true }), false)
        },
    }
}

/// A level result seen while playing stops the speed-run clock and moves to
/// the victory or defeat screen; other events and other screens change nothing.
pub fn level_end(state: AppState, event: &GameEvent, timer: &mut SpeedrunTimer) -> (next: Option<AppState>)
    ensures
        next == spec_level_end(state, *event),
        next is Some ==> *final(timer) == (SpeedrunTimer { running: false, ..*old(timer) }),
        next is None ==> *final(timer) == *old(timer),
{
    if state != AppState::Playing {
        return None;
    }
    match event {
        GameEvent::LevelComplete => {
            timer.running = false;
            Some(AppState::LevelComplete)
        },
        GameEvent::LevelFailed => {
            timer.running = false;
            Some(AppState::GameOver)
        },
        _ => None,
    }
}

/// Escape pauses a running level and Escape on the pause menu resumes it,
/// without loading anything.
pub proof fn law_escape_pauses_and_resumes(keys: GameKeys, sel: LevelSelection, reg: LevelRegistry, cooldown: u8)
    requires
        keys.escape,
        !keys.space,
        !keys.z,
        !keys.x,
    ensures
        spec_game_keys_flow(AppState::Playing, keys, false, cooldown, sel, reg).next_state == Some(AppState::Paused),
        spec_game_keys_flow(AppState::Playing, keys, false, cooldown, sel, reg).load_level is None,
        spec_game_keys_flow(AppState::Paused, keys, false, cooldown, sel, reg).next_state == Some(AppState::Playing),
        spec_game_keys_flow(AppState::Paused, keys, false, cooldown, sel, reg).load_level is None,
{
}

/// On the victory screen, "next" plays the following level of the same pack
/// as a fresh load; after the pack's last level it returns to level select
/// and keeps the selection. Key and button agree.
pub proof fn law_next_level(keys: GameKeys, sel: LevelSelection, reg: LevelRegistry, cooldown: u8)
    requires
        keys.n || keys.enter,
    ensures
        has_next_level(sel, reg) ==> {
            &&& spec_game_keys_selection(AppState::LevelComplete, keys, cooldown, sel, reg)
                == (LevelSelection { pack_index: sel.pack_index, level_index: (sel.level_index + 1) as usize })
            &&& spec_game_keys_flow(AppState::LevelComplete, keys, false, cooldown, sel, reg) == load_and_go(false, AppState::Playing)
        },
        !has_next_level(sel, reg) ==> {
            &&& spec_game_keys_selection(AppState::LevelComplete, keys, cooldown, sel, reg) == sel
            &&& spec_game_keys_flow(AppState::LevelComplete, keys, false, cooldown, sel, reg) == go_to(AppState::LevelSelect)
        },
        spec_game_keys_flow(AppState::LevelComplete, keys, false, cooldown, sel, reg)
            == spec_menu_button_flow(AppState::LevelComplete, GameMenuAction::NextLevel, sel, reg),
{
}

/// Every way of restarting a level (R on the pause menu or after a defeat,
/// the restart and retry buttons, the HUD restart button) asks for a
/// restarting load, and a restarting load starts without the countdown
/// blocking input.
pub proof fn law_restarts_reload(keys: GameKeys, sel: LevelSelection, reg: LevelRegistry, cooldown: u8)
    requires
        keys.r,
        !keys.escape,
    ensures
        spec_game_keys_flow(AppState::Paused, keys, false, cooldown, sel, reg).load_level == Some(LoadLevelEvent { restart: true }),
        spec_game_keys_flow(AppState::GameOver, keys, false, cooldown, sel, reg).load_level == Some(LoadLevelEvent { restart: true }),
        spec_menu_button_flow(AppState::Paused, GameMenuAction::Restart, sel, reg).load_level == Some(LoadLevelEvent { restart: true }),
        spec_menu_button_flow(AppState::LevelComplete, GameMenuAction::Restart, sel, reg).load_level == Some(LoadLevelEvent { restart: true }),
        spec_menu_button_flow(AppState::GameOver, GameMenuAction::Retry, sel, reg).load_level == Some(LoadLevelEvent { restart: true }),
        spec_hud_button_flow(AppState::Playing, HudButton::Restart).load_level == Some(LoadLevelEvent { restart: true }),
        !spec_blocks_input(spec_countdown_start(true)),
{
}

/// Entering play arms the cooldown, which swallows the level-select keys for
/// exactly four frames.
pub proof fn law_cooldown_swallows_four_frames(keys: GameKeys, sel: LevelSelection, reg: LevelRegistry)
    ensures
        forall|c: u8| 0 < c <= ENTER_PLAY_COOLDOWN_FRAMES ==> #[trigger] spec_game_keys_flow(AppState::LevelSelect, keys, false, c, sel, reg) == no_flow(),
        keys.enter ==> spec_game_keys_flow(AppState::LevelSelect, keys, false, 0, sel, reg).load_level == Some(LoadLevelEvent { restart: false }),
{
}

/// A level ends only while it is being played: completion leads to the
/// victory screen, failure to the defeat screen.
pub proof fn law_level_results(state: AppState, event: GameEvent)
    ensures
        spec_level_end(state, event) is Some ==> state == AppState::Playing,
        spec_level_end(AppState::Playing, GameEvent::LevelComplete) == Some(AppState::LevelComplete),
        spec_level_end(AppState::Playing, GameEvent::LevelFailed) == Some(AppState::GameOver),
{
}

/// Counts screen changes for the render audit: the first screen seen is
/// only remembered; each later change of screen counts one transition.
pub fn audit_state_transition(last: &mut Option<AppState>, current: AppState, total: &mut u32)
    requires
        (*old(last) matches Some(prev) && prev != current) ==> *old(total) < u32::MAX,
    ensures
        *final(last) == Some(current),
        *final(total) == if (*old(last) matches Some(prev) && prev != current) { *old(total) + 1 } else { *old(total) as int },
{
    match *last {
        Some(prev) => {
            if prev != current {
                *total = *total + 1;
                *last = Some(current);
            }
        },
        None => {
            *last = Some(current);
        },
    }
}

/// Only Escape pressed this frame.
pub open spec fn escape_key() -> GameKeys {
    GameKeys {
        any: true,
        arrows: DirectionKeys { up: false, down: false, left: false, right: false },
        wasd: DirectionKeys { up: false, down: false, left: false, right: false },
        enter: false,
        escape: true,
        space: false,
        z: false,
        x: false,
        r: false,
        q: false,
        n: false,
    }
}

/// The RESUME button of the pause menu does what Escape does there: back to
/// play with the menu dismissed, no level load, and the input cooldown left
/// alone, for every selection and pack list.
pub proof fn law_resume_button_matches_escape(sel: LevelSelection, reg: LevelRegistry, cooldown: u8)
    ensures
        spec_menu_button_flow(AppState::Paused, GameMenuAction::Resume, sel, reg)
            == spec_game_keys_flow(AppState::Paused, escape_key(), false, cooldown, sel, reg),
        spec_menu_button_flow(AppState::Paused, GameMenuAction::Resume, sel, reg).next_state == Some(AppState::Playing),
        spec_menu_button_flow(AppState::Paused, GameMenuAction::Resume, sel, reg).load_level is None,
        spec_menu_button_flow(AppState::Paused, GameMenuAction::Resume, sel, reg).dismiss_menu,
        spec_menu_button_cooldown(AppState::Paused, GameMenuAction::Resume, cooldown, sel, reg) == cooldown,
{
}

/// Escape on a result screen leaves it for level select, loading nothing
/// and keeping the selection: on the victory screen (without N or Enter)
/// exactly as on the defeat screen (without R).
pub proof fn law_escape_from_results_goes_to_level_select(keys: GameKeys, blocks: bool, cooldown: u8, sel: LevelSelection, reg: LevelRegistry)
    requires
        keys.escape,
        !keys.n,
        !keys.enter,
        !keys.r,
    ensures
        spec_game_keys_flow(AppState::LevelComplete, keys, blocks, cooldown, sel, reg).next_state == Some(AppState::LevelSelect),
        spec_game_keys_flow(AppState::LevelComplete, keys, blocks, cooldown, sel, reg).load_level is None,
        spec_game_keys_flow(AppState::LevelComplete, keys, blocks, cooldown, sel, reg).dismiss_menu,
        spec_game_keys_flow(AppState::LevelComplete, keys, blocks, cooldown, sel, reg)
            == spec_game_keys_flow(AppState::GameOver, keys, blocks, cooldown, sel, reg),
        spec_game_keys_selection(AppState::LevelComplete, keys, cooldown, sel, reg) == sel,
        !spec_game_keys_begin_play(AppState::LevelComplete, keys, cooldown, sel, reg),
{
}

} // verus!
