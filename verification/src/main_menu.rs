//! Main-menu navigation: the screen stack (root, settings, level select),
//! the highlighted item, and what each menu action asks of the front-end.

use vstd::prelude::*;
use crate::flow::{AppState, InputCooldown, LoadLevelEvent, ENTER_PLAY_COOLDOWN_FRAMES};
use crate::levels::{
    LevelRegistry, LevelSelection, resolve_last_level, spec_resolve_last_level, wrap_prev, wrap_next,
    at_least_one,
};
use crate::progress::ProfileData;

verus! {

/// Screens of the main menu.
#[derive(Clone, Copy, Debug, PartialEq, Eq, Structural)]
pub enum MainMenuScreen {
    Root,
    Settings,
    LevelSelect,
}

/// Current menu screen and highlighted item.
#[derive(Clone, Copy, Debug, PartialEq, Eq, Structural)]
pub struct MainMenuState {
    pub screen: MainMenuScreen,
    pub selection: usize,
}

/// Set when the menu must be rebuilt.
#[derive(Clone, Copy, Debug, PartialEq, Eq, Structural)]
pub struct MainMenuUiDirty(pub bool);

/// What a menu item or button does.
#[derive(Clone, Copy, Debug, PartialEq, Eq, Structural)]
pub enum MainMenuAction {
    Start,
    OpenLevelSelect,
    OpenSettings,
    Back,
    MusicLess,
    MusicMore,
    ToggleMute,
    PackPrev,
    PackNext,
    LevelPrev,
    LevelNext,
    PlayLevel,
}

/// Index of a highlightable menu item.
#[derive(Clone, Copy, Debug, PartialEq, Eq, Structural)]
pub struct MainMenuItem {
    pub index: usize,
}

/// Highlighted item of the single-screen menu.
#[derive(Clone, Copy, Debug, PartialEq, Eq, Structural)]
pub struct MenuSelection {
    pub index: usize,
}

/// Keys pressed this frame on a menu.
#[derive(Clone, Copy, Debug, PartialEq, Eq, Structural)]
pub struct MenuKeys {
    pub up: bool,
    pub down: bool,
    pub left: bool,
    pub right: bool,
    pub enter: bool,
    pub escape: bool,
    /// Mute toggle (M).
    pub m: bool,
}

/// Something a menu action asks of the front-end, in order.
#[derive(Clone, Copy, Debug, PartialEq, Eq, Structural)]
pub enum MenuEffect {
    /// Lower the music volume by one step.
    MusicLess,
    /// Raise the music volume by one step.
    MusicMore,
    /// Mute, or restore the volumes saved at the last mute.
    ToggleMute,
    /// Load the selected level.
    Load(LoadLevelEvent),
    /// Switch screen.
    Goto(AppState),
}

/// The pieces of state a menu action changes.
#[derive(Clone, Copy, Debug, PartialEq, Eq, Structural)]
pub struct MenuContext {
    pub menu: MainMenuState,
    pub dirty: bool,
    pub selection: LevelSelection,
    pub cooldown: u8,
}

/// Items of the single-screen menu: start, select level, music.
pub const MENU_ITEM_COUNT: usize = 3;

pub open spec fn spec_item_count(screen: MainMenuScreen) -> int {
    match screen {
        MainMenuScreen::Root => 3,
        MainMenuScreen::Settings => 3,
        MainMenuScreen::LevelSelect => 4,
    }
}

/// `selection.wrapping_sub(1) % count`: from zero this wraps through
/// `usize::MAX` (which with three items lands on item zero again).
pub open spec fn wrapping_prev(sel: int, count: int) -> int {
    if sel == 0 { usize::MAX as int % count } else { (sel - 1) % count }
}

/// Highlight after the up/down keys (not on the level-select screen, whose
/// up/down change the pack).
pub open spec fn spec_menu_nav(m: MainMenuState, keys: MenuKeys) -> MainMenuState {
    if m.screen == MainMenuScreen::LevelSelect {
        m
    } else {
        let count = spec_item_count(m.screen);
        let a = if keys.up { wrapping_prev(m.selection as int, count) } else { m.selection as int };
        let b = if keys.down { (a + 1) % count } else { a };
        MainMenuState { selection: b as usize, ..m }
    }
}

/// Effect of one action on the menu state and what it asks of the front-end.
pub open spec fn spec_menu_action(a: MainMenuAction, c: MenuContext, reg: LevelRegistry, profile: ProfileData) -> (MenuContext, Seq<MenuEffect>) {
    match a {
        MainMenuAction::Start => (
            MenuContext { selection: spec_resolve_last_level(reg, profile), cooldown: ENTER_PLAY_COOLDOWN_FRAMES, ..c },
            seq![MenuEffect::Load(LoadLevelEvent { restart: false }), MenuEffect::Goto(AppState::Playing)],
        ),
        MainMenuAction::OpenLevelSelect => (
            MenuContext {
                menu: MainMenuState { screen: MainMenuScreen::LevelSelect, selection: 0 },
                dirty: true,
                selection: spec_resolve_last_level(reg, profile),
                ..c
            },
            Seq::empty(),
        ),
        MainMenuAction::OpenSettings => (
            MenuContext { menu: MainMenuState { screen: MainMenuScreen::Settings, selection: 0 }, dirty: true, ..c },
            Seq::empty(),
        ),
        MainMenuAction::Back => (
            MenuContext { menu: MainMenuState { screen: MainMenuScreen::Root, selection: 0 }, dirty: true, ..c },
            Seq::empty(),
        ),
        MainMenuAction::MusicLess => (c, seq![MenuEffect::MusicLess]),
        MainMenuAction::MusicMore => (c, seq![MenuEffect::MusicMore]),
        MainMenuAction::ToggleMute => (MenuContext { dirty: true, ..c }, seq![MenuEffect::ToggleMute]),
        MainMenuAction::PackPrev => (
            MenuContext {
                selection: LevelSelection {
                    pack_index: wrap_prev(c.selection.pack_index as int, at_least_one(reg.pack_count())) as usize,
                    level_index: 0,
                },
                ..c
            },
            Seq::empty(),
        ),
        MainMenuAction::PackNext => (
            MenuContext {
                selection: LevelSelection {
                    pack_index: wrap_next(c.selection.pack_index as int, at_least_one(reg.pack_count())) as usize,
                    level_index: 0,
                },
                ..c
            },
            Seq::empty(),
        ),
        MainMenuAction::LevelPrev => (
            match reg.spec_level_count(c.selection.pack_index as int) {
                Some(n) => MenuContext {
                    selection: LevelSelection {
                        level_index: wrap_prev(c.selection.level_index as int, at_least_one(n)) as usize,
                        ..c.selection
                    },
                    ..c
                },
                None => c,
            },
            Seq::empty(),
        ),
        MainMenuAction::LevelNext => (
            match reg.spec_level_count(c.selection.pack_index as int) {
                Some(n) => MenuContext {
                    selection: LevelSelection {
                        level_index: wrap_next(c.selection.level_index as int, at_least_one(n)) as usize,
                        ..c.selection
                    },
                    ..c
                },
                None => c,
            },
            Seq::empty(),
        ),
        MainMenuAction::PlayLevel => (
            MenuContext { cooldown: ENTER_PLAY_COOLDOWN_FRAMES, ..c },
            seq![MenuEffect::Load(LoadLevelEvent { restart: false }), MenuEffect::Goto(AppState::Playing)],
        ),
    }
}

/// An action causes no overflow.
pub open spec fn menu_action_ok(a: MainMenuAction, c: MenuContext, reg: LevelRegistry) -> bool {
    match a {
        MainMenuAction::PackPrev => c.selection.pack_index + at_least_one(reg.pack_count()) <= usize::MAX,
        MainMenuAction::PackNext => c.selection.pack_index < usize::MAX,
        MainMenuAction::LevelPrev => reg.spec_level_count(c.selection.pack_index as int) matches Some(n)
            ==> c.selection.level_index + at_least_one(n) <= usize::MAX,
        MainMenuAction::LevelNext => reg.spec_level_count(c.selection.pack_index as int) is Some
            ==> c.selection.level_index < usize::MAX,
        _ => true,
    }
}

/// Effect of a sequence of actions, applied in order.
pub open spec fn spec_menu_actions(acts: Seq<MainMenuAction>, c: MenuContext, reg: LevelRegistry, profile: ProfileData) -> (MenuContext, Seq<MenuEffect>)
    decreases acts.len(),
{
    if acts.len() == 0 {
        (c, Seq::empty())
    } else {
        let (c1, e1) = spec_menu_actions(acts.drop_last(), c, reg, profile);
        let (c2, e2) = spec_menu_action(acts.last(), c1, reg, profile);
        (c2, e1 + e2)
    }
}

/// Every action of a sequence causes no overflow where it applies.
pub open spec fn menu_actions_ok(acts: Seq<MainMenuAction>, c: MenuContext, reg: LevelRegistry, profile: ProfileData) -> bool
    decreases acts.len(),
{
    if acts.len() == 0 {
        true
    } else {
        menu_actions_ok(acts.drop_last(), c, reg, profile)
            && menu_action_ok(acts.last(), spec_menu_actions(acts.drop_last(), c, reg, profile).0, reg)
    }
}

pub open spec fn when(b: bool, a: MainMenuAction) -> Seq<MainMenuAction> {
    if b { seq![a] } else { Seq::empty() }
}

/// Actions of the settings keys before Enter: left, right, M, Escape.
pub open spec fn settings_key_actions(keys: MenuKeys) -> Seq<MainMenuAction> {
    when(keys.left, MainMenuAction::MusicLess) + when(keys.right, MainMenuAction::MusicMore)
        + when(keys.m, MainMenuAction::ToggleMute) + when(keys.escape, MainMenuAction::Back)
}

/// Enter on settings: the mute item toggles mute, the back item goes back.
pub open spec fn settings_enter_action(keys: MenuKeys, selection: usize) -> Seq<MainMenuAction> {
    if keys.enter && selection == 1 {
        seq![MainMenuAction::ToggleMute]
    } else if keys.enter && selection == 2 {
        seq![MainMenuAction::Back]
    } else {
        Seq::empty()
    }
}

/// Actions of the level-select keys: arrows change pack and level, Escape
/// goes back, Enter plays.
pub open spec fn level_select_key_actions(keys: MenuKeys) -> Seq<MainMenuAction> {
    when(keys.up, MainMenuAction::PackPrev) + when(keys.down, MainMenuAction::PackNext)
        + when(keys.left, MainMenuAction::LevelPrev) + when(keys.right, MainMenuAction::LevelNext)
        + when(keys.escape, MainMenuAction::Back) + when(keys.enter, MainMenuAction::PlayLevel)
}

/// Enter on the root screen: start, select level, or settings.
pub open spec fn root_key_actions(keys: MenuKeys, selection: usize) -> Seq<MainMenuAction> {
    when(
        keys.enter,
        if selection == 0 {
            MainMenuAction::Start
        } else if selection == 1 {
            MainMenuAction::OpenLevelSelect
        } else {
            MainMenuAction::OpenSettings
        },
    )
}

/// Effect of one frame of menu keys on the screen after the up/down highlight.
pub open spec fn spec_menu_keys(keys: MenuKeys, c: MenuContext, reg: LevelRegistry, profile: ProfileData) -> (MenuContext, Seq<MenuEffect>) {
    match c.menu.screen {
        MainMenuScreen::Root => spec_menu_actions(root_key_actions(keys, c.menu.selection), c, reg, profile),
        MainMenuScreen::LevelSelect => spec_menu_actions(level_select_key_actions(keys), c, reg, profile),
        MainMenuScreen::Settings => {
            let (c1, e1) = spec_menu_actions(settings_key_actions(keys), c, reg, profile);
            let (c2, e2) = spec_menu_actions(settings_enter_action(keys, c1.menu.selection), c1, reg, profile);
            (c2, e1 + e2)
        },
    }
}

pub open spec fn menu_keys_ok(keys: MenuKeys, c: MenuContext, reg: LevelRegistry, profile: ProfileData) -> bool {
    match c.menu.screen {
        MainMenuScreen::Root => true,
        MainMenuScreen::LevelSelect => menu_actions_ok(level_select_key_actions(keys), c, reg, profile),
        MainMenuScreen::Settings => true,
    }
}

pub open spec fn context_of(menu: MainMenuState, dirty: MainMenuUiDirty, selection: LevelSelection, cooldown: InputCooldown) -> MenuContext {
    MenuContext { menu, dirty: dirty.0, selection, cooldown: cooldown.frames_remaining }
}

impl MainMenuScreen {
    /// Number of highlightable items on the screen.
    pub fn item_count(self) -> (n: usize)
        ensures
            n == spec_item_count(self),
    {
        match self {
            MainMenuScreen::Root => 3,
            MainMenuScreen::Settings => 3,
            MainMenuScreen::LevelSelect => 4,
        }
    }

    /// Title of the screen.
    pub fn header(self) -> (h: &'static str)
        ensures
            h@ == match self {
                MainMenuScreen::Root => "DIGITAL ROBBO"@,
                MainMenuScreen::Settings => "SETTINGS"@,
                MainMenuScreen::LevelSelect => "SELECT LEVEL"@,
            },
    {
        proof {
            reveal_strlit("DIGITAL ROBBO");
            reveal_strlit("SETTINGS");
            reveal_strlit("SELECT LEVEL");
        }
        match self {
            MainMenuScreen::Root => "DIGITAL ROBBO",
            MainMenuScreen::Settings => "SETTINGS",
            MainMenuScreen::LevelSelect => "SELECT LEVEL",
        }
    }
}

impl MainMenuState {
    /// Root screen, first item.
    pub fn new() -> (s: Self)
        ensures
            s == (MainMenuState { screen: MainMenuScreen::Root, selection: 0 }),
    {
        MainMenuState { screen: MainMenuScreen::Root, selection: 0 }
    }
}

/// Menu state when the main menu is entered: root screen, first item, clean.
pub fn init_on_enter(menu: &mut MainMenuState, dirty: &mut MainMenuUiDirty)
    ensures
        *final(menu) == (MainMenuState { screen: MainMenuScreen::Root, selection: 0 }),
        final(dirty).0 == false,
{
    menu.screen = MainMenuScreen::Root;
    menu.selection = 0;
    dirty.0 = false;
}

/// Applies one menu action and appends what it asks of the front-end.
pub fn apply_action(
    action: MainMenuAction,
    menu: &mut MainMenuState,
    dirty: &mut MainMenuUiDirty,
    selection: &mut LevelSelection,
    cooldown: &mut InputCooldown,
    registry: &LevelRegistry,
    profile: &ProfileData,
    effects: &mut Vec<MenuEffect>,
)
    requires
        menu_action_ok(action, context_of(*old(menu), *old(dirty), *old(selection), *old(cooldown)), *registry),
    ensures
        ({
            let (c, e) = spec_menu_action(action, context_of(*old(menu), *old(dirty), *old(selection), *old(cooldown)), *registry, *profile);
            &&& context_of(*final(menu), *final(dirty), *final(selection), *final(cooldown)) == c
            &&& final(effects)@ == old(effects)@ + e
        }),
{
    let ghost e0 = effects@;
    match action {
        MainMenuAction::Start => {
            resolve_last_level(registry, profile, selection);
            effects.push(MenuEffect::Load(LoadLevelEvent { restart: false }));
            cooldown.begin_playing();
            effects.push(MenuEffect::Goto(AppState::Playing));
        },
        MainMenuAction::OpenLevelSelect => {
            resolve_last_level(registry, profile, selection);
            menu.screen = MainMenuScreen::LevelSelect;
            menu.selection = 0;
            dirty.0 = true;
        },
        MainMenuAction::OpenSettings => {
            menu.screen = MainMenuScreen::Settings;
            menu.selection = 0;
            dirty.0 = true;
        },
        MainMenuAction::Back => {
            menu.screen = MainMenuScreen::Root;
            menu.selection = 0;
            dirty.0 = true;
        },
        MainMenuAction::MusicLess => {
            effects.push(MenuEffect::MusicLess);
        },
        MainMenuAction::MusicMore => {
            effects.push(MenuEffect::MusicMore);
        },
        MainMenuAction::ToggleMute => {
            effects.push(MenuEffect::ToggleMute);
            dirty.0 = true;
        },
        MainMenuAction::PackPrev => {
            selection.pack_prev(registry);
        },
        MainMenuAction::PackNext => {
            selection.pack_next(registry);
        },
        MainMenuAction::LevelPrev => {
            selection.level_prev(registry);
        },
        MainMenuAction::LevelNext => {
            selection.level_next(registry);
        },
        MainMenuAction::PlayLevel => {
            effects.push(MenuEffect::Load(LoadLevelEvent { restart: false }));
            cooldown.begin_playing();
            effects.push(MenuEffect::Goto(AppState::Playing));
        },
    }
    proof {
        let (c, e) = spec_menu_action(action, context_of(*old(menu), *old(dirty), *old(selection), *old(cooldown)), *registry, *profile);
        assert(effects@ =~= e0 + e);
    }
}

/// Applies actions in order, appending their effects.
fn apply_actions(
    acts: &Vec<MainMenuAction>,
    menu: &mut MainMenuState,
    dirty: &mut MainMenuUiDirty,
    selection: &mut LevelSelection,
    cooldown: &mut InputCooldown,
    registry: &LevelRegistry,
    profile: &ProfileData,
    effects: &mut Vec<MenuEffect>,
)
    requires
        menu_actions_ok(acts@, context_of(*old(menu), *old(dirty), *old(selection), *old(cooldown)), *registry, *profile),
    ensures
        ({
            let (c, e) = spec_menu_actions(acts@, context_of(*old(menu), *old(dirty), *old(selection), *old(cooldown)), *registry, *profile);
            &&& context_of(*final(menu), *final(dirty), *final(selection), *final(cooldown)) == c
            &&& final(effects)@ == old(effects)@ + e
        }),
{
    let ghost c0 = context_of(*menu, *dirty, *selection, *cooldown);
    let ghost e0 = effects@;
    let mut i: usize = 0;
    while i < acts.len()
        invariant
            i <= acts@.len(),
            menu_actions_ok(acts@, c0, *registry, *profile),
            ({
                let (c, e) = spec_menu_actions(acts@.take(i as int), c0, *registry, *profile);
                &&& context_of(*menu, *dirty, *selection, *cooldown) == c
                &&& effects@ == e0 + e
            }),
        decreases acts@.len() - i,
    {
        proof {
            assert(acts@.take(i + 1).drop_last() =~= acts@.take(i as int));
            lemma_actions_ok_prefix(acts@, c0, *registry, *profile, i as int + 1);
        }
        let ghost e_before = effects@;
        apply_action(acts[i], menu, dirty, selection, cooldown, registry, profile, effects);
        proof {
            let (cp, ep) = spec_menu_actions(acts@.take(i as int), c0, *registry, *profile);
            let (c2, e2) = spec_menu_action(acts@[i as int], cp, *registry, *profile);
            assert(e_before + e2 =~= e0 + (ep + e2));
        }
        i = i + 1;
    }
    proof {
        assert(acts@.take(acts@.len() as int) =~= acts@);
    }
}

proof fn lemma_actions_ok_prefix(acts: Seq<MainMenuAction>, c: MenuContext, reg: LevelRegistry, profile: ProfileData, k: int)
    requires
        menu_actions_ok(acts, c, reg, profile),
        0 < k <= acts.len(),
    ensures
        menu_action_ok(acts[k - 1], spec_menu_actions(acts.take(k - 1), c, reg, profile).0, reg),
    decreases acts.len(),
{
    if k == acts.len() {
        assert(acts.drop_last() =~= acts.take(k - 1));
    } else {
        assert(acts.drop_last().take(k - 1) =~= acts.take(k - 1));
        lemma_actions_ok_prefix(acts.drop_last(), c, reg, profile, k);
    }
}

pub open spec fn is_nav(a: MainMenuAction) -> bool {
    a == MainMenuAction::PackPrev || a == MainMenuAction::PackNext || a == MainMenuAction::LevelPrev
        || a == MainMenuAction::LevelNext
}

proof fn lemma_ok_without_nav(acts: Seq<MainMenuAction>, c: MenuContext, reg: LevelRegistry, profile: ProfileData)
    requires
        forall|i: int| 0 <= i < acts.len() ==> !is_nav(#[trigger] acts[i]),
    ensures
        menu_actions_ok(acts, c, reg, profile),
    decreases acts.len(),
{
    if acts.len() > 0 {
        assert(!is_nav(acts[acts.len() - 1]));
        lemma_ok_without_nav(acts.drop_last(), c, reg, profile);
    }
}

fn push_when(acts: &mut Vec<MainMenuAction>, b: bool, a: MainMenuAction)
    ensures
        final(acts)@ == old(acts)@ + when(b, a),
{
    if b {
        acts.push(a);
    }
    proof {
        assert(final(acts)@ =~= old(acts)@ + when(b, a));
    }
}

/// Moves the highlight with up/down (not on the level-select screen).
fn menu_nav(menu: &mut MainMenuState, keys: &MenuKeys)
    requires
        (old(menu).screen != MainMenuScreen::LevelSelect && keys.down && !keys.up) ==> old(menu).selection < usize::MAX,
    ensures
        *final(menu) == spec_menu_nav(*old(menu), *keys),
{
    let count = menu.screen.item_count();
    if menu.screen != MainMenuScreen::LevelSelect {
        if keys.up {
            menu.selection = menu.selection.wrapping_sub(1) % count;
        }
        if keys.down {
            menu.selection = (menu.selection + 1) % count;
        }
    }
}

/// Settings keys: left, right, M, Escape, then Enter on the highlighted item.
fn settings_keys(
    keys: &MenuKeys,
    menu: &mut MainMenuState,
    dirty: &mut MainMenuUiDirty,
    selection: &mut LevelSelection,
    cooldown: &mut InputCooldown,
    registry: &LevelRegistry,
    profile: &ProfileData,
    effects: &mut Vec<MenuEffect>,
)
    requires
        old(menu).screen == MainMenuScreen::Settings,
    ensures
        ({
            let (c, e) = spec_menu_keys(*keys, context_of(*old(menu), *old(dirty), *old(selection), *old(cooldown)), *registry, *profile);
            &&& context_of(*final(menu), *final(dirty), *final(selection), *final(cooldown)) == c
            &&& final(effects)@ == old(effects)@ + e
        }),
{
    let ghost e0 = effects@;
    let mut acts: Vec<MainMenuAction> = Vec::new();
    push_when(&mut acts, keys.left, MainMenuAction::MusicLess);
    push_when(&mut acts, keys.right, MainMenuAction::MusicMore);
    push_when(&mut acts, keys.m, MainMenuAction::ToggleMute);
    push_when(&mut acts, keys.escape, MainMenuAction::Back);
    assert(acts@ =~= settings_key_actions(*keys));
    proof {
        lemma_ok_without_nav(acts@, context_of(*menu, *dirty, *selection, *cooldown), *registry, *profile);
    }
    apply_actions(&acts, menu, dirty, selection, cooldown, registry, profile, effects);
    let ghost e1 = effects@;
    let mut enter_acts: Vec<MainMenuAction> = Vec::new();
    push_when(&mut enter_acts, keys.enter && menu.selection == 1, MainMenuAction::ToggleMute);
    push_when(&mut enter_acts, keys.enter && menu.selection == 2, MainMenuAction::Back);
    assert(enter_acts@ =~= settings_enter_action(*keys, menu.selection));
    proof {
        lemma_ok_without_nav(enter_acts@, context_of(*menu, *dirty, *selection, *cooldown), *registry, *profile);
    }
    apply_actions(&enter_acts, menu, dirty, selection, cooldown, registry, profile, effects);
    proof {
        let c0 = context_of(*old(menu), *old(dirty), *old(selection), *old(cooldown));
        let (c1, ea) = spec_menu_actions(settings_key_actions(*keys), c0, *registry, *profile);
        let (c2, eb) = spec_menu_actions(settings_enter_action(*keys, c1.menu.selection), c1, *registry, *profile);
        assert(effects@ =~= e0 + (ea + eb));
    }
}

/// Level-select keys: arrows change pack and level, Escape goes back, Enter plays.
fn level_select_keys(
    keys: &MenuKeys,
    menu: &mut MainMenuState,
    dirty: &mut MainMenuUiDirty,
    selection: &mut LevelSelection,
    cooldown: &mut InputCooldown,
    registry: &LevelRegistry,
    profile: &ProfileData,
    effects: &mut Vec<MenuEffect>,
)
    requires
        old(menu).screen == MainMenuScreen::LevelSelect,
        menu_keys_ok(*keys, context_of(*old(menu), *old(dirty), *old(selection), *old(cooldown)), *registry, *profile),
    ensures
        ({
            let (c, e) = spec_menu_keys(*keys, context_of(*old(menu), *old(dirty), *old(selection), *old(cooldown)), *registry, *profile);
            &&& context_of(*final(menu), *final(dirty), *final(selection), *final(cooldown)) == c
            &&& final(effects)@ == old(effects)@ + e
        }),
{
    let mut acts: Vec<MainMenuAction> = Vec::new();
    push_when(&mut acts, keys.up, MainMenuAction::PackPrev);
    push_when(&mut acts, keys.down, MainMenuAction::PackNext);
    push_when(&mut acts, keys.left, MainMenuAction::LevelPrev);
    push_when(&mut acts, keys.right, MainMenuAction::LevelNext);
    push_when(&mut acts, keys.escape, MainMenuAction::Back);
    push_when(&mut acts, keys.enter, MainMenuAction::PlayLevel);
    assert(acts@ =~= level_select_key_actions(*keys));
    apply_actions(&acts, menu, dirty, selection, cooldown, registry, profile, effects);
}

/// Root keys: Enter activates the highlighted item.
fn root_keys(
    keys: &MenuKeys,
    menu: &mut MainMenuState,
    dirty: &mut MainMenuUiDirty,
    selection: &mut LevelSelection,
    cooldown: &mut InputCooldown,
    registry: &LevelRegistry,
    profile: &ProfileData,
    effects: &mut Vec<MenuEffect>,
)
    requires
        old(menu).screen == MainMenuScreen::Root,
    ensures
        ({
            let (c, e) = spec_menu_keys(*keys, context_of(*old(menu), *old(dirty), *old(selection), *old(cooldown)), *registry, *profile);
            &&& context_of(*final(menu), *final(dirty), *final(selection), *final(cooldown)) == c
            &&& final(effects)@ == old(effects)@ + e
        }),
{
    let mut acts: Vec<MainMenuAction> = Vec::new();
    let action = if menu.selection == 0 {
        MainMenuAction::Start
    } else if menu.selection == 1 {
        MainMenuAction::OpenLevelSelect
    } else {
        MainMenuAction::OpenSettings
    };
    push_when(&mut acts, keys.enter, action);
    assert(acts@ =~= root_key_actions(*keys, menu.selection));
    proof {
        lemma_ok_without_nav(acts@, context_of(*menu, *dirty, *selection, *cooldown), *registry, *profile);
    }
    apply_actions(&acts, menu, dirty, selection, cooldown, registry, profile, effects);
}

/// Main-menu keys of one frame. Ignored off the main menu or while the input
/// cooldown runs. Outside level select, up/down move the highlight (wrapping).
/// Root: Enter starts the last game, opens level select, or opens settings.
/// Settings: left/right change the music volume, M toggles mute, Escape goes
/// back, Enter activates the mute or back item. Level select: up/down change
/// pack, left/right change level, Escape goes back, Enter plays.
pub fn main_menu_keyboard(
    in_main_menu: bool,
    keys: &MenuKeys,
    menu: &mut MainMenuState,
    dirty: &mut MainMenuUiDirty,
    selection: &mut LevelSelection,
    cooldown: &mut InputCooldown,
    registry: &LevelRegistry,
    profile: &ProfileData,
) -> (effects: Vec<MenuEffect>)
    requires
        in_main_menu && old(cooldown).frames_remaining == 0 ==> {
            &&& (old(menu).screen != MainMenuScreen::LevelSelect && keys.down && !keys.up) ==> old(menu).selection < usize::MAX
            &&& menu_keys_ok(*keys, context_of(spec_menu_nav(*old(menu), *keys), *old(dirty), *old(selection), *old(cooldown)), *registry, *profile)
        },
    ensures
        !(in_main_menu && old(cooldown).frames_remaining == 0) ==> effects@.len() == 0 && *final(menu) == *old(menu)
            && *final(dirty) == *old(dirty) && *final(selection) == *old(selection) && *final(cooldown) == *old(cooldown),
        in_main_menu && old(cooldown).frames_remaining == 0 ==> ({
            let (c, e) = spec_menu_keys(*keys, context_of(spec_menu_nav(*old(menu), *keys), *old(dirty), *old(selection), *old(cooldown)), *registry, *profile);
            &&& context_of(*final(menu), *final(dirty), *final(selection), *final(cooldown)) == c
            &&& effects@ == e
        }),
{
    let mut effects: Vec<MenuEffect> = Vec::new();
    if !in_main_menu || cooldown.frames_remaining > 0 {
        return effects;
    }
    menu_nav(menu, keys);
    match menu.screen {
        MainMenuScreen::Settings => settings_keys(keys, menu, dirty, selection, cooldown, registry, profile, &mut effects),
        MainMenuScreen::LevelSelect => level_select_keys(keys, menu, dirty, selection, cooldown, registry, profile, &mut effects),
        MainMenuScreen::Root => root_keys(keys, menu, dirty, selection, cooldown, registry, profile, &mut effects),
    }
    assert(effects@ =~= Seq::<MenuEffect>::empty() + spec_menu_keys(*keys, context_of(spec_menu_nav(*old(menu), *keys), *old(dirty), *old(selection), *old(cooldown)), *registry, *profile).1);
    effects
}

/// Pointer presses of one frame on main-menu buttons, in order: a press on a
/// highlightable item highlights it first, then its action applies. Ignored
/// off the main menu or while the input cooldown runs at the start of the frame.
pub fn main_menu_pointer(
    in_main_menu: bool,
    presses: &Vec<(MainMenuAction, Option<MainMenuItem>)>,
    menu: &mut MainMenuState,
    dirty: &mut MainMenuUiDirty,
    selection: &mut LevelSelection,
    cooldown: &mut InputCooldown,
    registry: &LevelRegistry,
    profile: &ProfileData,
) -> (effects: Vec<MenuEffect>)
    requires
        in_main_menu && old(cooldown).frames_remaining == 0 ==> pointer_presses_ok(presses@, context_of(*old(menu), *old(dirty), *old(selection), *old(cooldown)), *registry, *profile),
    ensures
        !(in_main_menu && old(cooldown).frames_remaining == 0) ==> effects@.len() == 0 && *final(menu) == *old(menu)
            && *final(dirty) == *old(dirty) && *final(selection) == *old(selection) && *final(cooldown) == *old(cooldown),
        in_main_menu && old(cooldown).frames_remaining == 0 ==> ({
            let (c, e) = spec_pointer_presses(presses@, context_of(*old(menu), *old(dirty), *old(selection), *old(cooldown)), *registry, *profile);
            &&& context_of(*final(menu), *final(dirty), *final(selection), *final(cooldown)) == c
            &&& effects@ == e
        }),
{
    let mut effects: Vec<MenuEffect> = Vec::new();
    if !in_main_menu || cooldown.frames_remaining > 0 {
        return effects;
    }
    let ghost c0 = context_of(*menu, *dirty, *selection, *cooldown);
    let mut i: usize = 0;
    while i < presses.len()
        invariant
            i <= presses@.len(),
            pointer_presses_ok(presses@, c0, *registry, *profile),
            ({
                let (c, e) = spec_pointer_presses(presses@.take(i as int), c0, *registry, *profile);
                &&& context_of(*menu, *dirty, *selection, *cooldown) == c
                &&& effects@ == e
            }),
        decreases presses@.len() - i,
    {
        proof {
            assert(presses@.take(i + 1).drop_last() =~= presses@.take(i as int));
            lemma_presses_ok_prefix(presses@, c0, *registry, *profile, i as int + 1);
        }
        let (action, item) = presses[i];
        match item {
            Some(it) => {
                menu.selection = it.index;
            },
            None => {},
        }
        apply_action(action, menu, dirty, selection, cooldown, registry, profile, &mut effects);
        i = i + 1;
    }
    proof {
        assert(presses@.take(presses@.len() as int) =~= presses@);
    }
    effects
}

/// Context after a press highlights its item.
pub open spec fn highlight(c: MenuContext, item: Option<MainMenuItem>) -> MenuContext {
    match item {
        Some(it) => MenuContext { menu: MainMenuState { selection: it.index, ..c.menu }, ..c },
        None => c,
    }
}

/// Effect of pointer presses applied in order.
pub open spec fn spec_pointer_presses(presses: Seq<(MainMenuAction, Option<MainMenuItem>)>, c: MenuContext, reg: LevelRegistry, profile: ProfileData) -> (MenuContext, Seq<MenuEffect>)
    decreases presses.len(),
{
    if presses.len() == 0 {
        (c, Seq::empty())
    } else {
        let (c1, e1) = spec_pointer_presses(presses.drop_last(), c, reg, profile);
        let (c2, e2) = spec_menu_action(presses.last().0, highlight(c1, presses.last().1), reg, profile);
        (c2, e1 + e2)
    }
}

pub open spec fn pointer_presses_ok(presses: Seq<(MainMenuAction, Option<MainMenuItem>)>, c: MenuContext, reg: LevelRegistry, profile: ProfileData) -> bool
    decreases presses.len(),
{
    if presses.len() == 0 {
        true
    } else {
        pointer_presses_ok(presses.drop_last(), c, reg, profile)
            && menu_action_ok(presses.last().0, highlight(spec_pointer_presses(presses.drop_last(), c, reg, profile).0, presses.last().1), reg)
    }
}

proof fn lemma_presses_ok_prefix(presses: Seq<(MainMenuAction, Option<MainMenuItem>)>, c: MenuContext, reg: LevelRegistry, profile: ProfileData, k: int)
    requires
        pointer_presses_ok(presses, c, reg, profile),
        0 < k <= presses.len(),
    ensures
        menu_action_ok(presses[k - 1].0, highlight(spec_pointer_presses(presses.take(k - 1), c, reg, profile).0, presses[k - 1].1), reg),
    decreases presses.len(),
{
    if k == presses.len() {
        assert(presses.drop_last() =~= presses.take(k - 1));
    } else {
        assert(presses.drop_last().take(k - 1) =~= presses.take(k - 1));
        lemma_presses_ok_prefix(presses.drop_last(), c, reg, profile, k);
    }
}

/// Keys of the single-screen menu: up/down move the highlight over its three
/// items (wrapping); on the music item left/right change the volume; M
/// toggles mute. Ignored off the main menu.
pub fn menu_navigate(in_main_menu: bool, keys: &MenuKeys, selection: &mut MenuSelection) -> (effects: Vec<MenuEffect>)
    requires
        in_main_menu && keys.down && !keys.up ==> old(selection).index < usize::MAX,
    ensures
        !in_main_menu ==> effects@.len() == 0 && *final(selection) == *old(selection),
        in_main_menu ==> ({
            let a = if keys.up { wrapping_prev(old(selection).index as int, 3) } else { old(selection).index as int };
            let b = if keys.down { (a + 1) % 3 } else { a };
            &&& final(selection).index == b
            &&& effects@ == (if b == 2 && keys.left { seq![MenuEffect::MusicLess] } else { Seq::empty() })
                + (if b == 2 && keys.right { seq![MenuEffect::MusicMore] } else { Seq::empty() })
                + (if keys.m { seq![MenuEffect::ToggleMute] } else { Seq::empty() })
        }),
{
    let mut effects: Vec<MenuEffect> = Vec::new();
    if !in_main_menu {
        return effects;
    }
    if keys.up {
        selection.index = selection.index.wrapping_sub(1) % MENU_ITEM_COUNT;
    }
    if keys.down {
        selection.index = (selection.index + 1) % MENU_ITEM_COUNT;
    }
    if selection.index == 2 {
        if keys.left {
            effects.push(MenuEffect::MusicLess);
        }
        if keys.right {
            effects.push(MenuEffect::MusicMore);
        }
    }
    if keys.m {
        effects.push(MenuEffect::ToggleMute);
    }
    assert(effects@ =~= (if selection.index == 2 && keys.left { seq![MenuEffect::MusicLess] } else { Seq::empty() })
        + (if selection.index == 2 && keys.right { seq![MenuEffect::MusicMore] } else { Seq::empty() })
        + (if keys.m { seq![MenuEffect::ToggleMute] } else { Seq::empty() }));
    effects
}

/// Only Enter pressed.
pub open spec fn enter_only() -> MenuKeys {
    MenuKeys { up: false, down: false, left: false, right: false, enter: true, escape: false, m: false }
}

/// Only Escape pressed.
pub open spec fn escape_only() -> MenuKeys {
    MenuKeys { up: false, down: false, left: false, right: false, enter: false, escape: true, m: false }
}

/// The action of the highlighted root item.
pub open spec fn root_item_action(selection: usize) -> MainMenuAction {
    if selection == 0 {
        MainMenuAction::Start
    } else if selection == 1 {
        MainMenuAction::OpenLevelSelect
    } else {
        MainMenuAction::OpenSettings
    }
}

proof fn lemma_single_action(a: MainMenuAction, c: MenuContext, reg: LevelRegistry, profile: ProfileData)
    ensures
        spec_menu_actions(seq![a], c, reg, profile) == spec_menu_action(a, c, reg, profile),
{
    reveal_with_fuel(spec_menu_actions, 2);
    assert(seq![a].drop_last() =~= Seq::<MainMenuAction>::empty());
    let (c2, e2) = spec_menu_action(a, c, reg, profile);
    assert(Seq::<MenuEffect>::empty() + e2 =~= e2);
}

/// Enter does what a click on the highlighted item does: on the root screen
/// the highlighted item's action, on the settings screen mute or back, and
/// on the level-select screen play.
pub proof fn law_menu_enter_matches_click(c: MenuContext, reg: LevelRegistry, profile: ProfileData)
    ensures
        c.menu.screen == MainMenuScreen::Root ==> spec_menu_keys(enter_only(), c, reg, profile)
            == spec_menu_action(root_item_action(c.menu.selection), c, reg, profile),
        c.menu.screen == MainMenuScreen::LevelSelect ==> spec_menu_keys(enter_only(), c, reg, profile)
            == spec_menu_action(MainMenuAction::PlayLevel, c, reg, profile),
        c.menu.screen == MainMenuScreen::Settings && c.menu.selection == 1 ==> spec_menu_keys(enter_only(), c, reg, profile)
            == spec_menu_action(MainMenuAction::ToggleMute, c, reg, profile),
        c.menu.screen == MainMenuScreen::Settings && c.menu.selection == 2 ==> spec_menu_keys(enter_only(), c, reg, profile)
            == spec_menu_action(MainMenuAction::Back, c, reg, profile),
{
    let k = enter_only();
    reveal_with_fuel(spec_menu_actions, 2);
    assert(root_key_actions(k, c.menu.selection) =~= seq![root_item_action(c.menu.selection)]);
    lemma_single_action(root_item_action(c.menu.selection), c, reg, profile);
    assert(level_select_key_actions(k) =~= seq![MainMenuAction::PlayLevel]);
    lemma_single_action(MainMenuAction::PlayLevel, c, reg, profile);
    assert(settings_key_actions(k) =~= Seq::<MainMenuAction>::empty());
    assert(spec_menu_actions(Seq::<MainMenuAction>::empty(), c, reg, profile) == (c, Seq::<MenuEffect>::empty()));
    if c.menu.screen == MainMenuScreen::Settings && c.menu.selection == 1 {
        assert(settings_enter_action(k, c.menu.selection) =~= seq![MainMenuAction::ToggleMute]);
        lemma_single_action(MainMenuAction::ToggleMute, c, reg, profile);
        let e = spec_menu_action(MainMenuAction::ToggleMute, c, reg, profile).1;
        assert(Seq::<MenuEffect>::empty() + e =~= e);
    }
    if c.menu.screen == MainMenuScreen::Settings && c.menu.selection == 2 {
        assert(settings_enter_action(k, c.menu.selection) =~= seq![MainMenuAction::Back]);
        lemma_single_action(MainMenuAction::Back, c, reg, profile);
        let e = spec_menu_action(MainMenuAction::Back, c, reg, profile).1;
        assert(Seq::<MenuEffect>::empty() + e =~= e);
    }
}

/// Escape on the settings or level-select screen goes back to the root
/// screen with its first item highlighted, and asks nothing else.
pub proof fn law_menu_escape_goes_back(c: MenuContext, reg: LevelRegistry, profile: ProfileData)
    requires
        c.menu.screen != MainMenuScreen::Root,
    ensures
        spec_menu_keys(escape_only(), c, reg, profile).0.menu == (MainMenuState { screen: MainMenuScreen::Root, selection: 0 }),
        spec_menu_keys(escape_only(), c, reg, profile).1.len() == 0,
{
    let k = escape_only();
    reveal_with_fuel(spec_menu_actions, 2);
    assert(level_select_key_actions(k) =~= seq![MainMenuAction::Back]);
    assert(settings_key_actions(k) =~= seq![MainMenuAction::Back]);
    lemma_single_action(MainMenuAction::Back, c, reg, profile);
    let c1 = spec_menu_action(MainMenuAction::Back, c, reg, profile).0;
    assert(settings_enter_action(k, c1.menu.selection) =~= Seq::<MainMenuAction>::empty());
}

/// The up/down keys keep the highlight on one of the screen's items.
pub proof fn law_menu_highlight_in_range(m: MainMenuState, keys: MenuKeys)
    requires
        m.screen != MainMenuScreen::LevelSelect,
        m.selection < spec_item_count(m.screen),
    ensures
        0 <= spec_menu_nav(m, keys).selection < spec_item_count(m.screen),
        !keys.up && !keys.down ==> spec_menu_nav(m, keys) == m,
{
}

} // verus!
