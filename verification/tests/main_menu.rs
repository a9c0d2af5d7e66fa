use robbo_app::flow::{AppState, InputCooldown, LoadLevelEvent};
use robbo_app::levels::{LevelPackInfo, LevelRegistry, LevelSelection};
use robbo_app::main_menu::{
    apply_action, init_on_enter, main_menu_keyboard, main_menu_pointer, menu_navigate, MainMenuAction,
    MainMenuItem, MainMenuScreen, MainMenuState, MainMenuUiDirty, MenuEffect, MenuKeys, MenuSelection,
};
use robbo_app::progress::ProfileData;

const NO_KEYS: MenuKeys = MenuKeys { up: false, down: false, left: false, right: false, enter: false, escape: false, m: false };

struct Menu {
    menu: MainMenuState,
    dirty: MainMenuUiDirty,
    selection: LevelSelection,
    cooldown: InputCooldown,
    registry: LevelRegistry,
    profile: ProfileData,
}

impl Menu {
    fn new() -> Self {
        Menu {
            menu: MainMenuState::new(),
            dirty: MainMenuUiDirty(false),
            selection: LevelSelection::new(),
            cooldown: InputCooldown::new(),
            registry: LevelRegistry {
                packs: vec![
                    LevelPackInfo { name: "Original".to_string(), level_numbers: vec![1, 2], source: 0 },
                    LevelPackInfo { name: "Other".to_string(), level_numbers: vec![1, 2, 3], source: 1 },
                ],
            },
            profile: ProfileData { last_pack: "Other".to_string(), last_level: 3, intro_seen: true },
        }
    }

    fn keys(&mut self, keys: MenuKeys) -> Vec<MenuEffect> {
        main_menu_keyboard(
            true,
            &keys,
            &mut self.menu,
            &mut self.dirty,
            &mut self.selection,
            &mut self.cooldown,
            &self.registry,
            &self.profile,
        )
    }
}

#[test]
fn root_highlight_wraps() {
    let mut m = Menu::new();
    m.keys(MenuKeys { down: true, ..NO_KEYS });
    assert_eq!(m.menu.selection, 1);
    m.keys(MenuKeys { down: true, ..NO_KEYS });
    m.keys(MenuKeys { down: true, ..NO_KEYS });
    assert_eq!(m.menu.selection, 0);
    m.keys(MenuKeys { up: true, ..NO_KEYS });
    // wrapping_sub(1) from zero, modulo three, lands on zero again.
    assert_eq!(m.menu.selection, (usize::MAX % 3) as usize);
    m.menu.selection = 2;
    m.keys(MenuKeys { up: true, ..NO_KEYS });
    assert_eq!(m.menu.selection, 1);
}

#[test]
fn root_enter_starts_last_game() {
    let mut m = Menu::new();
    let effects = m.keys(MenuKeys { enter: true, ..NO_KEYS });
    assert_eq!(effects, vec![MenuEffect::Load(LoadLevelEvent { restart: false }), MenuEffect::Goto(AppState::Playing)]);
    assert_eq!(m.selection, LevelSelection { pack_index: 1, level_index: 2 });
    assert_eq!(m.cooldown.frames_remaining, 4);
    // The cooldown swallows the next keys.
    let effects = m.keys(MenuKeys { enter: true, ..NO_KEYS });
    assert!(effects.is_empty());
}

#[test]
fn settings_screen_volume_mute_and_back() {
    let mut m = Menu::new();
    m.menu.selection = 2;
    m.keys(MenuKeys { enter: true, ..NO_KEYS });
    assert_eq!(m.menu, MainMenuState { screen: MainMenuScreen::Settings, selection: 0 });
    assert!(m.dirty.0);
    let effects = m.keys(MenuKeys { left: true, right: true, m: true, ..NO_KEYS });
    assert_eq!(effects, vec![MenuEffect::MusicLess, MenuEffect::MusicMore, MenuEffect::ToggleMute]);
    m.keys(MenuKeys { down: true, ..NO_KEYS });
    let effects = m.keys(MenuKeys { enter: true, ..NO_KEYS });
    assert_eq!(effects, vec![MenuEffect::ToggleMute]);
    m.keys(MenuKeys { down: true, ..NO_KEYS });
    let effects = m.keys(MenuKeys { enter: true, ..NO_KEYS });
    assert!(effects.is_empty());
    assert_eq!(m.menu, MainMenuState { screen: MainMenuScreen::Root, selection: 0 });
    // Escape then Enter in one frame: back first, Enter on item zero does nothing.
    m.menu = MainMenuState { screen: MainMenuScreen::Settings, selection: 1 };
    let effects = m.keys(MenuKeys { escape: true, enter: true, ..NO_KEYS });
    assert!(effects.is_empty());
    assert_eq!(m.menu.screen, MainMenuScreen::Root);
}

#[test]
fn level_select_screen_navigates_and_plays() {
    let mut m = Menu::new();
    m.menu.selection = 1;
    m.keys(MenuKeys { enter: true, ..NO_KEYS });
    assert_eq!(m.menu, MainMenuState { screen: MainMenuScreen::LevelSelect, selection: 0 });
    assert_eq!(m.selection, LevelSelection { pack_index: 1, level_index: 2 });
    m.keys(MenuKeys { right: true, ..NO_KEYS });
    assert_eq!(m.selection.level_index, 0);
    m.keys(MenuKeys { down: true, ..NO_KEYS });
    assert_eq!(m.selection, LevelSelection { pack_index: 0, level_index: 0 });
    assert_eq!(m.menu.selection, 0);
    let effects = m.keys(MenuKeys { enter: true, ..NO_KEYS });
    assert_eq!(effects, vec![MenuEffect::Load(LoadLevelEvent { restart: false }), MenuEffect::Goto(AppState::Playing)]);
}

#[test]
fn pointer_presses_highlight_then_act() {
    let mut m = Menu::new();
    let presses = vec![(MainMenuAction::OpenSettings, Some(MainMenuItem { index: 2 })), (MainMenuAction::MusicMore, None)];
    let effects = main_menu_pointer(
        true,
        &presses,
        &mut m.menu,
        &mut m.dirty,
        &mut m.selection,
        &mut m.cooldown,
        &m.registry,
        &m.profile,
    );
    assert_eq!(effects, vec![MenuEffect::MusicMore]);
    assert_eq!(m.menu, MainMenuState { screen: MainMenuScreen::Settings, selection: 0 });
    let effects = main_menu_pointer(
        false,
        &vec![(MainMenuAction::PlayLevel, None)],
        &mut m.menu,
        &mut m.dirty,
        &mut m.selection,
        &mut m.cooldown,
        &m.registry,
        &m.profile,
    );
    assert!(effects.is_empty());
}

#[test]
fn apply_action_pack_and_level_buttons() {
    let mut m = Menu::new();
    let mut effects = Vec::new();
    apply_action(MainMenuAction::PackPrev, &mut m.menu, &mut m.dirty, &mut m.selection, &mut m.cooldown, &m.registry, &m.profile, &mut effects);
    assert_eq!(m.selection.pack_index, 1);
    apply_action(MainMenuAction::LevelPrev, &mut m.menu, &mut m.dirty, &mut m.selection, &mut m.cooldown, &m.registry, &m.profile, &mut effects);
    assert_eq!(m.selection.level_index, 2);
    apply_action(MainMenuAction::LevelNext, &mut m.menu, &mut m.dirty, &mut m.selection, &mut m.cooldown, &m.registry, &m.profile, &mut effects);
    assert_eq!(m.selection.level_index, 0);
    assert!(effects.is_empty());
    init_on_enter(&mut m.menu, &mut m.dirty);
    assert_eq!(m.menu, MainMenuState::new());
    assert!(!m.dirty.0);
}

#[test]
fn screens_items_and_headers() {
    assert_eq!(MainMenuScreen::Root.item_count(), 3);
    assert_eq!(MainMenuScreen::Settings.item_count(), 3);
    assert_eq!(MainMenuScreen::LevelSelect.item_count(), 4);
    assert_eq!(MainMenuScreen::Root.header(), "DIGITAL ROBBO");
    assert_eq!(MainMenuScreen::Settings.header(), "SETTINGS");
    assert_eq!(MainMenuScreen::LevelSelect.header(), "SELECT LEVEL");
}

#[test]
fn single_screen_menu_navigation() {
    let mut sel = MenuSelection { index: 1 };
    let effects = menu_navigate(true, &MenuKeys { down: true, left: true, ..NO_KEYS }, &mut sel);
    assert_eq!(sel.index, 2);
    assert_eq!(effects, vec![MenuEffect::MusicLess]);
    let effects = menu_navigate(true, &MenuKeys { m: true, right: true, down: true, ..NO_KEYS }, &mut sel);
    assert_eq!(sel.index, 0);
    assert_eq!(effects, vec![MenuEffect::ToggleMute]);
    let effects = menu_navigate(false, &MenuKeys { down: true, ..NO_KEYS }, &mut sel);
    assert!(effects.is_empty());
    assert_eq!(sel.index, 0);
}

#[test]
fn enter_matches_click_on_highlighted_item() {
    let mut by_key = Menu::new();
    by_key.menu.selection = 1;
    let key_effects = by_key.keys(MenuKeys { enter: true, ..NO_KEYS });
    let mut by_click = Menu::new();
    by_click.menu.selection = 1;
    let click_effects = main_menu_pointer(
        true,
        &vec![(MainMenuAction::OpenLevelSelect, Some(MainMenuItem { index: 1 }))],
        &mut by_click.menu,
        &mut by_click.dirty,
        &mut by_click.selection,
        &mut by_click.cooldown,
        &by_click.registry,
        &by_click.profile,
    );
    assert_eq!(key_effects, click_effects);
    assert_eq!(by_key.menu, by_click.menu);
    assert_eq!(by_key.selection, by_click.selection);
    assert_eq!(by_key.menu.screen, MainMenuScreen::LevelSelect);
}

#[test]
fn escape_returns_to_root_from_any_submenu() {
    for screen in [MainMenuScreen::Settings, MainMenuScreen::LevelSelect] {
        let mut m = Menu::new();
        m.menu = MainMenuState { screen, selection: 1 };
        let effects = m.keys(MenuKeys { escape: true, ..NO_KEYS });
        assert!(effects.is_empty());
        assert_eq!(m.menu, MainMenuState { screen: MainMenuScreen::Root, selection: 0 });
        assert!(m.dirty.0);
    }
}
