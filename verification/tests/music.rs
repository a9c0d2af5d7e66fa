use robbo_app::music::{
    ensure_menu_bgm, level_bgm_after_countdown, level_bgm_on_resume, level_track_index, start_bgm, stop_bgm,
    BgmState,
};

fn s(text: &str) -> String {
    text.to_string()
}

#[test]
fn start_bgm_waits_for_the_asset() {
    let mut bgm: BgmState<u32> = BgmState::new();
    let change = start_bgm(&mut bgm, &s("menu.ogg"), false, true);
    assert_eq!(change.stop, None);
    assert!(!change.spawn);
    assert_eq!(bgm.track_path, None);
    assert_eq!(bgm.entity, None);
}

#[test]
fn start_bgm_replaces_the_running_track() {
    let mut bgm: BgmState<u32> = BgmState::new();
    let first = start_bgm(&mut bgm, &s("menu.ogg"), true, true);
    assert!(first.spawn);
    assert_eq!(first.stop, None);
    bgm.started(10);
    let again = start_bgm(&mut bgm, &s("menu.ogg"), true, true);
    assert!(!again.spawn);
    assert_eq!(again.stop, None);
    assert_eq!(bgm.entity, Some(10));
    let next = start_bgm(&mut bgm, &s("level1.ogg"), true, true);
    assert_eq!(next.stop, Some(10));
    assert!(next.spawn);
    assert_eq!(bgm.track_path, Some(s("level1.ogg")));
    assert_eq!(bgm.entity, None);
}

#[test]
fn start_bgm_muted_remembers_track_without_player() {
    let mut bgm: BgmState<u32> = BgmState::new();
    bgm.started(3);
    bgm.track_path = Some(s("menu.ogg"));
    let change = start_bgm(&mut bgm, &s("level2.ogg"), true, false);
    assert_eq!(change.stop, Some(3));
    assert!(!change.spawn);
    assert_eq!(bgm.track_path, Some(s("level2.ogg")));
    assert_eq!(bgm.entity, None);
}

#[test]
fn stop_bgm_forgets_track() {
    let mut bgm: BgmState<u32> = BgmState::new();
    bgm.track_path = Some(s("menu.ogg"));
    bgm.started(5);
    assert_eq!(stop_bgm(&mut bgm), Some(5));
    assert_eq!(bgm.track_path, None);
    assert_eq!(bgm.entity, None);
}

#[test]
fn ensure_menu_bgm_only_on_unlocked_main_menu() {
    let mut bgm: BgmState<u32> = BgmState::new();
    let off = ensure_menu_bgm(&mut bgm, false, true, &s("menu.ogg"), true, true);
    assert!(!off.spawn);
    let locked = ensure_menu_bgm(&mut bgm, true, false, &s("menu.ogg"), true, true);
    assert!(!locked.spawn);
    assert_eq!(bgm.track_path, None);
    let on = ensure_menu_bgm(&mut bgm, true, true, &s("menu.ogg"), true, true);
    assert!(on.spawn);
    assert_eq!(bgm.track_path, Some(s("menu.ogg")));
}

#[test]
fn ensure_menu_bgm_stops_player_of_unloaded_asset() {
    let mut bgm: BgmState<u32> = BgmState::new();
    bgm.track_path = Some(s("menu.ogg"));
    bgm.started(8);
    let kept = ensure_menu_bgm(&mut bgm, true, true, &s("menu.ogg"), true, true);
    assert_eq!(kept.stop, None);
    assert!(!kept.spawn);
    let stopped = ensure_menu_bgm(&mut bgm, true, true, &s("menu.ogg"), false, true);
    assert_eq!(stopped.stop, Some(8));
    assert!(!stopped.spawn);
    assert_eq!(bgm.track_path, Some(s("menu.ogg")));
    assert_eq!(bgm.entity, None);
}

#[test]
fn level_track_index_finds_first_match() {
    let list = vec![s("a.ogg"), s("b.ogg"), s("a.ogg")];
    assert_eq!(level_track_index(&list, &s("a.ogg")), Some(0));
    assert_eq!(level_track_index(&list, &s("b.ogg")), Some(1));
    assert_eq!(level_track_index(&list, &s("c.ogg")), None);
}

#[test]
fn level_bgm_starts_after_countdown_only() {
    let list = vec![s("a.ogg"), s("b.ogg")];
    let pending = Some(s("b.ogg"));
    assert_eq!(level_bgm_after_countdown(true, false, true, &pending, &list), Some(1));
    assert_eq!(level_bgm_after_countdown(true, true, true, &pending, &list), None);
    assert_eq!(level_bgm_after_countdown(false, false, true, &pending, &list), None);
    assert_eq!(level_bgm_after_countdown(true, false, false, &pending, &list), None);
    assert_eq!(level_bgm_after_countdown(true, false, true, &None, &list), None);
    assert_eq!(level_bgm_after_countdown(true, false, true, &Some(s("x.ogg")), &list), None);
}

#[test]
fn level_bgm_resumes_only_without_player() {
    let list = vec![s("a.ogg"), s("b.ogg")];
    let pending = Some(s("a.ogg"));
    let mut bgm: BgmState<u32> = BgmState::new();
    assert_eq!(level_bgm_on_resume(&bgm, true, false, &pending, &list), Some(0));
    assert_eq!(level_bgm_on_resume(&bgm, true, true, &pending, &list), None);
    assert_eq!(level_bgm_on_resume(&bgm, false, false, &pending, &list), None);
    bgm.started(1);
    assert_eq!(level_bgm_on_resume(&bgm, true, false, &pending, &list), None);
}
