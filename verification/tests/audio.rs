use std::collections::BTreeSet;
use robbo_app::audio::{
    enemy_ambient_plan, AmbientSource,
    distance_attenuation, enemy_ambient_sfx_key, sfx_attenuation, sfx_for_event, shoot_sfx_key, SfxCue,
    ATTENUATION_STEPS,
};
use robbo_app::elements::{BirdVariant, ElementKind, GunType};
use robbo_app::events::GameEvent;
use robbo_app::grid::{grid_distance, Cell, Direction};

fn attenuation(distance: i16) -> f32 {
    distance_attenuation(distance) as f32 / ATTENUATION_STEPS as f32
}

#[test]
fn attenuation_full_inside_range() {
    assert_eq!(attenuation(0), 1.0);
    assert_eq!(attenuation(4), 1.0);
}

#[test]
fn attenuation_silent_outside_range() {
    assert_eq!(attenuation(12), 0.0);
    assert_eq!(attenuation(20), 0.0);
}

#[test]
fn attenuation_linear_mid_range() {
    assert!((attenuation(8) - 0.5).abs() < f32::EPSILON);
}

#[test]
fn attenuation_steps_per_square() {
    assert_eq!(distance_attenuation(5), 7);
    assert_eq!(distance_attenuation(11), 1);
    assert_eq!(distance_attenuation(-3), 8);
}

#[test]
fn shoot_sfx_keys_per_gun_type() {
    assert_eq!(shoot_sfx_key(GunType::Regular), "shoot_regular");
    assert_eq!(shoot_sfx_key(GunType::Laser), "shoot_laser");
    assert_eq!(shoot_sfx_key(GunType::Blaster), "shoot_blaster");
}

#[test]
fn enemy_ambient_keys() {
    assert_eq!(
        enemy_ambient_sfx_key(&ElementKind::Bear { clockwise: true }),
        Some("enemy_bear")
    );
    assert_eq!(
        enemy_ambient_sfx_key(&ElementKind::Bird {
            variant: BirdVariant::Horizontal,
            shooting: false,
        }),
        Some("enemy_bird")
    );
    assert_eq!(
        enemy_ambient_sfx_key(&ElementKind::Butterfly),
        Some("enemy_butterfly")
    );
}

#[test]
fn enemy_ambient_keys_for_other_kinds() {
    assert_eq!(enemy_ambient_sfx_key(&ElementKind::BlackBear { clockwise: false }), Some("enemy_bear"));
    assert_eq!(enemy_ambient_sfx_key(&ElementKind::Screw), None);
    assert_eq!(enemy_ambient_sfx_key(&ElementKind::Robbo), None);
}

#[test]
fn grid_distance_uses_chebyshev() {
    let a = Cell::new(0, 0);
    let b = Cell::new(3, 5);
    assert_eq!(grid_distance(a, b), 5);
}

#[test]
fn grid_distance_is_symmetric_and_handles_negatives() {
    assert_eq!(grid_distance(Cell::new(-2, 7), Cell::new(4, 5)), 6);
    assert_eq!(grid_distance(Cell::new(4, 5), Cell::new(-2, 7)), 6);
    assert_eq!(grid_distance(Cell::new(1, 1), Cell::new(1, 1)), 0);
}

#[test]
fn sfx_attenuation_needs_both_ends() {
    let far = Cell::new(20, 0);
    let ear = Cell::new(0, 0);
    assert_eq!(sfx_attenuation(Some(far), Some(ear)), 0);
    assert_eq!(sfx_attenuation(Some(Cell::new(6, 2)), Some(ear)), 6);
    assert_eq!(sfx_attenuation(None, Some(ear)), 8);
    assert_eq!(sfx_attenuation(Some(far), None), 8);
}

#[test]
fn sfx_cues_for_events() {
    let robbo = 7;
    let ear = Some(Cell::new(1, 1));
    let at = Cell::new(3, 4);
    assert_eq!(sfx_for_event(&GameEvent::LevelComplete, robbo, ear), SfxCue::Stinger { key: "level_complete" });
    assert_eq!(
        sfx_for_event(&GameEvent::Moved { entity_id: robbo, from: at, to: Cell::new(4, 4) }, robbo, ear),
        SfxCue::Sound { key: "walk", source: Some(Cell::new(4, 4)) }
    );
    assert_eq!(sfx_for_event(&GameEvent::Moved { entity_id: 3, from: at, to: at }, robbo, ear), SfxCue::Silent);
    assert_eq!(
        sfx_for_event(&GameEvent::Shot { from: at, direction: Direction::Left, gun_type: GunType::Laser }, robbo, ear),
        SfxCue::Sound { key: "shoot_laser", source: Some(at) }
    );
    assert_eq!(
        sfx_for_event(&GameEvent::Collected { kind: ElementKind::Key, at }, robbo, ear),
        SfxCue::Sound { key: "collected_key", source: Some(at) }
    );
    assert_eq!(
        sfx_for_event(&GameEvent::Collected { kind: ElementKind::BulletPickup, at }, robbo, ear),
        SfxCue::Sound { key: "collected_ammo", source: Some(at) }
    );
    assert_eq!(sfx_for_event(&GameEvent::Collected { kind: ElementKind::Capsule, at }, robbo, ear), SfxCue::Silent);
    assert_eq!(
        sfx_for_event(&GameEvent::Revealed { at }, robbo, ear),
        SfxCue::Sound { key: "explosion", source: Some(at) }
    );
    assert_eq!(
        sfx_for_event(&GameEvent::DoorOpened { at }, robbo, ear),
        SfxCue::Sound { key: "door", source: Some(at) }
    );
    assert_eq!(
        sfx_for_event(&GameEvent::Teleported { entity_id: 2, from: at, to: Cell::new(9, 9) }, robbo, ear),
        SfxCue::Sound { key: "teleport", source: Some(Cell::new(9, 9)) }
    );
    assert_eq!(
        sfx_for_event(&GameEvent::Died { entity_id: robbo }, robbo, ear),
        SfxCue::Sound { key: "death", source: ear }
    );
    assert_eq!(sfx_for_event(&GameEvent::Died { entity_id: 1 }, robbo, ear), SfxCue::Silent);
    assert_eq!(sfx_for_event(&GameEvent::LevelFailed, robbo, ear), SfxCue::Silent);
}

fn source(id: u32, kind: ElementKind, hidden: bool) -> AmbientSource {
    AmbientSource { id, kind, hidden }
}

fn level_sources() -> Vec<AmbientSource> {
    vec![
        source(1, ElementKind::Bear { clockwise: true }, false),
        source(2, ElementKind::Screw, false),
        source(3, ElementKind::Butterfly, true),
        source(4, ElementKind::Bird { variant: BirdVariant::Horizontal, shooting: false }, false),
        source(5, ElementKind::BlackBear { clockwise: false }, false),
    ]
}

#[test]
fn ambient_plan_starts_loops_for_visible_enemies() {
    let plan = enemy_ambient_plan(true, false, &vec![], &level_sources());
    assert_eq!(plan.spawn, vec![1, 4, 5]);
    assert!(plan.despawn.is_empty());
}

#[test]
fn ambient_plan_keeps_running_loops_and_stops_vanished() {
    let plan = enemy_ambient_plan(true, false, &vec![4, 9, 3], &level_sources());
    assert_eq!(plan.spawn, vec![1, 5]);
    assert_eq!(plan.despawn, vec![9, 3]);
}

#[test]
fn ambient_plan_stops_everything_outside_play() {
    let plan = enemy_ambient_plan(false, false, &vec![1, 4], &level_sources());
    assert!(plan.spawn.is_empty());
    assert_eq!(plan.despawn, vec![1, 4]);
}

#[test]
fn ambient_plan_restarts_loops_after_a_level_load() {
    let plan = enemy_ambient_plan(true, true, &vec![1, 7], &level_sources());
    assert_eq!(plan.despawn, vec![1, 7]);
    assert_eq!(plan.spawn, vec![1, 4, 5]);
    let idle = enemy_ambient_plan(false, true, &vec![1, 7], &level_sources());
    assert_eq!(idle.despawn, vec![1, 7]);
    assert!(idle.spawn.is_empty());
}

#[test]
fn ambient_pool_after_plan_holds_live_enemies() {
    let sources = level_sources();
    let pooled = vec![4, 9, 3];
    let plan = enemy_ambient_plan(true, false, &pooled, &sources);
    // The front-end starts every offered loop but enemy 5 (too far away).
    let added: Vec<u32> = plan.spawn.iter().copied().filter(|id| *id != 5).collect();
    let after: BTreeSet<u32> = pooled
        .iter()
        .copied()
        .filter(|id| !plan.despawn.contains(id))
        .chain(added.iter().copied())
        .collect();
    assert_eq!(after, BTreeSet::from([1, 4]));
    let idle = enemy_ambient_plan(false, false, &vec![1, 4], &sources);
    let after_idle: Vec<u32> = vec![1, 4].into_iter().filter(|id| !idle.despawn.contains(id)).collect();
    assert!(after_idle.is_empty());
}
