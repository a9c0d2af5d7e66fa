use robbo_app::elements::{
    is_bear_kind, is_collect_pop_kind, magnet_direction, player_frame, projectile_visual_for,
    screw_particle_seed, sprite_for_collectible, sprite_for_element, sprite_for_tile, visual_step_ticks,
    BirdVariant, ElementKind, ProjectileVisual, SpriteKey, TileKind,
};
use robbo_app::events::{fx_for_event, next_walk_frame, robbo_moved, step_index, teleport_index, FxCue, GameEvent};
use robbo_app::elements::GunType;
use robbo_app::grid::{dir_to_idx, shot_trail_cells, step_axis, tile_index, Cell, Direction, StepAxis};

#[test]
fn sprites_for_elements_and_tiles() {
    assert_eq!(sprite_for_element(&ElementKind::Robbo, Direction::Left), SpriteKey::Player { dir_idx: 2, frame: 0 });
    assert_eq!(sprite_for_element(&ElementKind::Gun { direction: Direction::Up, movable: true }, Direction::Down), SpriteKey::Gun { dir_idx: 3 });
    assert_eq!(sprite_for_element(&ElementKind::BigBoom, Direction::Up), SpriteKey::Bomb);
    assert_eq!(sprite_for_element(&ElementKind::BarbedWire, Direction::Up), SpriteKey::TileWallBlack);
    assert_eq!(sprite_for_element(&ElementKind::BlasterCell { direction: Direction::Up, frame: 2 }, Direction::Up), SpriteKey::Bullet);
    assert_eq!(sprite_for_tile(TileKind::DoorOpen), Some(SpriteKey::TileDoorClosed));
    assert_eq!(sprite_for_tile(TileKind::Stop), Some(SpriteKey::TileWallRed));
    assert_eq!(sprite_for_tile(TileKind::Empty), Some(SpriteKey::TileEmpty));
    assert_eq!(sprite_for_collectible(&ElementKind::Key), Some(SpriteKey::Key));
    assert_eq!(sprite_for_collectible(&ElementKind::Bomb), None);
    assert_eq!(player_frame(Direction::Right, 13), SpriteKey::Player { dir_idx: 0, frame: 1 });
}

#[test]
fn kind_predicates() {
    assert!(is_collect_pop_kind(&ElementKind::BulletPickup));
    assert!(!is_collect_pop_kind(&ElementKind::Capsule));
    assert!(is_bear_kind(&ElementKind::BlackBear { clockwise: true }));
    assert!(!is_bear_kind(&ElementKind::Bird { variant: BirdVariant::Vertical, shooting: true }));
    assert_eq!(magnet_direction(&ElementKind::Magnet { direction: Direction::Down }), Some(Direction::Down));
    assert_eq!(magnet_direction(&ElementKind::Key), None);
    assert_eq!(projectile_visual_for(&ElementKind::Laser { direction: Direction::Up, solid: false }), Some(ProjectileVisual::Bolt));
    assert_eq!(projectile_visual_for(&ElementKind::Laser { direction: Direction::Up, solid: true }), Some(ProjectileVisual::SolidBeam));
    assert_eq!(projectile_visual_for(&ElementKind::BlasterCell { direction: Direction::Up, frame: 0 }), Some(ProjectileVisual::Blaster));
    assert_eq!(projectile_visual_for(&ElementKind::Projectile), None);
}

#[test]
fn visual_step_ticks_by_kind() {
    assert_eq!(visual_step_ticks(&ElementKind::Bear { clockwise: true }, false, 6, 2), 6);
    assert_eq!(visual_step_ticks(&ElementKind::Butterfly, false, 3, 2), 3);
    assert_eq!(visual_step_ticks(&ElementKind::PushBox, true, 6, 2), 2);
    assert_eq!(visual_step_ticks(&ElementKind::PushBox, false, 6, 2), 1);
    assert_eq!(visual_step_ticks(&ElementKind::Gun { direction: Direction::Up, movable: true }, false, 6, 2), 8);
    assert_eq!(visual_step_ticks(&ElementKind::Gun { direction: Direction::Up, movable: false }, false, 6, 2), 1);
    assert_eq!(visual_step_ticks(&ElementKind::Laser { direction: Direction::Up, solid: false }, false, 6, 2), 1);
}

#[test]
fn screw_seed_wraps() {
    assert_eq!(screw_particle_seed(2, 5), 67);
    assert_eq!(screw_particle_seed(-1, 0), (u32::MAX).wrapping_mul(31));
}

#[test]
fn grid_helpers() {
    assert_eq!(dir_to_idx(Direction::Right), 0);
    assert_eq!(dir_to_idx(Direction::Up), 3);
    assert_eq!(step_axis(Cell::new(1, 1), Cell::new(2, 1)), StepAxis::Horizontal);
    assert_eq!(step_axis(Cell::new(1, 1), Cell::new(1, 0)), StepAxis::Vertical);
    assert_eq!(step_axis(Cell::new(1, 1), Cell::new(1, 1)), StepAxis::Still);
    assert_eq!(tile_index(3, 2, 16), 35);
    let trail = shot_trail_cells(Cell::new(4, 4), Direction::Left);
    assert_eq!(trail, vec![Cell::new(3, 4), Cell::new(2, 4), Cell::new(1, 4), Cell::new(0, 4), Cell::new(-1, 4)]);
    assert!(Direction::Left.is_horizontal());
    assert!(!Direction::Down.is_horizontal());
}

#[test]
fn events_drive_effects_and_walk_cycle() {
    let a = Cell::new(1, 1);
    let b = Cell::new(2, 1);
    let c = Cell::new(3, 1);
    let events = vec![
        GameEvent::Moved { entity_id: 4, from: a, to: b },
        GameEvent::Pushed { entity_id: 5, from: b, to: c },
        GameEvent::Moved { entity_id: 4, from: b, to: c },
        GameEvent::Teleported { entity_id: 1, from: a, to: c },
        GameEvent::LevelComplete,
    ];
    assert!(robbo_moved(&events, 4));
    assert!(!robbo_moved(&events, 1));
    let moves = step_index(&events);
    assert_eq!(moves.len(), 2);
    assert_eq!(moves.get(&4), Some(&(b, c)));
    assert_eq!(moves.get(&5), Some(&(b, c)));
    let teleports = teleport_index(&events);
    assert_eq!(teleports.get(&1), Some(&(a, c)));
    assert_eq!(next_walk_frame(5, true), 0);
    assert_eq!(next_walk_frame(2, true), 3);
    assert_eq!(next_walk_frame(2, false), 2);
    assert_eq!(fx_for_event(&events[3]), FxCue::TeleportBursts { from: a, to: c });
    assert_eq!(fx_for_event(&GameEvent::Exploded { at: a }), FxCue::ExplosionBurst { at: a });
    assert_eq!(
        fx_for_event(&GameEvent::Shot { from: a, direction: Direction::Up, gun_type: GunType::Regular }),
        FxCue::ShotTrail { from: a, direction: Direction::Up }
    );
    assert_eq!(fx_for_event(&GameEvent::Collected { kind: ElementKind::Screw, at: b }), FxCue::CollectPop { at: b, kind: ElementKind::Screw });
    assert_eq!(fx_for_event(&GameEvent::Collected { kind: ElementKind::Capsule, at: b }), FxCue::Nothing);
    assert_eq!(fx_for_event(&GameEvent::LevelFailed), FxCue::Nothing);
}
