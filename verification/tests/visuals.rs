use robbo_app::editor::{EditorBrush, EditorState};
use robbo_app::elements::ElementKind;
use robbo_app::grid::{Cell, Direction};
use robbo_app::visuals::{follows_facing, reconcile, MagnetBeams, StepPlan};

#[test]
fn step_plans() {
    let a = Cell::new(1, 1);
    let b = Cell::new(2, 1);
    let c = Cell::new(3, 1);
    assert_eq!(StepPlan::settled(a, 9), StepPlan { from: a, to: a, start_tick: 9, step_ticks: 1 });
    let mut p = StepPlan::begin_step(a, b, 10, 0);
    assert_eq!(p.step_ticks, 1);
    // Still gliding: continue from where it was heading.
    p.retarget(true, b, c, 11, 4);
    assert_eq!(p, StepPlan { from: b, to: c, start_tick: 11, step_ticks: 4 });
    // Finished: start from the given cell.
    p.retarget(false, a, b, 12, 1);
    assert_eq!(p.from, a);
    assert!(!p.anchor(false, c, 13));
    assert!(p.anchor(true, c, 13));
    assert_eq!(p, StepPlan { from: c, to: c, start_tick: 13, step_ticks: 1 });
}

#[test]
fn reconcile_spawns_and_despawns() {
    let r = reconcile(&vec![1, 2, 3], &vec![3, 4, 1, 5]);
    assert_eq!(r.despawn, vec![2]);
    assert_eq!(r.spawn, vec![4, 5]);
    let r = reconcile(&vec![], &vec![7]);
    assert_eq!((r.despawn, r.spawn), (vec![], vec![7]));
}

#[test]
fn magnet_beams_rebuild_once_per_tick() {
    let mut beams = MagnetBeams::new();
    assert!(beams.needs_rebuild(1));
    assert!(!beams.needs_rebuild(1));
    assert!(beams.needs_rebuild(2));
    beams.reset();
    assert!(beams.needs_rebuild(2));
    assert!(!beams.needs_rebuild(2));
}

#[test]
fn sprites_that_follow_facing() {
    assert!(follows_facing(&ElementKind::Gun { direction: Direction::Up, movable: false }));
    assert!(follows_facing(&ElementKind::Screw));
    assert!(!follows_facing(&ElementKind::Bear { clockwise: false }));
    assert!(!follows_facing(&ElementKind::Magnet { direction: Direction::Left }));
    assert!(!follows_facing(&ElementKind::Capsule));
    assert!(!follows_facing(&ElementKind::Butterfly));
    assert!(!follows_facing(&ElementKind::Laser { direction: Direction::Left, solid: true }));
    assert!(follows_facing(&ElementKind::Projectile));
}

#[test]
fn editor_toggles_with_f9() {
    let mut e = EditorState::new();
    assert_eq!(e.brush, EditorBrush::Empty);
    e.toggle(false);
    assert!(!e.active);
    e.toggle(true);
    assert!(e.active);
    assert!(e.shown(true));
    assert!(!e.shown(false));
    e.toggle(true);
    assert!(!e.active);
}
