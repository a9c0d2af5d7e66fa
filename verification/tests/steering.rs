//! Steering scenarios on a minimal stand-in for the simulation: Robbo walks
//! one cell per `Move` tick input.

use robbo_app::grid::{Cell, Direction};
use robbo_app::steering::{
    apply_move_pad_hold, apply_move_pad_press, apply_move_pad_release, apply_quarter_change,
    apply_shoot_pad_press, player_move_on_tick, tap_direction, tick_input, update_steering,
    DirectionKeys, PadQuarter, RobboHeading, SteeringState, TickInput,
};

const NONE: DirectionKeys = DirectionKeys { up: false, down: false, left: false, right: false };

fn key(dir: Direction) -> DirectionKeys {
    match dir {
        Direction::Up => DirectionKeys { up: true, ..NONE },
        Direction::Down => DirectionKeys { down: true, ..NONE },
        Direction::Left => DirectionKeys { left: true, ..NONE },
        Direction::Right => DirectionKeys { right: true, ..NONE },
    }
}

struct Harness {
    heading: RobboHeading,
    steering: SteeringState,
    robbo: Cell,
    held: DirectionKeys,
    previous: DirectionKeys,
    shoot_pressed: bool,
    sim_tick: u64,
    shots: u32,
}

impl Harness {
    fn new() -> Self {
        Harness {
            heading: RobboHeading::new(),
            steering: SteeringState::new(),
            robbo: Cell::new(5, 5),
            held: NONE,
            previous: NONE,
            shoot_pressed: false,
            sim_tick: 0,
            shots: 0,
        }
    }

    fn press_key(&mut self, dir: Direction) {
        self.held = key(dir);
    }

    fn press_space(&mut self) {
        self.shoot_pressed = true;
    }

    fn release_all_keys(&mut self) {
        self.held = NONE;
        self.previous = NONE;
    }

    /// One frame: keys pressed since the last frame steer.
    fn tick(&mut self, frames: usize) {
        for _ in 0..frames {
            let just = DirectionKeys {
                up: self.held.up && !self.previous.up,
                down: self.held.down && !self.previous.down,
                left: self.held.left && !self.previous.left,
                right: self.held.right && !self.previous.right,
            };
            update_steering(&mut self.heading, &mut self.steering, just);
            if self.shoot_pressed {
                self.steering.shoot_pending = true;
                self.shoot_pressed = false;
            }
            self.previous = self.held;
        }
    }

    /// Sim ticks with the keys held now.
    fn wait_sim_ticks(&mut self, n: u64) {
        for _ in 0..n {
            match tick_input(&mut self.heading, &mut self.steering, self.held) {
                TickInput::Move(dir) => {
                    let (dc, dr) = dir.delta();
                    self.robbo = self.robbo.offset(dc, dr);
                }
                TickInput::Shoot(_) => self.shots += 1,
                TickInput::Wait => {}
            }
            self.sim_tick += 1;
        }
    }

    fn facing(&self) -> Direction {
        self.heading.facing_direction
    }
}

#[test]
fn steering_behaviors() {
    let mut harness = Harness::new();

    // Tap different direction → turn only, no move.
    let start = harness.robbo;
    assert_eq!(harness.facing(), Direction::Down);
    harness.press_key(Direction::Up);
    harness.tick(1);
    harness.release_all_keys();
    assert_eq!(harness.robbo, start);
    assert_eq!(harness.facing(), Direction::Up);

    // Turn cancels a locked tap (no step on the locked direction).
    harness.press_key(Direction::Up);
    harness.tick(1);
    harness.release_all_keys();
    harness.press_key(Direction::Right);
    harness.tick(1);
    harness.release_all_keys();
    harness.wait_sim_ticks(1);
    assert_eq!(harness.robbo, start, "turn should cancel locked tap without stepping");
    assert_eq!(harness.facing(), Direction::Right);

    // Short tap locks the next step — even if released before the tick fires.
    let tap_start = harness.robbo;
    harness.press_key(Direction::Right);
    harness.tick(1);
    harness.release_all_keys();
    harness.wait_sim_ticks(1);
    let after_tap = harness.robbo;
    assert_eq!(
        after_tap.col,
        tap_start.col + 1,
        "locked tap should move exactly one cell on the next tick"
    );
    assert!(harness.steering.tap_move.is_none(), "locked tap must be consumed after the step");

    // Turn on tick boundary must not also step.
    let turn_start = harness.robbo;
    harness.press_key(Direction::Down);
    harness.tick(4);
    harness.wait_sim_ticks(1);
    harness.tick(4);
    harness.release_all_keys();
    harness.tick(1);
    assert_eq!(harness.robbo, turn_start);
    assert_eq!(harness.facing(), Direction::Down);

    // Hold → move every sim tick.
    let hold_start = harness.robbo;
    let start_tick = harness.sim_tick;
    harness.press_key(Direction::Down);
    harness.tick(1);
    harness.wait_sim_ticks(3);
    harness.release_all_keys();
    let end = harness.robbo;
    assert!(end.row > hold_start.row, "expected vertical movement while holding");
    assert_eq!(end.row, hold_start.row + 3);
    assert!(harness.sim_tick >= start_tick + 3);

    // Release → stop on next tick (no further movement).
    harness.press_key(Direction::Down);
    harness.tick(1);
    harness.wait_sim_ticks(1);
    let after_one = harness.robbo;
    harness.release_all_keys();
    harness.wait_sim_ticks(2);
    assert_eq!(harness.robbo, after_one);

    // Space → shoot latched then consumed on next sim tick.
    let tick_before = harness.sim_tick;
    harness.press_space();
    harness.tick(1);
    assert!(harness.steering.shoot_pending);
    harness.wait_sim_ticks(1);
    assert!(!harness.steering.shoot_pending, "shoot latch should be consumed after a sim tick");
    assert!(harness.sim_tick > tick_before);
    assert_eq!(harness.shots, 1);
    harness.release_all_keys();
}

#[test]
fn shot_fires_towards_last_direction() {
    let mut heading = RobboHeading::new();
    let mut steering = SteeringState::new();
    tap_direction(&mut heading, &mut steering, Direction::Left);
    steering.shoot_pending = true;
    assert_eq!(tick_input(&mut heading, &mut steering, NONE), TickInput::Shoot(Direction::Left));
    // The turn's skip is still pending after the shot.
    assert_eq!(tick_input(&mut heading, &mut steering, key(Direction::Left)), TickInput::Wait);
    assert_eq!(tick_input(&mut heading, &mut steering, key(Direction::Left)), TickInput::Move(Direction::Left));
}

#[test]
fn update_steering_reports_turns_in_key_order() {
    let mut heading = RobboHeading::new();
    let mut steering = SteeringState::new();
    let turns = update_steering(
        &mut heading,
        &mut steering,
        DirectionKeys { up: true, down: true, left: false, right: true },
    );
    // Up turns, Down turns back, Right turns.
    assert_eq!(turns, vec![Direction::Up, Direction::Down, Direction::Right]);
    assert_eq!(heading.facing_direction, Direction::Right);
    assert_eq!(heading.last_direction, Direction::Right);
    assert!(steering.skip_move_on_tick);
    let none = update_steering(&mut heading, &mut steering, DirectionKeys { right: true, ..NONE });
    assert!(none.is_empty());
    assert_eq!(steering.tap_move, Some(Direction::Right));
}

#[test]
fn move_on_tick_respects_skip_hold_and_tap() {
    let mut s = SteeringState::new();
    s.skip_move_on_tick = true;
    assert_eq!(player_move_on_tick(true, &mut s, Direction::Up), None);
    assert!(!s.skip_move_on_tick);
    s.hold = Some(Direction::Up);
    assert_eq!(player_move_on_tick(false, &mut s, Direction::Up), Some(Direction::Up));
    s.hold = Some(Direction::Left);
    assert_eq!(player_move_on_tick(false, &mut s, Direction::Up), None);
}

#[test]
fn touch_pads_turn_step_hold_and_shoot() {
    let mut heading = RobboHeading::new();
    let mut steering = SteeringState::new();
    assert!(apply_move_pad_press(&mut heading, &mut steering, Direction::Left));
    assert_eq!(steering.hold, Some(Direction::Left));
    assert_eq!(heading.facing_direction, Direction::Left);
    assert!(!apply_move_pad_press(&mut heading, &mut steering, Direction::Left));
    assert_eq!(steering.tap_move, Some(Direction::Left));
    apply_move_pad_hold(&mut steering, Direction::Up);
    assert_eq!(steering.hold, Some(Direction::Up));
    apply_move_pad_release(&mut steering, Direction::Left);
    assert_eq!(steering.hold, Some(Direction::Up));
    apply_move_pad_release(&mut steering, Direction::Up);
    assert_eq!(steering.hold, None);
    apply_shoot_pad_press(&mut heading, &mut steering, Direction::Down);
    assert!(steering.shoot_pending);
    assert_eq!(heading.last_direction, Direction::Down);
}

#[test]
fn pad_quarter_changes() {
    let mut heading = RobboHeading::new();
    let mut steering = SteeringState::new();
    let mut active = None;
    // Move pad: first touch on the right quarter turns Robbo.
    let turned = apply_quarter_change(true, &mut active, Some(PadQuarter::Right), &mut heading, &mut steering);
    assert_eq!(turned, Some(Direction::Right));
    assert_eq!(active, Some(PadQuarter::Right));
    assert_eq!(steering.hold, Some(Direction::Right));
    // Same quarter again: nothing happens.
    assert_eq!(apply_quarter_change(true, &mut active, Some(PadQuarter::Right), &mut heading, &mut steering), None);
    // Finger lifted: the hold is released.
    assert_eq!(apply_quarter_change(true, &mut active, None, &mut heading, &mut steering), None);
    assert_eq!(steering.hold, None);
    assert_eq!(active, None);
    // Fire pad: faces and shoots.
    let mut fire = None;
    let turned = apply_quarter_change(false, &mut fire, Some(PadQuarter::Up), &mut heading, &mut steering);
    assert_eq!(turned, Some(Direction::Up));
    assert!(steering.shoot_pending);
}
