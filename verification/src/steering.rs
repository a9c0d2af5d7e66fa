//! Latched player steering. Movement is decided on sim-tick boundaries only:
//! pressing the facing direction locks one step, pressing another direction
//! turns Robbo without stepping, holding the facing direction steps every
//! tick, and a shot waits for the next tick.

use vstd::prelude::*;
use crate::grid::Direction;

verus! {

/// Latched steering between sim ticks.
#[derive(Clone, Copy, Debug, PartialEq, Eq, Structural)]
pub struct SteeringState {
    /// Touch D-pad: direction held while the finger is down (sampled on sim tick only).
    pub hold: Option<Direction>,
    /// Locked one-step move from a same-direction tap; survives key/finger
    /// release until the next sim tick (a turn cancels it).
    pub tap_move: Option<Direction>,
    /// Suppresses movement on the sim tick immediately after a turn.
    pub skip_move_on_tick: bool,
    /// Shoot on next tick.
    pub shoot_pending: bool,
}

/// Robbo's directions and walk cycle as the front-end tracks them.
#[derive(Clone, Copy, Debug, PartialEq, Eq, Structural)]
pub struct RobboHeading {
    /// Direction Robbo last actually moved or turned to (used for shooting).
    pub last_direction: Direction,
    /// Visual facing — updated immediately on turn or move.
    pub facing_direction: Direction,
    /// Which frame of the six-frame walk cycle is shown.
    pub walk_frame: usize,
}

/// Direction keys (arrows or WASD) as four flags.
#[derive(Clone, Copy, Debug, PartialEq, Eq, Structural)]
pub struct DirectionKeys {
    pub up: bool,
    pub down: bool,
    pub left: bool,
    pub right: bool,
}

/// The player input handed to the simulation for one tick.
#[derive(Clone, Copy, Debug, PartialEq, Eq, Structural)]
pub enum TickInput {
    Shoot(Direction),
    Move(Direction),
    Wait,
}

/// Quarter of a touch D-pad.
#[derive(Clone, Copy, Debug, PartialEq, Eq, Structural)]
pub enum PadQuarter {
    Up,
    Down,
    Left,
    Right,
}

pub open spec fn key_for(keys: DirectionKeys, dir: Direction) -> bool {
    match dir {
        Direction::Up => keys.up,
        Direction::Down => keys.down,
        Direction::Left => keys.left,
        Direction::Right => keys.right,
    }
}

pub open spec fn spec_quarter_direction(q: PadQuarter) -> Direction {
    match q {
        PadQuarter::Up => Direction::Up,
        PadQuarter::Down => Direction::Down,
        PadQuarter::Left => Direction::Left,
        PadQuarter::Right => Direction::Right,
    }
}

/// State after turning Robbo to `dir`: both directions follow, the next tick
/// does not step, and a locked tap is cancelled.
pub open spec fn spec_turn(h: RobboHeading, s: SteeringState, dir: Direction) -> (RobboHeading, SteeringState) {
    (
        RobboHeading { last_direction: dir, facing_direction: dir, walk_frame: h.walk_frame },
        SteeringState { hold: s.hold, tap_move: None, skip_move_on_tick: true, shoot_pending: s.shoot_pending },
    )
}

/// A tap on `dir`: same as the facing locks a step, otherwise turns.
pub open spec fn spec_tap(h: RobboHeading, s: SteeringState, dir: Direction) -> (RobboHeading, SteeringState) {
    if dir == h.facing_direction {
        (h, SteeringState { tap_move: Some(dir), ..s })
    } else {
        spec_turn(h, s, dir)
    }
}

/// Taps of the direction keys pressed this frame, in the order up, down, left, right.
pub open spec fn spec_taps(h: RobboHeading, s: SteeringState, keys: DirectionKeys) -> (RobboHeading, SteeringState) {
    let a = if keys.up { spec_tap(h, s, Direction::Up) } else { (h, s) };
    let b = if keys.down { spec_tap(a.0, a.1, Direction::Down) } else { a };
    let c = if keys.left { spec_tap(b.0, b.1, Direction::Left) } else { b };
    if keys.right { spec_tap(c.0, c.1, Direction::Right) } else { c }
}

/// Turns that one tap of `dir` makes: `dir` itself unless Robbo already faces it.
pub open spec fn spec_tap_turns(h: RobboHeading, dir: Direction) -> Seq<Direction> {
    if dir == h.facing_direction { Seq::empty() } else { seq![dir] }
}

/// Turns made by the taps of `keys`, in the order up, down, left, right.
pub open spec fn spec_taps_turns(h: RobboHeading, s: SteeringState, keys: DirectionKeys) -> Seq<Direction> {
    let a = if keys.up { spec_tap(h, s, Direction::Up) } else { (h, s) };
    let b = if keys.down { spec_tap(a.0, a.1, Direction::Down) } else { a };
    let c = if keys.left { spec_tap(b.0, b.1, Direction::Left) } else { b };
    (if keys.up { spec_tap_turns(h, Direction::Up) } else { Seq::empty() })
        + (if keys.down { spec_tap_turns(a.0, Direction::Down) } else { Seq::empty() })
        + (if keys.left { spec_tap_turns(b.0, Direction::Left) } else { Seq::empty() })
        + (if keys.right { spec_tap_turns(c.0, Direction::Right) } else { Seq::empty() })
}

/// Step decision on a tick: a step in the facing direction when it is held by
/// key, held on the pad, or locked by a tap, unless a turn just happened.
pub open spec fn spec_move_on_tick(s: SteeringState, facing: Direction, held: bool) -> (SteeringState, Option<Direction>) {
    if s.skip_move_on_tick {
        (SteeringState { skip_move_on_tick: false, ..s }, None)
    } else if held || s.hold == Some(facing) || s.tap_move == Some(facing) {
        (SteeringState { tap_move: None, ..s }, Some(facing))
    } else {
        (s, None)
    }
}

/// Input of one sim tick: a pending shot first (towards the last direction),
/// then a step, else waiting. A step updates both directions.
pub open spec fn spec_tick(h: RobboHeading, s: SteeringState, held: DirectionKeys) -> (RobboHeading, SteeringState, TickInput) {
    if s.shoot_pending {
        (h, SteeringState { shoot_pending: false, ..s }, TickInput::Shoot(h.last_direction))
    } else {
        let (s2, step) = spec_move_on_tick(s, h.facing_direction, key_for(held, h.facing_direction));
        match step {
            Some(dir) => (RobboHeading { last_direction: dir, facing_direction: dir, walk_frame: h.walk_frame }, s2, TickInput::Move(dir)),
            None => (h, s2, TickInput::Wait),
        }
    }
}

impl SteeringState {
    /// No latched input.
    pub fn new() -> (s: Self)
        ensures
            s == (SteeringState { hold: None, tap_move: None, skip_move_on_tick: false, shoot_pending: false }),
    {
        SteeringState { hold: None, tap_move: None, skip_move_on_tick: false, shoot_pending: false }
    }
}

impl Default for SteeringState {
    fn default() -> (s: Self)
        ensures
            s == (SteeringState { hold: None, tap_move: None, skip_move_on_tick: false, shoot_pending: false }),
    {
        SteeringState::new()
    }
}

impl RobboHeading {
    /// Heading at level start: facing down, first walk frame.
    pub fn new() -> (h: Self)
        ensures
            h == (RobboHeading { last_direction: Direction::Down, facing_direction: Direction::Down, walk_frame: 0 }),
    {
        RobboHeading { last_direction: Direction::Down, facing_direction: Direction::Down, walk_frame: 0 }
    }
}

impl Default for RobboHeading {
    fn default() -> (h: Self)
        ensures
            h == (RobboHeading { last_direction: Direction::Down, facing_direction: Direction::Down, walk_frame: 0 }),
    {
        RobboHeading::new()
    }
}

impl DirectionKeys {
    /// Whether the key of `dir` is down.
    pub fn get(&self, dir: Direction) -> (b: bool)
        ensures
            b == key_for(*self, dir),
    {
        match dir {
            Direction::Up => self.up,
            Direction::Down => self.down,
            Direction::Left => self.left,
            Direction::Right => self.right,
        }
    }
}

/// Direction of a D-pad quarter.
pub fn quarter_to_direction(q: PadQuarter) -> (d: Direction)
    ensures
        d == spec_quarter_direction(q),
{
    match q {
        PadQuarter::Up => Direction::Up,
        PadQuarter::Down => Direction::Down,
        PadQuarter::Left => Direction::Left,
        PadQuarter::Right => Direction::Right,
    }
}

/// Turns Robbo to `dir`. The caller turns Robbo in the simulation too.
pub fn turn_robbo(heading: &mut RobboHeading, steering: &mut SteeringState, dir: Direction)
    ensures
        (*final(heading), *final(steering)) == spec_turn(*old(heading), *old(steering), dir),
{
    heading.facing_direction = dir;
    heading.last_direction = dir;
    steering.skip_move_on_tick = true;
    steering.tap_move = None;
}

/// A tap of `dir` (key or pad): locks a step when it is the facing direction,
/// turns otherwise. Returns whether Robbo turned (the caller turns him in the
/// simulation as well).
pub fn tap_direction(heading: &mut RobboHeading, steering: &mut SteeringState, dir: Direction) -> (turned: bool)
    ensures
        (*final(heading), *final(steering)) == spec_tap(*old(heading), *old(steering), dir),
        turned == (dir != old(heading).facing_direction),
{
    if dir == heading.facing_direction {
        steering.tap_move = Some(dir);
        false
    } else {
        turn_robbo(heading, steering, dir);
        true
    }
}

/// Applies the direction keys pressed this frame, in the order up, down,
/// left, right. Returns the turns, in order, for the simulation to replay.
pub fn update_steering(heading: &mut RobboHeading, steering: &mut SteeringState, pressed: DirectionKeys) -> (turns: Vec<Direction>)
    ensures
        (*final(heading), *final(steering)) == spec_taps(*old(heading), *old(steering), pressed),
        turns@ == spec_taps_turns(*old(heading), *old(steering), pressed),
{
    let mut turns: Vec<Direction> = Vec::new();
    if pressed.up {
        if tap_direction(heading, steering, Direction::Up) {
            turns.push(Direction::Up);
        }
    }
    if pressed.down {
        if tap_direction(heading, steering, Direction::Down) {
            turns.push(Direction::Down);
        }
    }
    if pressed.left {
        if tap_direction(heading, steering, Direction::Left) {
            turns.push(Direction::Left);
        }
    }
    if pressed.right {
        if tap_direction(heading, steering, Direction::Right) {
            turns.push(Direction::Right);
        }
    }
    turns
}

/// Decides whether Robbo steps this sim tick; `held` tells whether the key of
/// the facing direction is down.
pub fn player_move_on_tick(held: bool, steering: &mut SteeringState, facing: Direction) -> (step: Option<Direction>)
    ensures
        (*final(steering), step) == spec_move_on_tick(*old(steering), facing, held),
{
    if steering.skip_move_on_tick {
        steering.skip_move_on_tick = false;
        return None;
    }
    let wants = held || steering.hold == Some(facing) || steering.tap_move == Some(facing);
    if wants {
        steering.tap_move = None;
        Some(facing)
    } else {
        None
    }
}

/// The input of one sim tick, given the direction keys held now.
pub fn tick_input(heading: &mut RobboHeading, steering: &mut SteeringState, held: DirectionKeys) -> (input: TickInput)
    ensures
        (*final(heading), *final(steering), input) == spec_tick(*old(heading), *old(steering), held),
{
    if steering.shoot_pending {
        steering.shoot_pending = false;
        return TickInput::Shoot(heading.last_direction);
    }
    let facing = heading.facing_direction;
    let held_facing = held.get(facing);
    match player_move_on_tick(held_facing, steering, facing) {
        Some(dir) => {
            heading.last_direction = dir;
            heading.facing_direction = dir;
            TickInput::Move(dir)
        },
        None => TickInput::Wait,
    }
}

/// Touch move pad pressed on `dir`: tap a new direction to turn, the same
/// direction to step; the pad holds `dir` either way. Returns whether Robbo turned.
pub fn apply_move_pad_press(heading: &mut RobboHeading, steering: &mut SteeringState, dir: Direction) -> (turned: bool)
    ensures
        *final(heading) == spec_tap(*old(heading), *old(steering), dir).0,
        *final(steering) == (SteeringState { hold: Some(dir), ..spec_tap(*old(heading), *old(steering), dir).1 }),
        turned == (dir != old(heading).facing_direction),
{
    let turned = tap_direction(heading, steering, dir);
    steering.hold = Some(dir);
    turned
}

/// Touch move pad still held on `dir`.
pub fn apply_move_pad_hold(steering: &mut SteeringState, dir: Direction)
    ensures
        *final(steering) == (SteeringState { hold: Some(dir), ..*old(steering) }),
{
    steering.hold = Some(dir);
}

/// Touch move pad released from `dir`: stops holding it (a hold of another
/// direction stays).
pub fn apply_move_pad_release(steering: &mut SteeringState, dir: Direction)
    ensures
        *final(steering) == (if old(steering).hold == Some(dir) { SteeringState { hold: None, ..*old(steering) } } else { *old(steering) }),
{
    if steering.hold == Some(dir) {
        steering.hold = None;
    }
}

/// Touch shoot pad pressed on `dir`: face `dir` and fire on the next tick.
pub fn apply_shoot_pad_press(heading: &mut RobboHeading, steering: &mut SteeringState, dir: Direction)
    ensures
        *final(heading) == spec_turn(*old(heading), *old(steering), dir).0,
        *final(steering) == (SteeringState { shoot_pending: true, ..spec_turn(*old(heading), *old(steering), dir).1 }),
{
    turn_robbo(heading, steering, dir);
    steering.shoot_pending = true;
}

/// A pad's active quarter changes from `*active` to `quarter`: the old quarter
/// is released (move pad only), then the new one pressed. Returns the
/// direction Robbo turned to, if he turned.
pub fn apply_quarter_change(
    is_move: bool,
    active: &mut Option<PadQuarter>,
    quarter: Option<PadQuarter>,
    heading: &mut RobboHeading,
    steering: &mut SteeringState,
) -> (turned: Option<Direction>)
    ensures
        *final(active) == quarter,
        quarter == *old(active) ==> *final(heading) == *old(heading) && *final(steering) == *old(steering) && turned is None,
        quarter != *old(active) && quarter is None ==> turned is None && *final(heading) == *old(heading)
            && *final(steering) == (if is_move && (*old(active)) is Some && old(steering).hold == Some(spec_quarter_direction((*old(active))->0)) {
                SteeringState { hold: None, ..*old(steering) }
            } else {
                *old(steering)
            }),
        quarter != *old(active) && quarter is Some && !is_move ==> turned == Some(spec_quarter_direction(quarter->0))
            && *final(heading) == spec_turn(*old(heading), *old(steering), spec_quarter_direction(quarter->0)).0
            && *final(steering) == (SteeringState { shoot_pending: true, ..spec_turn(*old(heading), *old(steering), spec_quarter_direction(quarter->0)).1 }),
        quarter != *old(active) && quarter is Some && is_move ==> ({
            let dir = spec_quarter_direction(quarter->0);
            let released = if (*old(active)) is Some && old(steering).hold == Some(spec_quarter_direction((*old(active))->0)) {
                SteeringState { hold: None, ..*old(steering) }
            } else {
                *old(steering)
            };
            &&& *final(heading) == spec_tap(*old(heading), released, dir).0
            &&& *final(steering) == (SteeringState { hold: Some(dir), ..spec_tap(*old(heading), released, dir).1 })
            &&& turned == (if dir != old(heading).facing_direction { Some(dir) } else { None::<Direction> })
        }),
{
    if quarter == *active {
        return None;
    }
    if let Some(old_q) = *active {
        if is_move {
            apply_move_pad_release(steering, quarter_to_direction(old_q));
        }
    }
    *active = quarter;
    match quarter {
        Some(q) => {
            let dir = quarter_to_direction(q);
            if is_move {
                if apply_move_pad_press(heading, steering, dir) {
                    Some(dir)
                } else {
                    None
                }
            } else {
                apply_shoot_pad_press(heading, steering, dir);
                Some(dir)
            }
        },
        None => None,
    }
}

pub open spec fn no_keys() -> DirectionKeys {
    DirectionKeys { up: false, down: false, left: false, right: false }
}

/// Tapping a direction other than the facing one turns Robbo without
/// stepping: the next tick does not move him, whatever keys are held.
pub proof fn law_turn_does_not_step(h: RobboHeading, s: SteeringState, dir: Direction, held: DirectionKeys)
    requires
        dir != h.facing_direction,
    ensures
        spec_tap(h, s, dir).0.facing_direction == dir,
        !(spec_tick(spec_tap(h, s, dir).0, spec_tap(h, s, dir).1, held).2 is Move),
{
}

/// A turn cancels a locked tap: after tapping the facing direction and then
/// another direction, no step happens on the next tick.
pub proof fn law_turn_cancels_locked_tap(h: RobboHeading, s: SteeringState, dir: Direction, held: DirectionKeys)
    requires
        dir != h.facing_direction,
    ensures
        ({
            let (h1, s1) = spec_tap(h, s, h.facing_direction);
            let (h2, s2) = spec_tap(h1, s1, dir);
            &&& s1.tap_move == Some(h.facing_direction)
            &&& s2.tap_move is None
            &&& h2.facing_direction == dir
            &&& !(spec_tick(h2, s2, held).2 is Move)
        }),
{
}

/// A short tap on the facing direction locks exactly one step, even when the
/// key is released before the tick fires: the next tick steps once and
/// consumes the lock, the tick after waits.
pub proof fn law_locked_tap_steps_once(h: RobboHeading, s: SteeringState)
    requires
        !s.skip_move_on_tick,
        !s.shoot_pending,
        s.hold is None,
    ensures
        ({
            let (h1, s1) = spec_tap(h, s, h.facing_direction);
            let (h2, s2, first) = spec_tick(h1, s1, no_keys());
            let (h3, s3, second) = spec_tick(h2, s2, no_keys());
            &&& first == TickInput::Move(h.facing_direction)
            &&& s2.tap_move is None
            &&& second == TickInput::Wait
        }),
{
}

/// Holding the facing direction steps on every tick: each tick moves Robbo
/// one cell and leaves the steering ready to step again.
pub proof fn law_hold_steps_every_tick(h: RobboHeading, s: SteeringState, held: DirectionKeys)
    requires
        key_for(held, h.facing_direction),
        !s.skip_move_on_tick,
        !s.shoot_pending,
    ensures
        ({
            let (h1, s1, input) = spec_tick(h, s, held);
            &&& input == TickInput::Move(h.facing_direction)
            &&& h1.facing_direction == h.facing_direction
            &&& !s1.skip_move_on_tick
            &&& !s1.shoot_pending
        }),
{
}

/// Releasing every key stops Robbo on the next tick when nothing is latched.
pub proof fn law_release_stops(h: RobboHeading, s: SteeringState)
    requires
        !s.shoot_pending,
        s.hold is None,
        s.tap_move is None,
    ensures
        spec_tick(h, s, no_keys()).2 == TickInput::Wait,
        spec_tick(spec_tick(h, s, no_keys()).0, spec_tick(h, s, no_keys()).1, no_keys()).2 == TickInput::Wait,
{
}

/// A latched shot fires on the next tick towards the last direction and the
/// latch is consumed.
pub proof fn law_shot_latch_consumed(h: RobboHeading, s: SteeringState, held: DirectionKeys)
    requires
        s.shoot_pending,
    ensures
        spec_tick(h, s, held).2 == TickInput::Shoot(h.last_direction),
        !spec_tick(h, s, held).1.shoot_pending,
{
}

/// Each pad quarter steers towards its own side of the pad: up and down
/// change the row (up towards lower rows), left and right the column (left
/// towards lower columns); no two quarters share a direction; and a press on
/// a quarter, on either pad, leaves Robbo facing that direction.
pub proof fn law_pad_quarter_steers_towards_it(q: PadQuarter, h: RobboHeading, s: SteeringState)
    ensures
        q == PadQuarter::Up ==> crate::grid::spec_delta(spec_quarter_direction(q)) == (0int, -1int),
        q == PadQuarter::Down ==> crate::grid::spec_delta(spec_quarter_direction(q)) == (0int, 1int),
        q == PadQuarter::Left ==> crate::grid::spec_delta(spec_quarter_direction(q)) == (-1int, 0int),
        q == PadQuarter::Right ==> crate::grid::spec_delta(spec_quarter_direction(q)) == (1int, 0int),
        forall|p: PadQuarter| #[trigger] spec_quarter_direction(p) == spec_quarter_direction(q) ==> p == q,
        spec_tap(h, s, spec_quarter_direction(q)).0.facing_direction == spec_quarter_direction(q),
        spec_turn(h, s, spec_quarter_direction(q)).0.facing_direction == spec_quarter_direction(q),
{
}

} // verus!
