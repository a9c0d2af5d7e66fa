//! The simulation's element and tile kinds as the front-end reads them, and
//! the presentation rules keyed on them: which sprite to draw, which kinds get
//! special visuals, and how many sim ticks a visual step spans.

use vstd::prelude::*;
use crate::grid::{Direction, spec_dir_index, dir_to_idx};

verus! {

/// Horizontal or vertical patrol of a bird.
#[derive(Clone, Copy, Debug, PartialEq, Eq, Structural)]
pub enum BirdVariant {
    Horizontal,
    Vertical,
}

/// Gun that fired a shot.
#[derive(Clone, Copy, Debug, PartialEq, Eq, Structural)]
pub enum GunType {
    Regular,
    Laser,
    Blaster,
}

/// Kind of a simulation element, with the fields the front-end reads.
#[derive(Clone, Copy, Debug, PartialEq, Eq, Structural)]
pub enum ElementKind {
    Robbo,
    Screw,
    Capsule,
    Bomb,
    Box,
    PushBox,
    Key,
    BulletPickup,
    QuestionMark,
    Projectile,
    Teleport,
    Magnet { direction: Direction },
    Bear { clockwise: bool },
    BlackBear { clockwise: bool },
    Butterfly,
    Bird { variant: BirdVariant, shooting: bool },
    Gun { direction: Direction, movable: bool },
    Laser { direction: Direction, solid: bool },
    BlasterCell { direction: Direction, frame: u8 },
    BigBoom,
    BarbedWire,
    Stop,
}

/// Kind of a floor tile.
#[derive(Clone, Copy, Debug, PartialEq, Eq, Structural)]
pub enum TileKind {
    Empty,
    WallGrey,
    WallSolid,
    WallRed,
    WallGreen,
    WallBlack,
    Ground,
    DoorClosed,
    DoorOpen,
    Barrier,
    Stop,
}

/// A slot of the pre-loaded sprite set. `Player` and `Gun` carry the index
/// into their directional sheets (right, down, left, up) and, for the player,
/// the walk-cycle frame.
#[derive(Clone, Copy, Debug, PartialEq, Eq, Structural)]
pub enum SpriteKey {
    Player { dir_idx: usize, frame: usize },
    Screw,
    Capsule,
    CapsuleReady,
    Bomb,
    Box,
    PushBox,
    Key,
    BulletPickup,
    ExtraLife,
    QuestionMark,
    Bullet,
    Teleport,
    Magnet,
    BearUp,
    BlackBearUp,
    Butterfly,
    Bird,
    Gun { dir_idx: usize },
    TileEmpty,
    TileWallGrey,
    TileWallSolid,
    TileWallRed,
    TileWallGreen,
    TileWallBlack,
    TileGround,
    TileDoorClosed,
    TileBarrier,
}

/// Procedural laser / blaster rendering style.
#[derive(Clone, Copy, Debug, PartialEq, Eq, Structural)]
pub enum ProjectileVisual {
    /// Moving laser bolt; blinks each sim tick.
    Bolt,
    /// Fixed beam segment of a solid laser.
    SolidBeam,
    /// Expanding blaster wave.
    Blaster,
}

/// Number of frames in Robbo's walk cycle.
pub const WALK_FRAMES: usize = 6;

/// Sim ticks between moves of a movable gun.
pub const MOVABLE_GUN_STEP_TICKS: u32 = 8;

pub open spec fn spec_sprite_for_element(kind: ElementKind, dir: Direction) -> SpriteKey {
    match kind {
        ElementKind::Robbo => SpriteKey::Player { dir_idx: spec_dir_index(dir) as usize, frame: 0 },
        ElementKind::Screw => SpriteKey::Screw,
        ElementKind::Capsule => SpriteKey::Capsule,
        ElementKind::Bomb => SpriteKey::Bomb,
        ElementKind::Box => SpriteKey::Box,
        ElementKind::PushBox => SpriteKey::PushBox,
        ElementKind::Key => SpriteKey::Key,
        ElementKind::BulletPickup => SpriteKey::BulletPickup,
        ElementKind::QuestionMark => SpriteKey::QuestionMark,
        ElementKind::Projectile => SpriteKey::Bullet,
        ElementKind::Teleport => SpriteKey::Teleport,
        ElementKind::Magnet { .. } => SpriteKey::Magnet,
        ElementKind::Bear { .. } => SpriteKey::BearUp,
        ElementKind::BlackBear { .. } => SpriteKey::BlackBearUp,
        ElementKind::Butterfly => SpriteKey::Butterfly,
        ElementKind::Bird { .. } => SpriteKey::Bird,
        ElementKind::Gun { direction, .. } => SpriteKey::Gun { dir_idx: spec_dir_index(direction) as usize },
        ElementKind::Laser { .. } => SpriteKey::Bullet,
        ElementKind::BlasterCell { .. } => SpriteKey::Bullet,
        ElementKind::BigBoom => SpriteKey::Bomb,
        ElementKind::BarbedWire => SpriteKey::TileWallBlack,
        ElementKind::Stop => SpriteKey::TileEmpty,
    }
}

pub open spec fn spec_sprite_for_tile(tile: TileKind) -> SpriteKey {
    match tile {
        TileKind::Empty => SpriteKey::TileEmpty,
        TileKind::WallGrey => SpriteKey::TileWallGrey,
        TileKind::WallSolid => SpriteKey::TileWallSolid,
        TileKind::WallRed => SpriteKey::TileWallRed,
        TileKind::WallGreen => SpriteKey::TileWallGreen,
        TileKind::WallBlack => SpriteKey::TileWallBlack,
        TileKind::Ground => SpriteKey::TileGround,
        TileKind::DoorClosed => SpriteKey::TileDoorClosed,
        TileKind::DoorOpen => SpriteKey::TileDoorClosed,
        TileKind::Barrier => SpriteKey::TileBarrier,
        TileKind::Stop => SpriteKey::TileWallRed,
    }
}

/// Pickups that show a grow-and-fade pop when collected.
pub open spec fn spec_is_collect_pop_kind(kind: ElementKind) -> bool {
    kind == ElementKind::Screw || kind == ElementKind::Key || kind == ElementKind::BulletPickup
}

pub open spec fn spec_is_bear_kind(kind: ElementKind) -> bool {
    kind is Bear || kind is BlackBear
}

pub open spec fn spec_projectile_visual(kind: ElementKind) -> Option<ProjectileVisual> {
    match kind {
        ElementKind::Laser { solid, .. } => Some(if solid { ProjectileVisual::SolidBeam } else { ProjectileVisual::Bolt }),
        ElementKind::BlasterCell { .. } => Some(ProjectileVisual::Blaster),
        _ => None,
    }
}

/// Sim ticks that one visual A-to-B glide of `kind` spans. Enemies use their
/// move delay, a sliding push-box its slide delay, a movable gun eight ticks,
/// everything else one tick.
pub open spec fn spec_visual_step_ticks(kind: ElementKind, sliding: bool, enemy_delay: u32, slide_delay: u32) -> u32 {
    match kind {
        ElementKind::Bear { .. } | ElementKind::BlackBear { .. } | ElementKind::Bird { .. } | ElementKind::Butterfly => enemy_delay,
        ElementKind::PushBox => if sliding { slide_delay } else { 1 },
        ElementKind::Gun { movable, .. } => if movable { MOVABLE_GUN_STEP_TICKS } else { 1 },
        _ => 1,
    }
}

/// Sprite slot for an element facing `dir`.
pub fn sprite_for_element(kind: &ElementKind, dir: Direction) -> (key: SpriteKey)
    ensures
        key == spec_sprite_for_element(*kind, dir),
{
    match kind {
        ElementKind::Robbo => SpriteKey::Player { dir_idx: dir_to_idx(dir), frame: 0 },
        ElementKind::Screw => SpriteKey::Screw,
        ElementKind::Capsule => SpriteKey::Capsule,
        ElementKind::Bomb => SpriteKey::Bomb,
        ElementKind::Box => SpriteKey::Box,
        ElementKind::PushBox => SpriteKey::PushBox,
        ElementKind::Key => SpriteKey::Key,
        ElementKind::BulletPickup => SpriteKey::BulletPickup,
        ElementKind::QuestionMark => SpriteKey::QuestionMark,
        ElementKind::Projectile => SpriteKey::Bullet,
        ElementKind::Teleport => SpriteKey::Teleport,
        ElementKind::Magnet { .. } => SpriteKey::Magnet,
        ElementKind::Bear { .. } => SpriteKey::BearUp,
        ElementKind::BlackBear { .. } => SpriteKey::BlackBearUp,
        ElementKind::Butterfly => SpriteKey::Butterfly,
        ElementKind::Bird { .. } => SpriteKey::Bird,
        ElementKind::Gun { direction, .. } => SpriteKey::Gun { dir_idx: dir_to_idx(*direction) },
        ElementKind::Laser { .. } => SpriteKey::Bullet,
        ElementKind::BlasterCell { .. } => SpriteKey::Bullet,
        ElementKind::BigBoom => SpriteKey::Bomb,
        ElementKind::BarbedWire => SpriteKey::TileWallBlack,
        ElementKind::Stop => SpriteKey::TileEmpty,
    }
}

/// Sprite slot shown on the collect pop (key, screw, ammo); `None` for other kinds.
pub fn sprite_for_collectible(kind: &ElementKind) -> (key: Option<SpriteKey>)
    ensures
        key == (if spec_is_collect_pop_kind(*kind) { Some(spec_sprite_for_element(*kind, Direction::Up)) } else { None::<SpriteKey> }),
{
    match kind {
        ElementKind::Screw => Some(SpriteKey::Screw),
        ElementKind::Key => Some(SpriteKey::Key),
        ElementKind::BulletPickup => Some(SpriteKey::BulletPickup),
        _ => None,
    }
}

/// Sprite slot for a floor tile; every tile kind has one.
pub fn sprite_for_tile(tile: TileKind) -> (key: Option<SpriteKey>)
    ensures
        key == Some(spec_sprite_for_tile(tile)),
{
    Some(match tile {
        TileKind::Empty => SpriteKey::TileEmpty,
        TileKind::WallGrey => SpriteKey::TileWallGrey,
        TileKind::WallSolid => SpriteKey::TileWallSolid,
        TileKind::WallRed => SpriteKey::TileWallRed,
        TileKind::WallGreen => SpriteKey::TileWallGreen,
        TileKind::WallBlack => SpriteKey::TileWallBlack,
        TileKind::Ground => SpriteKey::TileGround,
        TileKind::DoorClosed | TileKind::DoorOpen => SpriteKey::TileDoorClosed,
        TileKind::Barrier => SpriteKey::TileBarrier,
        TileKind::Stop => SpriteKey::TileWallRed,
    })
}

/// Player walk sprite: the sheet of `dir` and frame `frame` of the six-frame cycle.
pub fn player_frame(dir: Direction, frame: usize) -> (key: SpriteKey)
    ensures
        key == (SpriteKey::Player { dir_idx: spec_dir_index(dir) as usize, frame: (frame % WALK_FRAMES) as usize }),
{
    SpriteKey::Player { dir_idx: dir_to_idx(dir), frame: frame % WALK_FRAMES }
}

/// Whether a collected element of this kind shows a collect pop.
pub fn is_collect_pop_kind(kind: &ElementKind) -> (b: bool)
    ensures
        b == spec_is_collect_pop_kind(*kind),
{
    match kind {
        ElementKind::Screw | ElementKind::Key | ElementKind::BulletPickup => true,
        _ => false,
    }
}

/// Bears (brown or black) use one up-facing sprite rotated at render time.
pub fn is_bear_kind(kind: &ElementKind) -> (b: bool)
    ensures
        b == spec_is_bear_kind(*kind),
{
    match kind {
        ElementKind::Bear { .. } | ElementKind::BlackBear { .. } => true,
        _ => false,
    }
}

/// The facing of a magnet; `None` for other kinds.
pub fn magnet_direction(kind: &ElementKind) -> (d: Option<Direction>)
    ensures
        d == (match *kind {
            ElementKind::Magnet { direction } => Some(direction),
            _ => None::<Direction>,
        }),
{
    match kind {
        ElementKind::Magnet { direction } => Some(*direction),
        _ => None,
    }
}

/// Rendering style of lasers and blaster waves; `None` for other kinds.
pub fn projectile_visual_for(kind: &ElementKind) -> (v: Option<ProjectileVisual>)
    ensures
        v == spec_projectile_visual(*kind),
{
    match kind {
        ElementKind::Laser { solid, .. } => {
            if *solid {
                Some(ProjectileVisual::SolidBeam)
            } else {
                Some(ProjectileVisual::Bolt)
            }
        },
        ElementKind::BlasterCell { .. } => Some(ProjectileVisual::Blaster),
        _ => None,
    }
}

/// Sim ticks between moves of an element, as the visual glide must span them.
/// `enemy_delay` is the simulation's move delay for this enemy kind and
/// `slide_delay` its push-box slide delay.
pub fn visual_step_ticks(kind: &ElementKind, sliding: bool, enemy_delay: u32, slide_delay: u32) -> (t: u32)
    ensures
        t == spec_visual_step_ticks(*kind, sliding, enemy_delay, slide_delay),
{
    match kind {
        ElementKind::Bear { .. } | ElementKind::BlackBear { .. } | ElementKind::Bird { .. } | ElementKind::Butterfly => enemy_delay,
        ElementKind::PushBox => if sliding { slide_delay } else { 1 },
        ElementKind::Gun { movable, .. } => if *movable { MOVABLE_GUN_STEP_TICKS } else { 1 },
        _ => 1,
    }
}

/// Seed of the sparkle sequence of a screw at (`col`, `row`): `col * 31 + row`
/// in wrapping 32-bit arithmetic, coordinates taken as two's-complement words.
pub fn screw_particle_seed(col: i16, row: i16) -> (seed: u32)
    ensures
        seed == ((col as u32) as int * 31 + (row as u32) as int) % 0x1_0000_0000,
{
    let c: u32 = col as u32;
    let r: u32 = row as u32;
    let m = c.wrapping_mul(31);
    let s = m.wrapping_add(r);
    assert(s == (c * 31 + r) % 0x1_0000_0000) by (nonlinear_arith)
        requires
            m == (c * 31) % 0x1_0000_0000,
            s == (m + r) % 0x1_0000_0000,
    ;
    s
}

/// Each element is drawn with the sheet image named after it: Robbo with the
/// first walk frame of his facing, a gun with the image of its own facing,
/// every shot with the bullet, a big boom with the bomb, barbed wire and stops
/// with the tiles they look like; distinct elements with images of their own
/// never share one.
pub proof fn law_sprite_named_after_element(kind: ElementKind, dir: Direction)
    ensures
        kind == ElementKind::Robbo ==> spec_sprite_for_element(kind, dir) == (SpriteKey::Player { dir_idx: spec_dir_index(dir) as usize, frame: 0 }),
        kind == ElementKind::Screw ==> spec_sprite_for_element(kind, dir) == SpriteKey::Screw,
        kind == ElementKind::Capsule ==> spec_sprite_for_element(kind, dir) == SpriteKey::Capsule,
        kind == ElementKind::Bomb ==> spec_sprite_for_element(kind, dir) == SpriteKey::Bomb,
        kind == ElementKind::Box ==> spec_sprite_for_element(kind, dir) == SpriteKey::Box,
        kind == ElementKind::PushBox ==> spec_sprite_for_element(kind, dir) == SpriteKey::PushBox,
        kind == ElementKind::Key ==> spec_sprite_for_element(kind, dir) == SpriteKey::Key,
        kind == ElementKind::BulletPickup ==> spec_sprite_for_element(kind, dir) == SpriteKey::BulletPickup,
        kind == ElementKind::QuestionMark ==> spec_sprite_for_element(kind, dir) == SpriteKey::QuestionMark,
        kind == ElementKind::Teleport ==> spec_sprite_for_element(kind, dir) == SpriteKey::Teleport,
        kind == ElementKind::Butterfly ==> spec_sprite_for_element(kind, dir) == SpriteKey::Butterfly,
        kind is Magnet ==> spec_sprite_for_element(kind, dir) == SpriteKey::Magnet,
        kind is Bear ==> spec_sprite_for_element(kind, dir) == SpriteKey::BearUp,
        kind is BlackBear ==> spec_sprite_for_element(kind, dir) == SpriteKey::BlackBearUp,
        kind is Bird ==> spec_sprite_for_element(kind, dir) == SpriteKey::Bird,
        kind matches ElementKind::Gun { direction, .. } ==> spec_sprite_for_element(kind, dir) == (SpriteKey::Gun { dir_idx: spec_dir_index(direction) as usize }),
        (kind == ElementKind::Projectile || kind is Laser || kind is BlasterCell) ==> spec_sprite_for_element(kind, dir) == SpriteKey::Bullet,
        kind == ElementKind::BigBoom ==> spec_sprite_for_element(kind, dir) == spec_sprite_for_element(ElementKind::Bomb, dir),
        kind == ElementKind::BarbedWire ==> spec_sprite_for_element(kind, dir) == spec_sprite_for_tile(TileKind::WallBlack),
        kind == ElementKind::Stop ==> spec_sprite_for_element(kind, dir) == spec_sprite_for_tile(TileKind::Empty),
        spec_sprite_for_element(ElementKind::Bomb, dir) != spec_sprite_for_element(ElementKind::Box, dir),
        spec_sprite_for_element(ElementKind::Box, dir) != spec_sprite_for_element(ElementKind::PushBox, dir),
        spec_sprite_for_element(ElementKind::Bomb, dir) != spec_sprite_for_element(ElementKind::PushBox, dir),
{
}

} // verus!
