use vstd::prelude::*;

verus! {

/// Sub-units in one arena unit: every length, position and speed of the
/// library counts thousandths of an arena unit.
pub const UNIT: i64 = 1000;

/// Milli-steps in one logical step: a frame of `dt == STEP` lasts one
/// logical step (one sixtieth of a second).
pub const STEP: u64 = 1000;

pub const WIDTH: i64 = 800_000;
pub const HEIGHT: i64 = 600_000;

pub const PLAYER_BASE_SPEED: i64 = 6_000;
pub const PLAYER_WIDTH: i64 = 32_000;
pub const PLAYER_HEIGHT: i64 = 32_000;
pub const PLAYER_X: i64 = 400_000;
pub const PLAYER_Y: i64 = 568_000;
pub const PLAYER_AMMO: u32 = 9000;

pub const PLAYER_BULLET_WIDTH: i64 = 30_000;
pub const PLAYER_BULLET_HEIGHT: i64 = 30_000;
pub const PLAYER_BULLET_SPEED: i64 = 8_000;

/// Largest speed an entity may have, in sub-units per step.
pub const MAX_SPEED: i64 = 0x10_0000;

/// Largest frame duration, in milli-steps, that one simulation step accepts.
pub const MAX_DT: u64 = 0x100_0000;

/// Largest width or height of an entity's box.
pub const MAX_SIZE: i64 = 0x1000_0000;

/// Positions are kept within `[-WORLD_LIMIT, WORLD_LIMIT]` on both axes.
pub const WORLD_LIMIT: i64 = 0x1000_0000_0000;

/// Largest component of a heading vector.
pub const MAX_HEADING: i64 = 0x1000_0000;

} // verus!
