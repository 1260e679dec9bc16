//! All of the constants used in the game.
//!
//! Coordinates and sizes are in thousandths of a world unit ([`UNIT`]
//! subunits per unit); times are in milliseconds; speeds are in world units
//! per second, which is the same number as subunits per millisecond.

use vstd::prelude::*;

verus! {

/// Coordinate subunits per world unit, and milliseconds per second.
pub const UNIT: i64 = 1000;

// Sizes and coordinates
pub const SPACESHIP_SIZE_X: i64 = 120 * UNIT;
pub const SPACESHIP_SIZE_Y: i64 = 20 * UNIT;
pub const GAP_BETWEEN_SPACESHIP_AND_FLOOR: i64 = 60 * UNIT;
/// World units per second the spaceship moves while a direction key is held.
pub const SPACESHIP_SPEED: i64 = 700;
pub const SPACESHIP_PADDING: i64 = 10 * UNIT;
pub const LASER_SIZE_X: i64 = 15 * UNIT;
pub const LASER_SIZE_Y: i64 = 15 * UNIT;
/// World units per second a fired laser climbs.
pub const LASER_SPEED: i64 = 700;
/// World units per second a spawned alien descends.
pub const ALIEN_SPEED: i64 = 300;
pub const WALL_THICKNESS: i64 = 10 * UNIT;
pub const LEFT_WALL: i64 = -450 * UNIT;
pub const RIGHT_WALL: i64 = 450 * UNIT;
pub const BOTTOM_WALL: i64 = -300 * UNIT;
pub const TOP_WALL: i64 = 300 * UNIT;
pub const ALIEN_SIZE_X: i64 = 70 * UNIT;
pub const ALIEN_SIZE_Y: i64 = 30 * UNIT;

/// Milliseconds between two alien spawns: a new alien every second.
pub const ALIEN_SPAWN_TIME: i64 = 1000;

// Halves of the extents above, spelled out because collision margins and
// bounds are all phrased in half extents.
pub const HALF_WALL_THICKNESS: i64 = 5 * UNIT;
pub const HALF_SPACESHIP_SIZE_X: i64 = 60 * UNIT;
pub const HALF_SPACESHIP_SIZE_Y: i64 = 10 * UNIT;
pub const HALF_ALIEN_SIZE_X: i64 = 35 * UNIT;

/// Fixed height at which the spaceship sits.
pub const SPACESHIP_Y: i64 = BOTTOM_WALL + GAP_BETWEEN_SPACESHIP_AND_FLOOR;

/// Leftmost spaceship center: the arena edge plus half the wall's
/// thickness, half the ship's width, and a fixed padding.
pub const LEFT_BOUND: i64 = LEFT_WALL + HALF_WALL_THICKNESS + HALF_SPACESHIP_SIZE_X + SPACESHIP_PADDING;

/// Rightmost spaceship center, mirroring [`LEFT_BOUND`].
pub const RIGHT_BOUND: i64 = RIGHT_WALL - HALF_WALL_THICKNESS - HALF_SPACESHIP_SIZE_X - SPACESHIP_PADDING;

/// Lowest horizontal coordinate an alien may spawn at: the arena edge
/// offset inward by half the alien's width.
pub const ALIEN_SPAWN_X_MIN: i64 = LEFT_WALL + HALF_ALIEN_SIZE_X;

/// One past the highest horizontal coordinate an alien may spawn at.
pub const ALIEN_SPAWN_X_MAX: i64 = RIGHT_WALL - HALF_ALIEN_SIZE_X;

/// Height at which aliens appear: the top wall offset inward by half the
/// alien's *width* (not its height) — a deliberate quirk of this game.
pub const ALIEN_SPAWN_Y: i64 = TOP_WALL - HALF_ALIEN_SIZE_X;

} // verus!
