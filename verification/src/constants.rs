//! Physics, world and audio constants.
//!
//! Coordinates and velocities are in thousandths of a world unit ("subunits"),
//! with the y axis growing downward. One velocity unit is one subunit per tick.

use vstd::prelude::*;

verus! {

/// Subunits per world unit.
pub const SUBUNITS: i64 = 1000;

/// The library keeps every world coordinate and velocity within this bound;
/// it is far beyond anything reachable in play and exists so that position
/// and velocity updates are provably free of machine overflow.
pub const COORD_LIMIT: i64 = 1_000_000_000_000;

/// Gravity added to the player's vertical velocity each airborne tick (0.5).
pub const GRAVITY: i64 = 500;

/// Vertical velocity set when a jump starts (-5.0, upward).
pub const JUMP_VELOCITY: i64 = -5000;

/// Largest horizontal speed the player may reach (2.0).
pub const MAX_VELOCITY: i64 = 2000;

/// Horizontal speed gained each tick a movement command is held (0.1).
pub const ACCELERATION: i64 = 100;

/// Speeds below this snap to exactly zero while decelerating (0.1).
pub const VELOCITY_EPSILON: i64 = 100;

/// Numerator of the damping ratio applied while accelerating (0.98).
pub const ACCEL_DAMP_NUM: i64 = 98;

/// Numerator of the decay ratio applied while no movement command is held (0.95).
pub const DECAY_NUM: i64 = 95;

/// Shared denominator of the two damping ratios.
pub const DAMP_DEN: i64 = 100;

/// The y coordinate of the ground line (205.0).
pub const GROUND: i64 = 205_000;

/// Smallest x coordinate the player may occupy (0.0).
pub const LOWER_BOUND: i64 = 0;

/// Default x coordinate at which the game moves to the next map (225.0).
pub const UPPER_BOUND: i64 = 225_000;

/// The player counts as "almost on the ground" while y lies in this band
/// (140.0 ..= 160.0); the band only drives animation, never physics.
pub const ALMOST_GROUND_MIN: i64 = 140_000;
/// Upper edge of the almost-on-the-ground band.
pub const ALMOST_GROUND_MAX: i64 = 160_000;

/// The ceiling: a player at or above this y is reset to the ground line (40.0).
pub const CEILING: i64 = 40_000;

/// Offset of the player's leading probe past its x position (10.0); the probe
/// must pass an obstacle's left edge for the horizontal bands to overlap.
pub const SUPPORT_LEAD: i64 = 10_000;

/// Offset of the player's trailing probe past its x position (5.0); the probe
/// must stay short of an obstacle's right edge.
pub const SUPPORT_TRAIL: i64 = 5_000;

/// A player landing on an obstacle is placed this far above its bottom (10.0).
pub const OBSTACLE_SNAP: i64 = 10_000;

/// Tolerance added below an obstacle's top edge in the kick test (10.0).
pub const KICK_MARGIN_TOP: i64 = 10_000;

/// Tolerance added below an obstacle's bottom edge in the kick test (25.0).
pub const KICK_MARGIN_BOTTOM: i64 = 25_000;

/// A falling obstacle stops once its fall velocity reaches this value (16.0).
pub const TERMINAL_FALL_VELOCITY: i64 = 16_000;

/// Largest fall velocity an obstacle can hold: one more gravity step past the
/// terminal velocity.
pub const FALL_VELOCITY_LIMIT: i64 = 17_500;

/// Side length of one tile, and of every obstacle and trap box (16.0).
pub const TILE_SIZE: i64 = 16_000;

/// Distance the player is walked back each tick while recovering from damage (2.0).
pub const KNOCKBACK_STEP: i64 = 2_000;

/// How far left of a trap's left edge the knockback target is placed (40.0).
pub const KNOCKBACK_OFFSET: i64 = 40_000;

/// Durability a freshly spawned obstacle starts with.
pub const INITIAL_DURABILITY: u8 = 2;

/// Health a fresh player starts with.
pub const FULL_HEALTH: u8 = 3;

/// Screen x at which the player sprite is drawn; world x scrolls past it.
pub const FIXED_PLAYER_X: isize = 109;

/// Ticks a kick animation frame is held before advancing.
pub const KICK_FRAME_DURATION: usize = 8;

/// Sound ids, indices into the sound table that [`crate::load_sounds`] lays out.
pub const WALK_SOUND_1: usize = 0;
/// Second footstep sample.
pub const WALK_SOUND_2: usize = 1;
/// Third footstep sample.
pub const WALK_SOUND_3: usize = 2;
/// Fourth footstep sample.
pub const WALK_SOUND_4: usize = 3;
/// Played when a jump starts.
pub const JUMP_SOUND: usize = 4;
/// Played when the player lands on the ground after being airborne.
pub const FALL_MILD_SOUND: usize = 5;
/// Played on a heavy landing.
pub const FALL_HEAVY_SOUND: usize = 6;
/// Played when a falling obstacle comes to rest.
pub const DOWN_SOUND: usize = 7;
/// Played on an explosion.
pub const EXPLOSION_SOUND: usize = 8;
/// Played when a kick hits nothing.
pub const KICK_SOUND: usize = 9;
/// Played when a kick connects with an obstacle.
pub const KICK_BOX_SOUND: usize = 10;

/// Number of distinct sound samples.
pub const SOUND_COUNT: usize = 11;

/// Milliseconds between heart sprite frames.
pub const HEART_FRAME_MS: u64 = 500;
/// Milliseconds between ground sprite frames.
pub const GROUND_FRAME_MS: u64 = 200;
/// Milliseconds between lighthouse sprite frames.
pub const LIGHTHOUSE_FRAME_MS: u64 = 750;
/// Milliseconds between the toxic trap's lead-in frames.
pub const TOXIC_SLOW_FRAME_MS: u64 = 200;
/// Milliseconds between the toxic trap's looping tail frames.
pub const TOXIC_FAST_FRAME_MS: u64 = 100;

} // verus!
