//! Fixed-point configuration constants.
//!
//! World coordinates live in a fixed-point representation where `SCALE`
//! stands for 1.0 world unit; the visible playfield is `[-SCALE, SCALE]` on
//! both axes.  Angles are integers with `TURN` units to a full rotation, so
//! that the three gate vertices, offset by thirds of a turn, have exact
//! integer offsets.  Times are fixed-point seconds with `SCALE` units per
//! second.

use vstd::prelude::*;

verus! {

/// Fixed-point unit: this many integer steps stand for 1.0 world unit
/// (and for 1.0 second of time).
pub const SCALE: i64 = 65536;

/// Player displacement per tick, in coordinate steps (0.009 world units).
pub const PLAYER_SPEED: i64 = 590;

/// Enemy displacement per tick: a fixed 0.65 fraction of the player's.
pub const ENEMY_SPEED: i64 = 383;

/// Collision radius of the player circle (0.05 world units).
pub const PLAYER_RADIUS: i64 = 3277;

/// Radius of an enemy body (0.05 world units).
pub const ENEMY_RADIUS: i64 = 3277;

/// Circumscribed radius of a gate triangle (0.1 world units).
pub const GATE_RADIUS: i64 = 6554;

/// Half-width of the corner bands that enemy waves spawn in
/// (0.25 world units; a band is a `2 * ENEMY_BUFFER` sided square).
pub const ENEMY_BUFFER: i64 = 16384;

/// Seconds (fixed-point) between enemy waves (3.0 s).
pub const ENEMY_SPAWN_FREQ: i64 = 196608;

/// Seconds (fixed-point) between gate spawns (4.5 s).
pub const GATE_SPAWN_FREQ: i64 = 294912;

/// Angle units in one full rotation; divisible by 3 and by 4 so that the
/// gate vertex offsets and the quarter-turn phase shift of the cosine are
/// exact.
pub const TURN: i64 = 98304;

/// Half a rotation in angle units.
pub const HALF_TURN: i64 = 49152;

/// A quarter rotation in angle units.
pub const QUARTER_TURN: i64 = 24576;

/// A third of a rotation in angle units: the offset between gate vertices.
pub const THIRD_TURN: i64 = 32768;

/// Angular velocity of a freshly spawned gate, in angle units per second
/// (about one radian per second).
pub const SPIN_SPEED: i64 = 15646;

/// Largest angular velocity a well-formed gate may carry.
pub const MAX_SPIN: i64 = 1572864;

/// Positions are confined to `[-MAX_COORD, MAX_COORD]` on both axes
/// (128 world units, far beyond the visible playfield); movement saturates
/// there so that coordinate arithmetic stays inside machine bounds.
pub const MAX_COORD: i64 = 8388608;

/// Smallest accepted viewport aspect ratio, fixed-point (1/16).
pub const MIN_ASPECT: i64 = 4096;

/// Largest accepted viewport aspect ratio, fixed-point (16).
pub const MAX_ASPECT: i64 = 1048576;

/// Largest accepted time step for one tick, fixed-point seconds
/// (about nine hours; a machine bound, not a gameplay one).
pub const MAX_DT: i64 = 2147483647;

/// The simulation clock saturates here instead of overflowing.
pub const MAX_TIMER: i64 = 4611686018427387904;

/// Wave sizes stay below this bound so that the wave counter cannot
/// overflow; it is unreachable in any real session.
pub const MAX_WAVE: u32 = 1073741824;

} // verus!
