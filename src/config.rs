use vstd::prelude::*;

verus! {

/// Number of fixed-point units in one pixel.
pub const UNITS_PER_PIXEL: i64 = 100;

/// Width of the playfield (640 px).
pub const WINDOW_WIDTH: i64 = 64_000;

/// Height of the playfield (480 px).
pub const WINDOW_HEIGHT: i64 = 48_000;

/// Distance of each paddle from its edge of the playfield (16 px).
pub const PADDLE_MARGIN: i64 = 1_600;

/// How far a paddle moves per tick while a key is held (8 px).
pub const PADDLE_SPEED: i64 = 800;

/// Horizontal speed of a freshly served ball (5 px per tick).
pub const BALL_SPEED: i64 = 500;

/// Horizontal speed the ball gains on each paddle hit (0.05 px per tick).
pub const BALL_ACCEL: i64 = 5;

/// Vertical speed given to a ball that strikes a paddle's edge, per unit of
/// offset from the paddle's centre measured in paddle heights (4 px per tick).
pub const PADDLE_SPIN: i64 = 400;

/// Score at which a match ends.
pub const MAX_POINTS: u64 = 10;

/// Bound on every coordinate and speed for which one tick is computed
/// without overflow.
pub const COORD_LIMIT: i64 = 1_000_000_000_000;

} // verus!
