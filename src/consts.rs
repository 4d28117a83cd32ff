use vstd::prelude::*;

verus! {

/// Width of the playing field.
pub const MAX_X: i32 = 800;

/// Height of the playing field.
pub const MAX_Y: i32 = 600;

/// Radius of the ball.
pub const R: i32 = 10;

/// Width of a paddle.
pub const RACKET_X: i32 = 20;

/// Height of a paddle.
pub const RACKET_Y: i32 = 100;

/// Gap between a screen edge and the paddle guarding it.
pub const WIN_X: i32 = 20;

/// Distance a paddle moves on one key press.
pub const ROCKET_SPEED: i32 = 40;

/// Horizontal speed of a freshly served ball.
pub const SERVE_SPEED: i32 = 5;

/// Largest magnitude of a freshly served ball's vertical speed.
pub const MAX_SERVE_LIFT: u32 = 5;

/// Largest allowed top edge of a paddle.
pub const PADDLE_MAX: i32 = MAX_Y - RACKET_Y;

/// Bound on every coordinate and speed under which a whole step fits in `i32`.
pub const BOUND: i32 = 1_000_000_000;

} // verus!
