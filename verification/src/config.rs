//! Arena geometry and motion constants.
//!
//! Every length is in milliunits (thousandths of a world unit), every
//! velocity in milliunits per second, every time in milliseconds.  The
//! constants below are the standard arena of the game; [`ArenaConfig`] lets a
//! host choose other geometry, as long as [`ConfigModel::valid`] holds.

use vstd::prelude::*;

verus! {

/// Milliunits per world unit, and milliseconds per second: the fixed-point
/// scale of every quantity in this crate.
pub const SCALE: i64 = 1000;

/// Largest magnitude, in milliunits, accepted for a configured length,
/// coordinate or velocity.  Keeps every intermediate product inside `i64`.
pub const COORD_LIMIT: i64 = 1_000_000;

/// Largest elapsed time, in milliseconds, accepted for a single frame step.
pub const DT_LIMIT: i64 = 1_000_000;

/// Full deflection of an input axis, in thousandths: a sampled axis value is
/// clamped to `[-AXIS_LIMIT, AXIS_LIMIT]`, standing for `[-1.0, 1.0]`.
pub const AXIS_LIMIT: i64 = 1000;

/// Width of the standard arena (100 world units).
pub const ARENA_WIDTH: i64 = 100_000;

/// Height of the standard arena (100 world units).
pub const ARENA_HEIGHT: i64 = 100_000;

/// Width of a paddle in the standard arena (4 world units).
pub const PADDLE_WIDTH: i64 = 4_000;

/// Height of a paddle in the standard arena (16 world units).
pub const PADDLE_HEIGHT: i64 = 16_000;

/// Radius of the ball in the standard arena (2 world units).
pub const BALL_RADIUS: i64 = 2_000;

/// Horizontal speed of a freshly spawned ball (75 world units per second).
pub const BALL_VELOCITY_X: i64 = 75_000;

/// Vertical speed of a freshly spawned ball (50 world units per second).
pub const BALL_VELOCITY_Y: i64 = 50_000;

/// Paddle speed at full axis deflection (50 world units per second).
pub const PADDLE_SPEED: i64 = 50_000;

/// Delay between the start of a round and the spawn of its ball (1 second).
pub const SPAWN_DELAY: i64 = 1_000;

/// Width of the axis-driven roaming character (4 world units).
pub const BRAVE_WIDTH: i64 = 4_000;

/// Height of the axis-driven roaming character (4 world units).
pub const BRAVE_HEIGHT: i64 = 4_000;

/// Immutable geometry and motion constants of one match.
#[derive(Clone, Copy, Debug, PartialEq, Eq, Structural)]
pub struct ArenaConfig {
    /// Horizontal extent of the playing field, in milliunits.
    pub arena_width: i64,
    /// Vertical extent of the playing field, in milliunits.
    pub arena_height: i64,
    /// Horizontal extent of each paddle, in milliunits.
    pub paddle_width: i64,
    /// Vertical extent of each paddle, in milliunits.
    pub paddle_height: i64,
    /// Radius of the ball, in milliunits.
    pub ball_radius: i64,
    /// Paddle speed at full axis deflection, in milliunits per second.
    pub paddle_speed: i64,
    /// Horizontal velocity of a freshly spawned ball, in milliunits per second.
    pub ball_velocity_x: i64,
    /// Vertical velocity of a freshly spawned ball, in milliunits per second.
    pub ball_velocity_y: i64,
    /// Milliseconds between the start of a round and the spawn of its ball.
    pub spawn_delay: i64,
}

/// The mathematical value of an [`ArenaConfig`], over unbounded integers.
pub ghost struct ConfigModel {
    pub arena_width: int,
    pub arena_height: int,
    pub paddle_width: int,
    pub paddle_height: int,
    pub ball_radius: int,
    pub paddle_speed: int,
    pub ball_velocity_x: int,
    pub ball_velocity_y: int,
    pub spawn_delay: int,
}

impl View for ArenaConfig {
    type V = ConfigModel;

    open spec fn view(&self) -> ConfigModel {
        ConfigModel {
            arena_width: self.arena_width as int,
            arena_height: self.arena_height as int,
            paddle_width: self.paddle_width as int,
            paddle_height: self.paddle_height as int,
            ball_radius: self.ball_radius as int,
            paddle_speed: self.paddle_speed as int,
            ball_velocity_x: self.ball_velocity_x as int,
            ball_velocity_y: self.ball_velocity_y as int,
            spawn_delay: self.spawn_delay as int,
        }
    }
}

impl ConfigModel {
    /// Horizontal center of the left paddle: its side touches the left wall.
    pub open spec fn left_paddle_x(self) -> int {
        self.paddle_width / 2
    }

    /// Horizontal center of the right paddle: its side touches the right wall.
    pub open spec fn right_paddle_x(self) -> int {
        self.arena_width - self.paddle_width / 2
    }

    /// Lowest paddle center allowed by the arena.
    pub open spec fn paddle_min_y(self) -> int {
        self.paddle_height / 2
    }

    /// Highest paddle center allowed by the arena.
    pub open spec fn paddle_max_y(self) -> int {
        self.arena_height - self.paddle_height / 2
    }

    /// Lowest ball center allowed by the arena.
    pub open spec fn ball_min_y(self) -> int {
        self.ball_radius
    }

    /// Highest ball center allowed by the arena.
    pub open spec fn ball_max_y(self) -> int {
        self.arena_height - self.ball_radius
    }

    /// Horizontal position at which a ball spawns: the arena center.
    pub open spec fn spawn_x(self) -> int {
        self.arena_width / 2
    }

    /// Vertical position at which a ball spawns: the arena center.
    pub open spec fn spawn_y(self) -> int {
        self.arena_height / 2
    }

    /// Largest horizontal distance between ball and paddle centers at which
    /// the two shapes still overlap.
    pub open spec fn reach_x(self) -> int {
        self.paddle_width / 2 + self.ball_radius
    }

    /// Largest vertical distance between ball and paddle centers at which the
    /// two shapes still overlap.
    pub open spec fn reach_y(self) -> int {
        self.paddle_height / 2 + self.ball_radius
    }

    /// Ball center after being pushed off the right edge of the left paddle.
    pub open spec fn left_nudge_x(self) -> int {
        self.left_paddle_x() + self.reach_x()
    }

    /// Ball center after being pushed off the left edge of the right paddle.
    pub open spec fn right_nudge_x(self) -> int {
        self.right_paddle_x() - self.reach_x()
    }

    /// A geometry the simulation can run in: every quantity is bounded (so
    /// the fixed-point arithmetic never overflows), paddles and spawned ball
    /// fit inside the arena with clearance, and a ball bounced off a paddle
    /// lands strictly inside the field, clear of the other paddle.
    pub open spec fn valid(self) -> bool {
        &&& 1 <= self.ball_radius <= COORD_LIMIT
        &&& 2 <= self.paddle_width <= COORD_LIMIT
        &&& 1 <= self.paddle_height <= COORD_LIMIT
        &&& 1 <= self.arena_width <= COORD_LIMIT
        &&& 1 <= self.arena_height <= COORD_LIMIT
        &&& 0 <= self.paddle_speed <= COORD_LIMIT
        &&& -COORD_LIMIT <= self.ball_velocity_x <= COORD_LIMIT
        &&& -COORD_LIMIT <= self.ball_velocity_y <= COORD_LIMIT
        &&& 1 <= self.spawn_delay <= DT_LIMIT
        &&& self.paddle_min_y() <= self.spawn_y() <= self.paddle_max_y()
        &&& self.ball_min_y() <= self.spawn_y() <= self.ball_max_y()
        &&& self.ball_radius < self.spawn_x() < self.arena_width - self.ball_radius
        &&& self.spawn_x() - self.left_paddle_x() > self.reach_x()
        &&& self.right_paddle_x() - self.spawn_x() > self.reach_x()
        &&& self.ball_radius < self.left_nudge_x() < self.arena_width - self.ball_radius
        &&& self.ball_radius < self.right_nudge_x() < self.arena_width - self.ball_radius
        &&& self.right_paddle_x() - self.left_nudge_x() > self.reach_x()
        &&& self.right_nudge_x() - self.left_paddle_x() > self.reach_x()
    }
}

impl ArenaConfig {
    /// The standard arena: a 100 by 100 field, 4 by 16 paddles, a
    /// ball of radius 2 launched at (75, 50) units per second after a one
    /// second delay.
    pub fn standard() -> (c: ArenaConfig)
        ensures
            c@.valid(),
            c.arena_width == ARENA_WIDTH,
            c.arena_height == ARENA_HEIGHT,
            c.paddle_width == PADDLE_WIDTH,
            c.paddle_height == PADDLE_HEIGHT,
            c.ball_radius == BALL_RADIUS,
            c.paddle_speed == PADDLE_SPEED,
            c.ball_velocity_x == BALL_VELOCITY_X,
            c.ball_velocity_y == BALL_VELOCITY_Y,
            c.spawn_delay == SPAWN_DELAY,
    {
        ArenaConfig {
            arena_width: ARENA_WIDTH,
            arena_height: ARENA_HEIGHT,
            paddle_width: PADDLE_WIDTH,
            paddle_height: PADDLE_HEIGHT,
            ball_radius: BALL_RADIUS,
            paddle_speed: PADDLE_SPEED,
            ball_velocity_x: BALL_VELOCITY_X,
            ball_velocity_y: BALL_VELOCITY_Y,
            spawn_delay: SPAWN_DELAY,
        }
    }

    /// Decides [`ConfigModel::valid`] for this configuration.
    pub fn is_valid(&self) -> (r: bool)
        ensures
            r == self@.valid(),
    {
        if !(1 <= self.ball_radius && self.ball_radius <= COORD_LIMIT) {
            return false;
        }
        if !(2 <= self.paddle_width && self.paddle_width <= COORD_LIMIT) {
            return false;
        }
        if !(1 <= self.paddle_height && self.paddle_height <= COORD_LIMIT) {
            return false;
        }
        if !(1 <= self.arena_width && self.arena_width <= COORD_LIMIT) {
            return false;
        }
        if !(1 <= self.arena_height && self.arena_height <= COORD_LIMIT) {
            return false;
        }
        if !(0 <= self.paddle_speed && self.paddle_speed <= COORD_LIMIT) {
            return false;
        }
        if !(-COORD_LIMIT <= self.ball_velocity_x && self.ball_velocity_x <= COORD_LIMIT) {
            return false;
        }
        if !(-COORD_LIMIT <= self.ball_velocity_y && self.ball_velocity_y <= COORD_LIMIT) {
            return false;
        }
        if !(1 <= self.spawn_delay && self.spawn_delay <= DT_LIMIT) {
            return false;
        }
        let half_w: i64 = self.arena_width / 2;
        let half_h: i64 = self.arena_height / 2;
        let left_x: i64 = self.paddle_width / 2;
        let right_x: i64 = self.arena_width - self.paddle_width / 2;
        let pad_min_y: i64 = self.paddle_height / 2;
        let pad_max_y: i64 = self.arena_height - self.paddle_height / 2;
        let reach: i64 = self.paddle_width / 2 + self.ball_radius;
        let left_nudge: i64 = left_x + reach;
        let right_nudge: i64 = right_x - reach;
        (pad_min_y <= half_h && half_h <= pad_max_y)
            && (self.ball_radius <= half_h && half_h <= self.arena_height - self.ball_radius)
            && (self.ball_radius < half_w && half_w < self.arena_width - self.ball_radius)
            && half_w - left_x > reach
            && right_x - half_w > reach
            && (self.ball_radius < left_nudge && left_nudge < self.arena_width - self.ball_radius)
            && (self.ball_radius < right_nudge && right_nudge < self.arena_width - self.ball_radius)
            && right_x - left_nudge > reach
            && right_nudge - left_x > reach
    }
}

} // verus!
