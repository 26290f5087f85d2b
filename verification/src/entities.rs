//! Plain data for the entities of a round: the two paddles, the ball, and
//! the axis-driven roaming character.

use vstd::prelude::*;

use crate::config::ArenaConfig;
use crate::config::ConfigModel;
use crate::config::BRAVE_HEIGHT;
use crate::config::BRAVE_WIDTH;
use crate::config::COORD_LIMIT;

verus! {

/// Which end wall a paddle defends.
#[derive(Clone, Copy, Debug, PartialEq, Eq, Structural)]
pub enum Side {
    Left,
    Right,
}

/// A paddle: a fixed-width rectangle pinned to one end wall, free to slide
/// vertically inside the arena.
#[derive(Clone, Copy, Debug, PartialEq, Eq, Structural)]
pub struct Paddle {
    /// The end wall this paddle defends; fixed at creation.
    pub side: Side,
    /// Horizontal center, in milliunits; fixed by `side`.
    pub x: i64,
    /// Vertical center, in milliunits; moved by input.
    pub y: i64,
    /// Horizontal extent, in milliunits.
    pub width: i64,
    /// Vertical extent, in milliunits.
    pub height: i64,
}

/// The mathematical value of a [`Paddle`].
pub ghost struct PaddleModel {
    pub side: Side,
    pub x: int,
    pub y: int,
    pub width: int,
    pub height: int,
}

impl View for Paddle {
    type V = PaddleModel;

    open spec fn view(&self) -> PaddleModel {
        PaddleModel {
            side: self.side,
            x: self.x as int,
            y: self.y as int,
            width: self.width as int,
            height: self.height as int,
        }
    }
}

impl PaddleModel {
    /// A paddle as `advance` keeps it: dimensions copied from the
    /// configuration, horizontal center pinned to its side's wall, vertical
    /// center clamped inside the arena.
    pub open spec fn wf(self, c: ConfigModel) -> bool {
        &&& self.width == c.paddle_width
        &&& self.height == c.paddle_height
        &&& self.x == (match self.side {
            Side::Left => c.left_paddle_x(),
            Side::Right => c.right_paddle_x(),
        })
        &&& c.paddle_min_y() <= self.y <= c.paddle_max_y()
    }
}

/// The paddle of the given side as a round starts: resting at the vertical
/// center of the arena.
pub open spec fn initial_paddle(side: Side, c: ConfigModel) -> PaddleModel {
    PaddleModel {
        side: side,
        x: match side {
            Side::Left => c.left_paddle_x(),
            Side::Right => c.right_paddle_x(),
        },
        y: c.spawn_y(),
        width: c.paddle_width,
        height: c.paddle_height,
    }
}

impl Paddle {
    /// Builds the paddle of the given side, resting at the vertical center of
    /// the arena.
    pub fn new(side: Side, config: &ArenaConfig) -> (p: Paddle)
        requires
            config@.valid(),
        ensures
            p@ == initial_paddle(side, config@),
            p@.wf(config@),
    {
        let x: i64 = match side {
            Side::Left => config.paddle_width / 2,
            Side::Right => config.arena_width - config.paddle_width / 2,
        };
        Paddle {
            side: side,
            x: x,
            y: config.arena_height / 2,
            width: config.paddle_width,
            height: config.paddle_height,
        }
    }
}

/// The ball: a circle moving freely through the arena.
#[derive(Clone, Copy, Debug, PartialEq, Eq, Structural)]
pub struct Ball {
    /// Horizontal center, in milliunits.
    pub x: i64,
    /// Vertical center, in milliunits.
    pub y: i64,
    /// Horizontal velocity, in milliunits per second.
    pub vx: i64,
    /// Vertical velocity, in milliunits per second.
    pub vy: i64,
    /// Radius, in milliunits.
    pub radius: i64,
}

/// The mathematical value of a [`Ball`].
pub ghost struct BallModel {
    pub x: int,
    pub y: int,
    pub vx: int,
    pub vy: int,
    pub radius: int,
}

impl View for Ball {
    type V = BallModel;

    open spec fn view(&self) -> BallModel {
        BallModel {
            x: self.x as int,
            y: self.y as int,
            vx: self.vx as int,
            vy: self.vy as int,
            radius: self.radius as int,
        }
    }
}

impl BallModel {
    /// The square of the ball's speed.  Reflections preserve it exactly.
    pub open spec fn speed_sq(self) -> int {
        self.vx * self.vx + self.vy * self.vy
    }

    /// A ball `advance` can step without overflowing: radius copied from the
    /// configuration, vertical center inside the arena, coordinates and
    /// velocity components bounded.
    pub open spec fn wf(self, c: ConfigModel) -> bool {
        &&& self.radius == c.ball_radius
        &&& -COORD_LIMIT <= self.x <= COORD_LIMIT
        &&& c.ball_min_y() <= self.y <= c.ball_max_y()
        &&& -COORD_LIMIT <= self.vx <= COORD_LIMIT
        &&& -COORD_LIMIT <= self.vy <= COORD_LIMIT
    }
}

/// The ball as it spawns: at the arena center, carrying the configured
/// initial velocity.
pub open spec fn spawn_ball(c: ConfigModel) -> BallModel {
    BallModel {
        x: c.spawn_x(),
        y: c.spawn_y(),
        vx: c.ball_velocity_x,
        vy: c.ball_velocity_y,
        radius: c.ball_radius,
    }
}

impl Ball {
    /// Builds the ball as it spawns at the arena center.
    pub fn spawn(config: &ArenaConfig) -> (b: Ball)
        requires
            config@.valid(),
        ensures
            b@ == spawn_ball(config@),
            b@.wf(config@),
    {
        Ball {
            x: config.arena_width / 2,
            y: config.arena_height / 2,
            vx: config.ball_velocity_x,
            vy: config.ball_velocity_y,
            radius: config.ball_radius,
        }
    }
}

/// The movement axis a [`Brave`] component binds: the character carries one
/// component per axis it can roam along.
#[derive(Clone, Copy, Debug, PartialEq, Eq, Structural)]
pub enum Position {
    /// Horizontal roaming.
    TransX,
    /// Vertical roaming.
    TransY,
}

/// The axis-driven roaming character: a rectangle that slides along one
/// bound axis, clamped inside the arena.
#[derive(Clone, Copy, Debug, PartialEq, Eq, Structural)]
pub struct Brave {
    /// The movement axis this component binds; fixed at creation.
    pub position: Position,
    /// Horizontal center, in milliunits.
    pub x: i64,
    /// Vertical center, in milliunits.
    pub y: i64,
    /// Horizontal extent, in milliunits.
    pub width: i64,
    /// Vertical extent, in milliunits.
    pub height: i64,
}

/// The mathematical value of a [`Brave`].
pub ghost struct BraveModel {
    pub position: Position,
    pub x: int,
    pub y: int,
    pub width: int,
    pub height: int,
}

impl View for Brave {
    type V = BraveModel;

    open spec fn view(&self) -> BraveModel {
        BraveModel {
            position: self.position,
            x: self.x as int,
            y: self.y as int,
            width: self.width as int,
            height: self.height as int,
        }
    }
}

impl BraveModel {
    /// A character the mover can step without overflowing: bounded
    /// dimensions, both centers clamped inside the arena.
    pub open spec fn wf(self, c: ConfigModel) -> bool {
        &&& 1 <= self.width <= COORD_LIMIT
        &&& 1 <= self.height <= COORD_LIMIT
        &&& self.width / 2 <= self.x <= c.arena_width - self.width / 2
        &&& self.height / 2 <= self.y <= c.arena_height - self.height / 2
    }
}

/// The character as a round starts: at the arena center, with the standard
/// character dimensions.
pub open spec fn initial_brave(position: Position, c: ConfigModel) -> BraveModel {
    BraveModel {
        position: position,
        x: c.spawn_x(),
        y: c.spawn_y(),
        width: BRAVE_WIDTH as int,
        height: BRAVE_HEIGHT as int,
    }
}

impl Brave {
    /// Builds a roaming-character component bound to the given axis, resting
    /// at the arena center.
    pub fn new(position: Position, config: &ArenaConfig) -> (b: Brave)
        requires
            config@.valid(),
            BRAVE_WIDTH / 2 <= config@.spawn_x() <= config@.arena_width - BRAVE_WIDTH / 2,
            BRAVE_HEIGHT / 2 <= config@.spawn_y() <= config@.arena_height - BRAVE_HEIGHT / 2,
        ensures
            b@ == initial_brave(position, config@),
            b@.wf(config@),
    {
        Brave {
            position: position,
            x: config.arena_width / 2,
            y: config.arena_height / 2,
            width: BRAVE_WIDTH,
            height: BRAVE_HEIGHT,
        }
    }
}

} // verus!
