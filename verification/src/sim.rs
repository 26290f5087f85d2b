//! The per-frame simulation step.
//!
//! [`advance`] applies the sampled input to both paddles, counts a pending
//! spawn down (spawning the ball when it is due), integrates the ball's
//! motion, resolves wall and paddle collisions by pure reflection, and scores
//! when the ball crosses an end wall.  Within one step, wall collision is
//! resolved first and paddle collision second, on the post-reflection
//! position; the step is order-dependent by design so that its behavior can
//! be pinned exactly.
//!
//! The whole step is specified by [`round_after`] and [`events_after`]: pure
//! functions from the mathematical value of the state, the elapsed time and
//! the frame's input to the next value and the emitted events.

use vstd::prelude::*;

use crate::config::ArenaConfig;
use crate::config::ConfigModel;
use crate::config::AXIS_LIMIT;
use crate::config::DT_LIMIT;
use crate::config::SCALE;
use crate::entities::initial_paddle;
use crate::entities::spawn_ball;
use crate::entities::Ball;
use crate::entities::BallModel;
use crate::entities::Paddle;
use crate::entities::PaddleModel;
use crate::entities::Side;
use crate::fixed::clamp;
use crate::fixed::clamped;
use crate::fixed::displacement;
use crate::fixed::paddle_delta;
use crate::fixed::scaled;
use crate::input::AxisId;
use crate::input::InputModel;
use crate::input::InputSampler;
use crate::spawn::timer_fires;
use crate::spawn::SpawnScheduler;
use crate::spawn::TimerResult;

verus! {

/// What one `advance` call reported to the host.
#[derive(Clone, Copy, Debug, PartialEq, Eq, Structural)]
pub enum Event {
    /// The paddle of the given side ended the frame at a new position.
    PaddleMoved { side: Side },
    /// The pending spawn fired: the ball appeared at the arena center.
    BallSpawned,
    /// The ball crossed an end wall; the given side took the point and the
    /// ball was destroyed.
    Scored { side: Side },
}

/// One round of play: the two paddles, the ball or the countdown to its
/// spawn, and the score.
pub struct RoundState {
    /// The geometry and motion constants of the match.
    pub config: ArenaConfig,
    /// The paddle defending the left wall.
    pub paddle_left: Paddle,
    /// The paddle defending the right wall.
    pub paddle_right: Paddle,
    /// The ball, while one is in play.
    pub ball: Option<Ball>,
    /// Milliseconds until the ball spawns, while none is in play.
    pub spawn_timer: Option<i64>,
    /// Points taken by the left side.
    pub score_left: u32,
    /// Points taken by the right side.
    pub score_right: u32,
}

/// The mathematical value of a [`RoundState`].
pub ghost struct RoundModel {
    pub config: ConfigModel,
    pub paddle_left: PaddleModel,
    pub paddle_right: PaddleModel,
    pub ball: Option<BallModel>,
    pub spawn_timer: Option<int>,
    pub score_left: int,
    pub score_right: int,
}

impl View for RoundState {
    type V = RoundModel;

    open spec fn view(&self) -> RoundModel {
        RoundModel {
            config: self.config@,
            paddle_left: self.paddle_left@,
            paddle_right: self.paddle_right@,
            ball: match self.ball {
                Some(b) => Some(b@),
                None => None,
            },
            spawn_timer: match self.spawn_timer {
                Some(t) => Some(t as int),
                None => None,
            },
            score_left: self.score_left as int,
            score_right: self.score_right as int,
        }
    }
}

/// The paddle after one frame of movement: its center slides by
/// `mv * paddle_speed * dt`, at the fixed-point scale, and is clamped inside
/// the arena.
pub open spec fn paddle_moved(p: PaddleModel, mv: int, dt: int, c: ConfigModel) -> PaddleModel {
    PaddleModel {
        y: clamped(
            p.y + scaled(mv * c.paddle_speed, dt, SCALE * SCALE),
            c.paddle_min_y(),
            c.paddle_max_y(),
        ),
        ..p
    }
}

/// The ball after one frame of motion, before any collision is resolved.
pub open spec fn ball_integrated(b: BallModel, dt: int) -> BallModel {
    BallModel {
        x: b.x + scaled(b.vx, dt, SCALE as int),
        y: b.y + scaled(b.vy, dt, SCALE as int),
        ..b
    }
}

/// Whether the ball touches or has crossed the floor or the ceiling.
pub open spec fn hits_wall(b: BallModel, c: ConfigModel) -> bool {
    b.y - b.radius <= 0 || b.y + b.radius >= c.arena_height
}

/// The ball after vertical wall resolution: on contact, its vertical
/// velocity is reflected and its center is clamped back inside the arena, so
/// a discrete-step overshoot cannot leave it sunk into a wall.
pub open spec fn ball_wall_resolved(b: BallModel, c: ConfigModel) -> BallModel {
    if hits_wall(b, c) {
        BallModel { y: clamped(b.y, c.ball_min_y(), c.ball_max_y()), vy: -b.vy, ..b }
    } else {
        b
    }
}

/// Whether the ball's bounding circle overlaps the paddle's rectangle, by
/// the axis-aligned test: each center distance within the summed
/// half-extents.
pub open spec fn overlaps(b: BallModel, p: PaddleModel) -> bool {
    &&& -(p.width / 2 + b.radius) <= b.x - p.x <= p.width / 2 + b.radius
    &&& -(p.height / 2 + b.radius) <= b.y - p.y <= p.height / 2 + b.radius
}

/// The ball center after being pushed just clear of the paddle's inner edge:
/// to its right for the left paddle, to its left for the right paddle.
pub open spec fn bounce_x(b: BallModel, p: PaddleModel) -> int {
    match p.side {
        Side::Left => p.x + p.width / 2 + b.radius,
        Side::Right => p.x - p.width / 2 - b.radius,
    }
}

/// The ball after paddle resolution: on overlap, its horizontal velocity is
/// reflected and its center is nudged clear of the paddle, so the same
/// contact cannot re-collide next frame.  At most one paddle is resolved per
/// step, the left one first.
pub open spec fn ball_paddles_resolved(
    b: BallModel,
    left: PaddleModel,
    right: PaddleModel,
) -> BallModel {
    if overlaps(b, left) {
        BallModel { x: bounce_x(b, left), vx: -b.vx, ..b }
    } else if overlaps(b, right) {
        BallModel { x: bounce_x(b, right), vx: -b.vx, ..b }
    } else {
        b
    }
}

/// The ball at the end of a frame: integrated, then wall-resolved, then
/// paddle-resolved against the already-moved paddles.
pub open spec fn ball_resolved(
    b: BallModel,
    left: PaddleModel,
    right: PaddleModel,
    c: ConfigModel,
    dt: int,
) -> BallModel {
    ball_paddles_resolved(ball_wall_resolved(ball_integrated(b, dt), c), left, right)
}

/// The side that takes a point from the resolved ball position, if it
/// crossed an end wall: the right side scores at the left wall and the left
/// side at the right wall.
pub open spec fn scoring_side(b: BallModel, c: ConfigModel) -> Option<Side> {
    if b.x - b.radius <= 0 {
        Some(Side::Right)
    } else if b.x + b.radius >= c.arena_width {
        Some(Side::Left)
    } else {
        None
    }
}

/// The state after one `advance` by `dt` milliseconds under the frame's
/// input.
pub open spec fn round_after(s: RoundModel, dt: int, inp: InputModel) -> RoundModel {
    let c = s.config;
    let left = paddle_moved(s.paddle_left, inp.movement_of(AxisId::PaddleLeft), dt, c);
    let right = paddle_moved(s.paddle_right, inp.movement_of(AxisId::PaddleRight), dt, c);
    match s.ball {
        None => match s.spawn_timer {
            Some(t) => if timer_fires(t, dt) {
                RoundModel {
                    paddle_left: left,
                    paddle_right: right,
                    ball: Some(spawn_ball(c)),
                    spawn_timer: None,
                    ..s
                }
            } else {
                RoundModel {
                    paddle_left: left,
                    paddle_right: right,
                    spawn_timer: Some(t - dt),
                    ..s
                }
            },
            None => RoundModel { paddle_left: left, paddle_right: right, ..s },
        },
        Some(b) => {
            let rb = ball_resolved(b, left, right, c, dt);
            match scoring_side(rb, c) {
                Some(Side::Right) => RoundModel {
                    paddle_left: left,
                    paddle_right: right,
                    ball: None,
                    spawn_timer: Some(c.spawn_delay),
                    score_right: s.score_right + 1,
                    ..s
                },
                Some(Side::Left) => RoundModel {
                    paddle_left: left,
                    paddle_right: right,
                    ball: None,
                    spawn_timer: Some(c.spawn_delay),
                    score_left: s.score_left + 1,
                    ..s
                },
                None => RoundModel {
                    paddle_left: left,
                    paddle_right: right,
                    ball: Some(rb),
                    ..s
                },
            }
        },
    }
}

/// The events of one `advance`: a movement event per paddle that ended the
/// frame at a new position, left before right, then the frame's spawn or
/// score event if any.
pub open spec fn events_after(s: RoundModel, dt: int, inp: InputModel) -> Seq<Event> {
    let c = s.config;
    let left = paddle_moved(s.paddle_left, inp.movement_of(AxisId::PaddleLeft), dt, c);
    let right = paddle_moved(s.paddle_right, inp.movement_of(AxisId::PaddleRight), dt, c);
    let left_events: Seq<Event> = if left.y != s.paddle_left.y {
        seq![Event::PaddleMoved { side: Side::Left }]
    } else {
        Seq::empty()
    };
    let right_events: Seq<Event> = if right.y != s.paddle_right.y {
        seq![Event::PaddleMoved { side: Side::Right }]
    } else {
        Seq::empty()
    };
    let ball_events: Seq<Event> = match s.ball {
        None => match s.spawn_timer {
            Some(t) => if timer_fires(t, dt) {
                seq![Event::BallSpawned]
            } else {
                Seq::empty()
            },
            None => Seq::empty(),
        },
        Some(b) => match scoring_side(ball_resolved(b, left, right, c, dt), c) {
            Some(side) => seq![Event::Scored { side }],
            None => Seq::empty(),
        },
    };
    left_events + right_events + ball_events
}

impl RoundModel {
    /// The invariant `advance` keeps: a valid geometry, each paddle well
    /// formed on its own side, exactly one of ball and spawn countdown
    /// present, a well-formed ball, a positive bounded countdown, and scores
    /// that fit their counters.
    pub open spec fn inv(self) -> bool {
        &&& self.config.valid()
        &&& self.paddle_left.wf(self.config)
        &&& self.paddle_left.side == Side::Left
        &&& self.paddle_right.wf(self.config)
        &&& self.paddle_right.side == Side::Right
        &&& (self.ball is Some) <==> (self.spawn_timer is None)
        &&& (self.ball matches Some(b) ==> b.wf(self.config))
        &&& (self.spawn_timer matches Some(t) ==> 0 < t <= DT_LIMIT)
        &&& 0 <= self.score_left <= u32::MAX
        &&& 0 <= self.score_right <= u32::MAX
    }

    /// A state as `advance` leaves it: a ball in play rests strictly inside
    /// both end walls, and any paddle contact it still has is already
    /// resolved (the ball sits exactly on the bounce position), so a
    /// zero-time step moves nothing.
    pub open spec fn settled(self) -> bool {
        self.ball matches Some(b) ==> {
            &&& b.radius < b.x < self.config.arena_width - b.radius
            &&& !overlaps(b, self.paddle_left) || b.x == bounce_x(b, self.paddle_left)
            &&& !overlaps(b, self.paddle_right) || b.x == bounce_x(b, self.paddle_right)
        }
    }
}

/// A round as it starts: paddles resting at the vertical center, no ball,
/// the spawn countdown at the configured delay, no points taken.
pub open spec fn initial_round(c: ConfigModel) -> RoundModel {
    RoundModel {
        config: c,
        paddle_left: initial_paddle(Side::Left, c),
        paddle_right: initial_paddle(Side::Right, c),
        ball: None,
        spawn_timer: Some(c.spawn_delay),
        score_left: 0,
        score_right: 0,
    }
}

impl RoundState {
    /// Starts a round: paddles at rest, the ball due after the configured
    /// delay, no points taken.
    pub fn new(config: ArenaConfig) -> (s: RoundState)
        requires
            config@.valid(),
        ensures
            s@ == initial_round(config@),
            s@.inv(),
            s@.settled(),
    {
        let s = RoundState {
            config,
            paddle_left: Paddle::new(Side::Left, &config),
            paddle_right: Paddle::new(Side::Right, &config),
            ball: None,
            spawn_timer: Some(config.spawn_delay),
            score_left: 0,
            score_right: 0,
        };
        s
    }
}

/// Applies one frame of movement to a paddle; reports whether its center
/// actually changed.
fn step_paddle(p: &mut Paddle, mv: i64, dt: i64, config: &ArenaConfig) -> (moved: bool)
    requires
        config@.valid(),
        old(p)@.wf(config@),
        -AXIS_LIMIT <= mv <= AXIS_LIMIT,
        0 <= dt <= DT_LIMIT,
    ensures
        final(p)@ == paddle_moved(old(p)@, mv as int, dt as int, config@),
        final(p)@.wf(config@),
        moved == (final(p)@.y != old(p)@.y),
{
    let delta = paddle_delta(mv, config.paddle_speed, dt);
    let min_y = config.paddle_height / 2;
    let max_y = config.arena_height - config.paddle_height / 2;
    let new_y = clamp(p.y + delta, min_y, max_y);
    let moved = new_y != p.y;
    p.y = new_y;
    moved
}

/// Integrates the ball over `dt` and resolves wall and paddle collisions,
/// against the paddles as they stand after this frame's movement.
fn resolve_ball(b: Ball, left: &Paddle, right: &Paddle, config: &ArenaConfig, dt: i64) -> (r: Ball)
    requires
        config@.valid(),
        b@.wf(config@),
        left@.wf(config@),
        left@.side == Side::Left,
        right@.wf(config@),
        right@.side == Side::Right,
        0 <= dt <= DT_LIMIT,
    ensures
        r@ == ball_resolved(b@, left@, right@, config@, dt as int),
        -2_000_000_000 <= r.x <= 2_000_000_000,
        -2_000_000_000 <= r.y <= 2_000_000_000,
        r.radius == b.radius,
{
    let dx = displacement(b.vx, dt);
    let dy = displacement(b.vy, dt);
    let mut x = b.x + dx;
    let mut y = b.y + dy;
    let mut vx = b.vx;
    let mut vy = b.vy;
    // vertical walls first, on the integrated position
    if y - b.radius <= 0 || y + b.radius >= config.arena_height {
        vy = -vy;
        y = clamp(y, config.ball_radius, config.arena_height - config.ball_radius);
    }
    // then the paddles, on the post-reflection position, left before right
    let left_reach_x = left.width / 2 + b.radius;
    let left_reach_y = left.height / 2 + b.radius;
    let right_reach_x = right.width / 2 + b.radius;
    let right_reach_y = right.height / 2 + b.radius;
    if -left_reach_x <= x - left.x && x - left.x <= left_reach_x && -left_reach_y <= y - left.y
        && y - left.y <= left_reach_y {
        vx = -vx;
        x = left.x + left.width / 2 + b.radius;
    } else if -right_reach_x <= x - right.x && x - right.x <= right_reach_x && -right_reach_y <= y
        - right.y && y - right.y <= right_reach_y {
        vx = -vx;
        x = right.x - right.width / 2 - b.radius;
    }
    Ball { x, y, vx, vy, radius: b.radius }
}

/// Advances the round by `dt` milliseconds under the frame's input: moves
/// the paddles, counts a pending spawn down and spawns the ball when due, or
/// integrates the ball, resolves its collisions and scores an end-wall
/// crossing.  Returns the frame's events; the whole step equals
/// [`round_after`] and [`events_after`] on the state's mathematical value.
pub fn advance(state: &mut RoundState, dt: i64, input: &InputSampler) -> (events: Vec<Event>)
    requires
        old(state)@.inv(),
        0 <= dt <= DT_LIMIT,
        old(state)@.score_left < u32::MAX,
        old(state)@.score_right < u32::MAX,
    ensures
        final(state)@ == round_after(old(state)@, dt as int, input@),
        events@ == events_after(old(state)@, dt as int, input@),
        final(state)@.inv(),
        final(state)@.settled(),
{
    let ghost s0 = state@;
    let config = state.config;
    let mut events: Vec<Event> = Vec::new();

    // paddle movement
    let mv_left = input.movement(AxisId::PaddleLeft);
    let moved_left = step_paddle(&mut state.paddle_left, mv_left, dt, &config);
    if moved_left {
        events.push(Event::PaddleMoved { side: Side::Left });
    }
    let mv_right = input.movement(AxisId::PaddleRight);
    let moved_right = step_paddle(&mut state.paddle_right, mv_right, dt, &config);
    if moved_right {
        events.push(Event::PaddleMoved { side: Side::Right });
    }

    // ball integration and collisions, or the spawn countdown
    match state.ball {
        None => {
            if let Some(t) = state.spawn_timer {
                match SpawnScheduler::tick(t, dt) {
                    TimerResult::Pending(remaining) => {
                        state.spawn_timer = Some(remaining);
                    },
                    TimerResult::Fire => {
                        state.spawn_timer = None;
                        state.ball = Some(Ball::spawn(&config));
                        events.push(Event::BallSpawned);
                    },
                }
            }
        },
        Some(ball0) => {
            let resolved = resolve_ball(
                ball0,
                &state.paddle_left,
                &state.paddle_right,
                &config,
                dt,
            );
            if resolved.x - resolved.radius <= 0 {
                state.ball = None;
                state.spawn_timer = Some(config.spawn_delay);
                state.score_right = state.score_right + 1;
                events.push(Event::Scored { side: Side::Right });
            } else if resolved.x + resolved.radius >= config.arena_width {
                state.ball = None;
                state.spawn_timer = Some(config.spawn_delay);
                state.score_left = state.score_left + 1;
                events.push(Event::Scored { side: Side::Left });
            } else {
                state.ball = Some(resolved);
            }
        },
    }
    proof {
        assert(events@ =~= events_after(s0, dt as int, input@));
    }
    events
}

/// For every elapsed time and zero movement on both paddle axes — whether
/// the axes read `None` or a centered `0` — a step leaves both paddle
/// centers where they were.
pub proof fn lemma_zero_input_keeps_paddles(s: RoundModel, dt: int, inp: InputModel)
    requires
        s.inv(),
        0 <= dt,
        inp.movement_of(AxisId::PaddleLeft) == 0,
        inp.movement_of(AxisId::PaddleRight) == 0,
    ensures
        round_after(s, dt, inp).paddle_left == s.paddle_left,
        round_after(s, dt, inp).paddle_right == s.paddle_right,
{
    assert(scaled(0 * s.config.paddle_speed, dt, SCALE * SCALE) == 0);
}

/// For every starting center and every movement — however extreme the
/// deflection or the elapsed time — the paddle center after a step lies
/// within the arena's paddle range.
pub proof fn lemma_paddle_stays_in_bounds(p: PaddleModel, mv: int, dt: int, c: ConfigModel)
    requires
        c.valid(),
    ensures
        c.paddle_min_y() <= paddle_moved(p, mv, dt, c).y <= c.paddle_max_y(),
{
}

/// Reflections conserve energy: wall and paddle resolution only ever negate
/// one velocity component, so the resolved ball keeps its squared speed
/// exactly.
pub proof fn lemma_resolution_preserves_speed(
    b: BallModel,
    left: PaddleModel,
    right: PaddleModel,
    c: ConfigModel,
    dt: int,
)
    ensures
        ball_resolved(b, left, right, c, dt).speed_sq() == b.speed_sq(),
{
    let rb = ball_resolved(b, left, right, c, dt);
    assert(rb.vx == b.vx || rb.vx == -b.vx);
    assert(rb.vy == b.vy || rb.vy == -b.vy);
    assert((-b.vx) * (-b.vx) == b.vx * b.vx) by (nonlinear_arith);
    assert((-b.vy) * (-b.vy) == b.vy * b.vy) by (nonlinear_arith);
}

/// Across a whole step, a ball that stays in play keeps its squared speed:
/// however many reflections the frame resolved, no energy is lost or
/// gained.
pub proof fn lemma_step_preserves_speed(s: RoundModel, dt: int, inp: InputModel)
    requires
        s.ball is Some,
        round_after(s, dt, inp).ball is Some,
    ensures
        round_after(s, dt, inp).ball->0.speed_sq() == s.ball->0.speed_sq(),
{
    let c = s.config;
    let left = paddle_moved(s.paddle_left, inp.movement_of(AxisId::PaddleLeft), dt, c);
    let right = paddle_moved(s.paddle_right, inp.movement_of(AxisId::PaddleRight), dt, c);
    lemma_resolution_preserves_speed(s.ball->0, left, right, c, dt);
}

/// The state after a whole run of frames, each a pair of elapsed time and
/// input, applied in order.
pub open spec fn rounds_after(s: RoundModel, frames: Seq<(int, InputModel)>) -> RoundModel
    decreases frames.len(),
{
    if frames.len() == 0 {
        s
    } else {
        rounds_after(round_after(s, frames.first().0, frames.first().1), frames.drop_first())
    }
}

/// Whether a ball is in play now and stays in play through a whole run of
/// frames: no frame of the run scores.
pub open spec fn ball_in_play_throughout(s: RoundModel, frames: Seq<(int, InputModel)>) -> bool
    decreases frames.len(),
{
    &&& s.ball is Some
    &&& (frames.len() > 0 ==> ball_in_play_throughout(
        round_after(s, frames.first().0, frames.first().1),
        frames.drop_first(),
    ))
}

/// Energy conservation over a whole run: across any number of frames, and
/// so any number of wall and paddle reflections, a ball that stays in play
/// keeps its squared speed exactly.
pub proof fn lemma_speed_invariant_over_frames(s: RoundModel, frames: Seq<(int, InputModel)>)
    requires
        ball_in_play_throughout(s, frames),
    ensures
        rounds_after(s, frames).ball is Some,
        rounds_after(s, frames).ball->0.speed_sq() == s.ball->0.speed_sq(),
    decreases frames.len(),
{
    if frames.len() > 0 {
        let s1 = round_after(s, frames.first().0, frames.first().1);
        assert(ball_in_play_throughout(s1, frames.drop_first()));
        assert(s1.ball is Some);
        lemma_step_preserves_speed(s, frames.first().0, frames.first().1);
        lemma_speed_invariant_over_frames(s1, frames.drop_first());
    }
}

/// A zero-time step is a no-op: it moves no paddle, keeps the ball (if any)
/// at its position, leaves a pending countdown as it is, and emits no event.
pub proof fn lemma_zero_dt_is_noop(s: RoundModel, inp: InputModel)
    requires
        s.inv(),
        s.settled(),
    ensures
        round_after(s, 0, inp).paddle_left.y == s.paddle_left.y,
        round_after(s, 0, inp).paddle_right.y == s.paddle_right.y,
        s.ball is None ==> round_after(s, 0, inp) == s,
        s.ball matches Some(b) ==> round_after(s, 0, inp).ball is Some
            && round_after(s, 0, inp).ball->0.x == b.x && round_after(s, 0, inp).ball->0.y == b.y,
        events_after(s, 0, inp) == Seq::<Event>::empty(),
{
    let c = s.config;
    assert(scaled(inp.movement_of(AxisId::PaddleLeft) * c.paddle_speed, 0, SCALE * SCALE) == 0);
    assert(scaled(inp.movement_of(AxisId::PaddleRight) * c.paddle_speed, 0, SCALE * SCALE) == 0);
    if s.ball is Some {
        let b = s.ball->0;
        assert(scaled(b.vx, 0, SCALE as int) == 0);
        assert(scaled(b.vy, 0, SCALE as int) == 0);
    }
    assert(events_after(s, 0, inp) =~= Seq::<Event>::empty());
}

} // verus!

