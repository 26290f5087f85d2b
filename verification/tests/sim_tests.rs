//! Frame-step scenarios: spawning, movement, collisions and scoring.

use pong_core::config::ArenaConfig;
use pong_core::entities::Ball;
use pong_core::entities::Paddle;
use pong_core::entities::Side;
use pong_core::input::InputSampler;
use pong_core::sim::advance;
use pong_core::sim::Event;
use pong_core::sim::RoundState;

fn idle_input() -> InputSampler {
    InputSampler::new(None, None, None, None)
}

fn in_play(config: ArenaConfig, ball: Ball, left_y: i64, right_y: i64) -> RoundState {
    let mut left = Paddle::new(Side::Left, &config);
    left.y = left_y;
    let mut right = Paddle::new(Side::Right, &config);
    right.y = right_y;
    RoundState {
        config,
        paddle_left: left,
        paddle_right: right,
        ball: Some(ball),
        spawn_timer: None,
        score_left: 0,
        score_right: 0,
    }
}

#[test]
fn spawn_counts_down_then_fires() {
    let config = ArenaConfig::standard();
    let mut state = RoundState::new(config);
    assert_eq!(state.spawn_timer, Some(1_000));
    assert!(state.ball.is_none());

    let events = advance(&mut state, 400, &idle_input());
    assert_eq!(events, vec![]);
    assert_eq!(state.spawn_timer, Some(600));
    assert!(state.ball.is_none());

    let events = advance(&mut state, 600, &idle_input());
    assert_eq!(events, vec![Event::BallSpawned]);
    assert_eq!(state.spawn_timer, None);
    let ball = state.ball.expect("ball spawns when the countdown elapses");
    assert_eq!((ball.x, ball.y), (50_000, 50_000));
    assert_eq!((ball.vx, ball.vy), (75_000, 50_000));
    assert_eq!(ball.radius, 2_000);
}

#[test]
fn ball_moves_by_velocity_times_dt() {
    let config = ArenaConfig::standard();
    let ball = Ball::spawn(&config);
    let mut state = in_play(config, ball, 50_000, 50_000);
    let events = advance(&mut state, 20, &idle_input());
    assert_eq!(events, vec![]);
    let ball = state.ball.unwrap();
    assert_eq!(ball.x, 51_500);
    assert_eq!(ball.y, 51_000);
}

#[test]
fn right_scores_at_left_wall() {
    // A ball just short of the left wall, flying left past a raised paddle:
    // one frame later its edge is over the wall and the right side scores.
    let config = ArenaConfig::standard();
    let ball = Ball { x: 1_000, y: 50_000, vx: -75_000, vy: 0, radius: 2_000 };
    let mut state = in_play(config, ball, 8_000, 50_000);
    let events = advance(&mut state, 20, &idle_input());
    assert_eq!(events, vec![Event::Scored { side: Side::Right }]);
    assert!(state.ball.is_none());
    assert_eq!(state.spawn_timer, Some(1_000));
    assert_eq!(state.score_right, 1);
    assert_eq!(state.score_left, 0);
}

#[test]
fn left_scores_at_right_wall() {
    let config = ArenaConfig::standard();
    let ball = Ball { x: 99_000, y: 50_000, vx: 75_000, vy: 0, radius: 2_000 };
    let mut state = in_play(config, ball, 50_000, 8_000);
    let events = advance(&mut state, 20, &idle_input());
    assert_eq!(events, vec![Event::Scored { side: Side::Left }]);
    assert!(state.ball.is_none());
    assert_eq!(state.spawn_timer, Some(1_000));
    assert_eq!(state.score_left, 1);
    assert_eq!(state.score_right, 0);
}

#[test]
fn ball_bounces_off_left_paddle() {
    // Left paddle centered at x = 2000 with width 4000: its inner edge is at
    // 4000.  The overlapping ball's horizontal velocity is reflected and its
    // center nudged to the edge plus its radius.
    let config = ArenaConfig::standard();
    let ball = Ball { x: 6_000, y: 50_000, vx: -75_000, vy: 0, radius: 2_000 };
    let mut state = in_play(config, ball, 50_000, 50_000);
    let events = advance(&mut state, 20, &idle_input());
    assert_eq!(events, vec![]);
    let ball = state.ball.unwrap();
    assert!(ball.x >= 4_000 + 2_000);
    assert_eq!(ball.x, 6_000);
    assert_eq!(ball.vx, 75_000);
    assert_eq!(ball.y, 50_000);
}

#[test]
fn ball_reflects_off_ceiling() {
    let config = ArenaConfig::standard();
    let ball = Ball { x: 50_000, y: 97_900, vx: 0, vy: 50_000, radius: 2_000 };
    let mut state = in_play(config, ball, 50_000, 50_000);
    let events = advance(&mut state, 20, &idle_input());
    assert_eq!(events, vec![]);
    let ball = state.ball.unwrap();
    // integration overshoots to 98900; contact reflects vy and clamps y back
    assert_eq!(ball.y, 98_000);
    assert_eq!(ball.vy, -50_000);
}

#[test]
fn reflections_keep_speed() {
    let config = ArenaConfig::standard();
    let before = Ball { x: 50_000, y: 97_900, vx: 75_000, vy: 50_000, radius: 2_000 };
    let speed_sq_before = before.vx * before.vx + before.vy * before.vy;
    let mut state = in_play(config, before, 50_000, 50_000);
    advance(&mut state, 20, &idle_input());
    let after = state.ball.unwrap();
    assert_eq!(after.vy, -50_000);
    assert_eq!(after.vx * after.vx + after.vy * after.vy, speed_sq_before);
}

#[test]
fn paddles_move_and_report() {
    let config = ArenaConfig::standard();
    let mut state = RoundState::new(config);
    let input = InputSampler::new(Some(1_000), Some(-1_000), None, None);
    let events = advance(&mut state, 20, &input);
    // full deflection at 50 units/s for 20 ms slides a paddle by one unit
    assert_eq!(state.paddle_left.y, 51_000);
    assert_eq!(state.paddle_right.y, 49_000);
    assert_eq!(
        events,
        vec![
            Event::PaddleMoved { side: Side::Left },
            Event::PaddleMoved { side: Side::Right },
        ]
    );
}

#[test]
fn zero_axis_input_leaves_paddles() {
    let config = ArenaConfig::standard();
    let mut state = RoundState::new(config);
    // a centered, active reading moves nothing, exactly like a missing one
    let input = InputSampler::new(Some(0), Some(0), None, None);
    let events = advance(&mut state, 1_000_000, &input);
    assert_eq!(state.paddle_left.y, 50_000);
    assert_eq!(state.paddle_right.y, 50_000);
    assert!(!events.contains(&Event::PaddleMoved { side: Side::Left }));
    assert!(!events.contains(&Event::PaddleMoved { side: Side::Right }));
}

#[test]
fn paddle_clamps_at_arena_edges() {
    let config = ArenaConfig::standard();
    let mut state = RoundState::new(config);
    // a long full-deflection slide stops at the top of the range...
    let input = InputSampler::new(Some(1_000), Some(-1_000), None, None);
    advance(&mut state, 1_000_000, &input);
    assert_eq!(state.paddle_left.y, 92_000);
    assert_eq!(state.paddle_right.y, 8_000);
    // ...and pressing further changes nothing, so no movement is reported
    let events = advance(&mut state, 1_000_000, &input);
    assert_eq!(state.paddle_left.y, 92_000);
    assert_eq!(state.paddle_right.y, 8_000);
    assert!(!events.contains(&Event::PaddleMoved { side: Side::Left }));
    assert!(!events.contains(&Event::PaddleMoved { side: Side::Right }));
}

#[test]
fn zero_dt_changes_nothing() {
    let config = ArenaConfig::standard();
    let ball = Ball::spawn(&config);
    let mut state = in_play(config, ball, 50_000, 50_000);
    let input = InputSampler::new(Some(1_000), Some(1_000), None, None);
    let events = advance(&mut state, 0, &input);
    assert_eq!(events, vec![]);
    let ball = state.ball.unwrap();
    assert_eq!((ball.x, ball.y), (50_000, 50_000));
    assert_eq!(state.paddle_left.y, 50_000);
    assert_eq!(state.paddle_right.y, 50_000);

    let mut fresh = RoundState::new(config);
    let events = advance(&mut fresh, 0, &input);
    assert_eq!(events, vec![]);
    assert_eq!(fresh.spawn_timer, Some(1_000));
}

#[test]
fn scoring_starts_a_new_countdown_round() {
    let config = ArenaConfig::standard();
    let ball = Ball { x: 1_000, y: 50_000, vx: -75_000, vy: 0, radius: 2_000 };
    let mut state = in_play(config, ball, 8_000, 50_000);
    advance(&mut state, 20, &idle_input());
    // the next round spawns a fresh ball after the full delay
    let events = advance(&mut state, 1_000, &idle_input());
    assert_eq!(events, vec![Event::BallSpawned]);
    let ball = state.ball.unwrap();
    assert_eq!((ball.x, ball.y), (50_000, 50_000));
    assert_eq!(state.score_right, 1);
}
