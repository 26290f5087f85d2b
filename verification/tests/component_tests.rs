//! Component-level behavior: spawn timing, input sampling, configuration
//! validity, and the roaming character.

use pong_core::brave::BraveSystem;
use pong_core::config::ArenaConfig;
use pong_core::entities::Brave;
use pong_core::entities::Position;
use pong_core::input::AxisId;
use pong_core::input::InputSampler;
use pong_core::spawn::SpawnScheduler;
use pong_core::spawn::TimerResult;

#[test]
fn tick_reports_remaining_time() {
    // one second pending, 0.4 seconds pass: 0.6 seconds remain
    assert_eq!(SpawnScheduler::tick(1_000, 400), TimerResult::Pending(600));
}

#[test]
fn tick_fires_when_time_runs_out() {
    // 0.3 seconds pending, 0.4 seconds pass: the spawn is due
    assert_eq!(SpawnScheduler::tick(300, 400), TimerResult::Fire);
}

#[test]
fn tick_fires_exactly_on_time() {
    assert_eq!(SpawnScheduler::tick(400, 400), TimerResult::Fire);
}

#[test]
fn sample_keeps_missing_readings_distinct() {
    let input = InputSampler::new(None, Some(0), None, None);
    assert_eq!(input.sample(AxisId::PaddleLeft), None);
    assert_eq!(input.sample(AxisId::PaddleRight), Some(0));
}

#[test]
fn sample_clamps_out_of_range_readings() {
    let input = InputSampler::new(Some(5_000), Some(-5_000), Some(700), None);
    assert_eq!(input.sample(AxisId::PaddleLeft), Some(1_000));
    assert_eq!(input.sample(AxisId::PaddleRight), Some(-1_000));
    assert_eq!(input.sample(AxisId::BraveX), Some(700));
    assert_eq!(input.movement(AxisId::PaddleLeft), 1_000);
    assert_eq!(input.movement(AxisId::BraveY), 0);
}

#[test]
fn standard_config_is_valid() {
    let config = ArenaConfig::standard();
    assert!(config.is_valid());
    assert_eq!(config.arena_width, 100_000);
    assert_eq!(config.arena_height, 100_000);
    assert_eq!(config.paddle_width, 4_000);
    assert_eq!(config.paddle_height, 16_000);
    assert_eq!(config.ball_radius, 2_000);
}

#[test]
fn degenerate_configs_are_rejected() {
    let mut config = ArenaConfig::standard();
    config.ball_radius = 0;
    assert!(!config.is_valid());

    let mut config = ArenaConfig::standard();
    config.paddle_width = 60_000;  // the paddles would span the arena
    assert!(!config.is_valid());

    let mut config = ArenaConfig::standard();
    config.spawn_delay = 0;
    assert!(!config.is_valid());
}

#[test]
fn brave_roams_its_bound_axis() {
    let config = ArenaConfig::standard();
    let mut brave = Brave::new(Position::TransX, &config);
    assert_eq!((brave.x, brave.y), (50_000, 50_000));
    let input = InputSampler::new(None, None, Some(1_000), Some(-1_000));
    // full deflection at 50 units/s for 0.1 s slides the character 5 units
    let observed = BraveSystem::run(&mut brave, &input, 100, &config);
    assert_eq!(observed, Some((Position::TransX, 1_000)));
    assert_eq!((brave.x, brave.y), (55_000, 50_000));
}

#[test]
fn brave_vertical_component_reads_its_own_axis() {
    let config = ArenaConfig::standard();
    let mut brave = Brave::new(Position::TransY, &config);
    let input = InputSampler::new(None, None, Some(1_000), Some(-1_000));
    let observed = BraveSystem::run(&mut brave, &input, 100, &config);
    assert_eq!(observed, Some((Position::TransY, -1_000)));
    assert_eq!((brave.x, brave.y), (50_000, 45_000));
}

#[test]
fn brave_is_clamped_inside_the_arena() {
    let config = ArenaConfig::standard();
    let mut brave = Brave::new(Position::TransX, &config);
    let input = InputSampler::new(None, None, Some(-1_000), None);
    BraveSystem::run(&mut brave, &input, 1_000_000, &config);
    // the 4-unit-wide character stops with its edge on the left wall
    assert_eq!(brave.x, 2_000);
}

#[test]
fn brave_reports_nothing_without_deflection() {
    let config = ArenaConfig::standard();
    let mut brave = Brave::new(Position::TransX, &config);

    let centered = InputSampler::new(None, None, Some(0), None);
    assert_eq!(BraveSystem::run(&mut brave, &centered, 100, &config), None);
    assert_eq!(brave.x, 50_000);

    let missing = InputSampler::new(None, None, None, None);
    assert_eq!(BraveSystem::run(&mut brave, &missing, 100, &config), None);
    assert_eq!(brave.x, 50_000);
}
