use pong_core::fx;
use pong_core::physics::Physics;
use pong_core::{Ball, Config, Input, Paddle, Side, Vec2, FX_ONE};

#[test]
fn test_paddle_movement() {
    let config = Config::default();
    let mut paddle = Paddle::new(FX_ONE / 2);

    // Test upward movement
    let input_up = Input::new(127, 0); // Maximum up
    Physics::update_paddle(&mut paddle, &input_up, &config);

    assert!(paddle.vy > 0); // Should have positive velocity

    // Test downward movement
    let input_down = Input::new(-127, 0); // Maximum down
    Physics::update_paddle(&mut paddle, &input_down, &config);

    assert!(paddle.vy < 0); // Should have negative velocity

    // Test no input
    let input_none = Input::zero();
    Physics::update_paddle(&mut paddle, &input_none, &config);

    assert_eq!(paddle.vy, 0); // Should have zero velocity
}

#[test]
fn test_paddle_bounds() {
    let config = Config::default();
    let mut paddle = Paddle::new(0); // Start at bottom

    // Try to move below bottom
    let input_down = Input::new(-127, 0);
    Physics::update_paddle(&mut paddle, &input_down, &config);

    assert!(paddle.y >= config.paddle_half_h); // Should be constrained

    // Test top bound
    paddle.y = FX_ONE; // Start at top
    let input_up = Input::new(127, 0);
    Physics::update_paddle(&mut paddle, &input_up, &config);

    assert!(paddle.y <= FX_ONE - config.paddle_half_h); // Should be constrained
}

#[test]
fn test_ball_wall_collision() {
    let config = Config::default();
    let mut ball = Ball::new(
        Vec2::new(FX_ONE / 2, 0),  // At bottom wall
        Vec2::new(0, -FX_ONE / 4), // Moving down
    );

    Physics::update_ball(&mut ball, &config);

    assert_eq!(ball.pos.y, 0); // Should be at wall
    assert!(ball.vel.y > 0); // Velocity should reverse
}

#[test]
fn test_scoring_detection() {
    // Ball past left edge
    let ball_left = Ball::new(Vec2::new(-FX_ONE / 4, FX_ONE / 2), Vec2::zero());
    assert_eq!(Physics::check_scoring(&ball_left), Some(Side::Right));

    // Ball past right edge
    let ball_right = Ball::new(Vec2::new(FX_ONE + FX_ONE / 4, FX_ONE / 2), Vec2::zero());
    assert_eq!(Physics::check_scoring(&ball_right), Some(Side::Left));

    // Ball in bounds
    let ball_center = Ball::new(Vec2::new(FX_ONE / 2, FX_ONE / 2), Vec2::zero());
    assert_eq!(Physics::check_scoring(&ball_center), None);
}

#[test]
fn test_serve_ball() {
    let config = Config::default();
    let mut ball = Ball::new(Vec2::zero(), Vec2::zero());
    let mut rng = 12345u64;

    Physics::serve_ball(&mut ball, Side::Left, &config, &mut rng);

    // Ball should be centered
    assert_eq!(ball.pos.x, FX_ONE / 2);
    assert_eq!(ball.pos.y, FX_ONE / 2);

    // Should have rightward velocity when left serves
    assert!(ball.vel.x > 0);

    // Test right serve
    Physics::serve_ball(&mut ball, Side::Right, &config, &mut rng);
    assert!(ball.vel.x < 0); // Should have leftward velocity
}

#[test]
fn test_ball_speed_limiting() {
    let max_speed = FX_ONE * 2; // 2.0 units/s

    let mut ball = Ball::new(
        Vec2::zero(),
        Vec2::new(FX_ONE * 4, FX_ONE * 4), // Very fast
    );

    Physics::limit_ball_speed(&mut ball, max_speed);

    // Speed should be reduced
    let final_speed_sq = fx::mul_fx(ball.vel.x, ball.vel.x) + fx::mul_fx(ball.vel.y, ball.vel.y);
    let max_speed_sq = fx::mul_fx(max_speed, max_speed);

    assert!(final_speed_sq <= max_speed_sq + 1000); // Allow small tolerance
}

#[test]
fn test_paddle_collision() {
    let config = Config::default();
    let paddle = Paddle::new(FX_ONE / 2); // Center paddle

    let mut ball = Ball::new(
        Vec2::new(config.paddle_x, FX_ONE / 2), // At paddle position
        Vec2::new(-FX_ONE / 4, 0),              // Moving toward left paddle
    );

    let hit = Physics::check_paddle_collision(&mut ball, &paddle, Side::Left, &config);

    assert!(hit); // Should detect collision
    assert!(ball.vel.x > 0); // Ball should reverse direction
}

#[test]
fn test_sqrt_fx() {
    // Test some known values
    assert_eq!(Physics::sqrt_fx(FX_ONE), FX_ONE); // sqrt(1) = 1
    assert_eq!(Physics::sqrt_fx(FX_ONE * 4), FX_ONE * 2); // sqrt(4) = 2

    // Test with small values - sqrt(0.25) = 0.5
    let quarter = FX_ONE / 4;
    let sqrt_quarter = Physics::sqrt_fx(quarter);
    let expected = FX_ONE / 2; // 0.5
                               // Allow small tolerance for fixed-point precision
    assert!(
        fx::abs_fx(sqrt_quarter - expected) < 1000,
        "sqrt(0.25) = {} but expected ~{}",
        (sqrt_quarter as f32) / (FX_ONE as f32),
        (expected as f32) / (FX_ONE as f32)
    );
}

#[test]
fn test_deterministic_rng() {
    let _config = Config::default();
    let mut ball1 = Ball::new(Vec2::zero(), Vec2::zero());
    let mut ball2 = Ball::new(Vec2::zero(), Vec2::zero());
    let mut rng1 = 12345u64;
    let mut rng2 = 12345u64;

    Physics::serve_ball(&mut ball1, Side::Left, &_config, &mut rng1);
    Physics::serve_ball(&mut ball2, Side::Left, &_config, &mut rng2);

    // Same seed should produce identical results
    assert_eq!(ball1.vel, ball2.vel);
    assert_eq!(rng1, rng2);
}

#[test]
fn test_paddle_update_exact() {
    let config = Config::default();
    let mut paddle = Paddle::new(FX_ONE / 2);
    Physics::update_paddle(&mut paddle, &Input::new(127, 0), &config);
    // full deflection: 3.0 units/s, 3.0 / 60 per tick
    assert_eq!(paddle.vy, 196608);
    assert_eq!(paddle.y, 36044);

    let mut paddle = Paddle::new(FX_ONE / 2);
    Physics::update_paddle(&mut paddle, &Input::new(50, 0), &config);
    assert_eq!(paddle.vy, 77403);
    assert_eq!(paddle.y, 32768 + 1290);

    let mut paddle = Paddle::new(FX_ONE / 2);
    Physics::update_paddle(&mut paddle, &Input::new(-128, 0), &config);
    assert_eq!(paddle.vy, -198156);
}

#[test]
fn test_paddle_stops_at_bounds() {
    let config = Config::default();
    let mut paddle = Paddle::new(config.paddle_half_h);
    Physics::update_paddle(&mut paddle, &Input::new(-127, 0), &config);
    assert_eq!(paddle.y, config.paddle_half_h);
    assert_eq!(paddle.vy, 0);

    let mut paddle = Paddle::new(FX_ONE - config.paddle_half_h);
    Physics::update_paddle(&mut paddle, &Input::new(127, 0), &config);
    assert_eq!(paddle.y, FX_ONE - config.paddle_half_h);
    assert_eq!(paddle.vy, 0);
}

#[test]
fn test_ball_top_wall() {
    let config = Config::default();
    let mut ball = Ball::new(Vec2::new(FX_ONE / 2, FX_ONE), Vec2::new(600, 6000));
    Physics::update_ball(&mut ball, &config);
    assert_eq!(ball.pos.x, FX_ONE / 2 + 10);
    assert_eq!(ball.pos.y, FX_ONE);
    assert_eq!(ball.vel.y, -6000);
    assert_eq!(ball.vel.x, 600);
}

#[test]
fn test_ball_free_flight_and_no_side_wall() {
    let config = Config::default();
    let mut ball = Ball::new(Vec2::new(5, FX_ONE / 2), Vec2::new(-6000, 120));
    Physics::update_ball(&mut ball, &config);
    assert_eq!(ball.pos.x, -95);
    assert_eq!(ball.pos.y, FX_ONE / 2 + 2);
    assert_eq!(ball.vel, Vec2::new(-6000, 120));
}

#[test]
fn test_wall_boundary_scenario() {
    let config = Config::default();
    let mut ball = Ball::new(Vec2::new(FX_ONE / 2, 0), Vec2::new(0, -1000));
    Physics::update_ball(&mut ball, &config);
    assert_eq!(ball.pos.y, 0);
    assert!(ball.vel.y > 0);
    assert_eq!(ball.vel.y, 1000);
}

#[test]
fn test_scoring_is_strict() {
    let at_left = Ball::new(Vec2::new(0, FX_ONE / 2), Vec2::zero());
    let at_right = Ball::new(Vec2::new(FX_ONE, FX_ONE / 2), Vec2::zero());
    assert_eq!(Physics::check_scoring(&at_left), None);
    assert_eq!(Physics::check_scoring(&at_right), None);

    let past_left = Ball::new(Vec2::new(-1, FX_ONE / 2), Vec2::zero());
    let past_right = Ball::new(Vec2::new(FX_ONE + 1, FX_ONE / 2), Vec2::zero());
    assert_eq!(Physics::check_scoring(&past_left), Some(Side::Right));
    assert_eq!(Physics::check_scoring(&past_right), Some(Side::Left));
}

#[test]
fn test_serve_exact_values() {
    let config = Config::default();
    let mut ball = Ball::new(Vec2::zero(), Vec2::zero());
    let mut rng = 12345u64;

    Physics::serve_ball(&mut ball, Side::Left, &config, &mut rng);
    assert_eq!(rng, 13622895711870);
    assert_eq!(ball.pos, Vec2::new(32768, 32768));
    assert_eq!(ball.vel, Vec2::new(32768, 5084));

    Physics::serve_ball(&mut ball, Side::Right, &config, &mut rng);
    assert_eq!(rng, 17423423094097455071);
    assert_eq!(ball.vel, Vec2::new(-32768, -6396));
}

#[test]
fn test_collision_exact_values() {
    let config = Config::default();
    let paddle = Paddle { y: FX_ONE / 2, vy: 0 };
    let mut ball = Ball::new(Vec2::new(config.paddle_x, FX_ONE / 2), Vec2::new(-FX_ONE / 4, 0));

    let hit = Physics::check_paddle_collision(&mut ball, &paddle, Side::Left, &config);
    assert!(hit);
    // radius 546: pushed to paddle_x + 2 * radius, speed up by 1.05
    assert_eq!(ball.pos.x, 4368);
    assert_eq!(ball.vel.x, 17203);
    assert_eq!(ball.vel.y, 0);
}

#[test]
fn test_collision_adds_paddle_spin() {
    let config = Config::default();
    let paddle = Paddle { y: FX_ONE / 2, vy: 40000 };
    let mut ball =
        Ball::new(Vec2::new(FX_ONE - config.paddle_x, FX_ONE / 2), Vec2::new(FX_ONE / 4, 100));

    let hit = Physics::check_paddle_collision(&mut ball, &paddle, Side::Right, &config);
    assert!(hit);
    assert_eq!(ball.pos.x, FX_ONE - 3276 - 2 * 546);
    assert_eq!(ball.vel.x, fx::mul_fx(-16384, 68812));
    assert_eq!(ball.vel.y, fx::mul_fx(100 + 10000, 68812));
}

#[test]
fn test_no_reflection_when_moving_away() {
    let config = Config::default();
    let paddle = Paddle::new(FX_ONE / 2);
    let before = Ball::new(Vec2::new(config.paddle_x, FX_ONE / 2), Vec2::new(FX_ONE / 4, 0));
    let mut ball = before;

    let hit = Physics::check_paddle_collision(&mut ball, &paddle, Side::Left, &config);
    assert!(!hit);
    assert_eq!(ball, before);
}

#[test]
fn test_no_reflection_without_overlap() {
    let config = Config::default();
    let paddle = Paddle::new(FX_ONE / 2);
    let before = Ball::new(Vec2::new(FX_ONE / 2, FX_ONE / 2), Vec2::new(-FX_ONE / 4, 0));
    let mut ball = before;

    let hit = Physics::check_paddle_collision(&mut ball, &paddle, Side::Left, &config);
    assert!(!hit);
    assert_eq!(ball, before);
}

#[test]
fn test_sqrt_exact_values() {
    assert_eq!(Physics::sqrt_fx(0), 0);
    assert_eq!(Physics::sqrt_fx(-5), 0);
    assert_eq!(Physics::sqrt_fx(FX_ONE / 4), 32768);
    assert_eq!(Physics::sqrt_fx(1 << 21), 370727);
    assert_eq!(Physics::sqrt_fx(1), 256);
    assert_eq!(Physics::sqrt_fx(2147418111), 11863391);
}

#[test]
fn test_speed_limit_exact_values() {
    let mut ball = Ball::new(Vec2::zero(), Vec2::new(FX_ONE * 4, FX_ONE * 4));
    Physics::limit_ball_speed(&mut ball, FX_ONE * 2);
    assert_eq!(ball.vel, Vec2::new(92680, 92680));

    // at or below the cap nothing changes
    let mut slow = Ball::new(Vec2::zero(), Vec2::new(FX_ONE, 0));
    Physics::limit_ball_speed(&mut slow, FX_ONE * 2);
    assert_eq!(slow.vel, Vec2::new(FX_ONE, 0));
}
