//! Deterministic physics: one-tick updates of paddles and ball, collisions,
//! scoring, serve and the speed cap. Every operation is a function of its
//! arguments alone and is specified by a spec function of the same values.

use crate::types::fx::{
    abs_fx, clamp_fx, clamp_fx_spec, div_fx, div_fx_spec, lemma_div_fx_range, lemma_mul_fx_range,
    lemma_wrap_in_range, mul_fx, mul_fx_spec, trunc_div, trunc_rem, wrap_i32,
};
use crate::types::{
    Ball, Config, Fx, Input, Paddle, Side, Vec2, FX_ONE, MAX_BALL_SPEED_UP, MAX_PADDLE_SPEED,
    MAX_TICK_HZ,
};
use vstd::prelude::*;

verus! {

/// Physics calculations of the simulation.
pub struct Physics;

/// Multiplier of the serve generator.
pub const LCG_MULTIPLIER: u64 = 1103515245;

/// Increment of the serve generator.
pub const LCG_INCREMENT: u64 = 12345;

impl Physics {
    /// A tick rate that can be divided by: positive, and small enough that
    /// its fixed-point form fits in 32 bits.
    pub open spec fn tick_rate_ok(hz: u16) -> bool {
        1 <= hz <= MAX_TICK_HZ
    }

    /// Distance covered in one tick at velocity `v` and tick rate `hz`:
    /// `v / hz`, rounded toward zero.
    pub open spec fn per_tick(v: Fx, hz: u16) -> Fx {
        div_fx_spec(v, (hz * FX_ONE) as i32)
    }

    /// Paddle velocity commanded by an axis sample: the axis scaled from
    /// [-127, 127] to [-1.0, 1.0] times the paddle speed; exactly zero at
    /// rest.
    pub open spec fn axis_velocity(axis_y: i8, paddle_speed: Fx) -> Fx {
        if axis_y == 0 {
            0
        } else {
            mul_fx_spec(trunc_div(axis_y * FX_ONE, 127) as i32, paddle_speed)
        }
    }

    /// The paddle update stays within 32 bits.
    pub open spec fn paddle_step_fits(paddle: Paddle, input: Input, config: Config) -> bool {
        &&& Self::tick_rate_ok(config.tick_hz)
        &&& i32::MIN <= paddle.y + Self::per_tick(
            Self::axis_velocity(input.axis_y, config.paddle_speed),
            config.tick_hz,
        ) <= i32::MAX
        &&& FX_ONE - config.paddle_half_h <= i32::MAX
    }

    /// The paddle after one tick under `input`: it takes the commanded
    /// velocity, moves by one tick of it, is clamped to the field, and stops
    /// when it touches a bound.
    pub open spec fn paddle_after(paddle: Paddle, input: Input, config: Config) -> Paddle {
        let vy = Self::axis_velocity(input.axis_y, config.paddle_speed);
        let min_y = config.paddle_half_h;
        let max_y = (FX_ONE - config.paddle_half_h) as i32;
        let y = clamp_fx_spec((paddle.y + Self::per_tick(vy, config.tick_hz)) as i32, min_y, max_y);
        Paddle {
            y,
            vy: if y <= min_y || y >= max_y {
                0
            } else {
                vy
            },
        }
    }

    /// The ball update stays within 32 bits.
    pub open spec fn ball_step_fits(ball: Ball, config: Config) -> bool {
        &&& Self::tick_rate_ok(config.tick_hz)
        &&& i32::MIN <= ball.pos.x + Self::per_tick(ball.vel.x, config.tick_hz) <= i32::MAX
        &&& i32::MIN <= ball.pos.y + Self::per_tick(ball.vel.y, config.tick_hz) <= i32::MAX
        &&& ball.vel.y > i32::MIN
    }

    /// The ball after one tick of free flight: it moves by one tick of its
    /// velocity; at the bottom (0) or top (1.0) wall it is put on the wall
    /// and its vertical velocity is reversed. There is no horizontal wall.
    pub open spec fn ball_after(ball: Ball, config: Config) -> Ball {
        let x = (ball.pos.x + Self::per_tick(ball.vel.x, config.tick_hz)) as i32;
        let y = (ball.pos.y + Self::per_tick(ball.vel.y, config.tick_hz)) as i32;
        if y <= 0 {
            Ball { pos: Vec2 { x, y: 0 }, vel: Vec2 { x: ball.vel.x, y: (-ball.vel.y) as i32 } }
        } else if y >= FX_ONE {
            Ball {
                pos: Vec2 { x, y: FX_ONE },
                vel: Vec2 { x: ball.vel.x, y: (-ball.vel.y) as i32 },
            }
        } else {
            Ball { pos: Vec2 { x, y }, vel: ball.vel }
        }
    }

    /// Who scores with the ball where it is: right when it is left of 0,
    /// left when it is right of 1.0, nobody otherwise.
    pub open spec fn scorer(ball: Ball) -> Option<Side> {
        if ball.pos.x < 0 {
            Some(Side::Right)
        } else if ball.pos.x > FX_ONE {
            Some(Side::Left)
        } else {
            None
        }
    }

    /// Next state of the serve generator: one step of the linear
    /// congruential recurrence, modulo 2^64.
    pub open spec fn lcg_next(state: u64) -> u64 {
        ((state * LCG_MULTIPLIER + LCG_INCREMENT) % 0x1_0000_0000_0000_0000) as u64
    }

    /// Vertical serve velocity drawn from a generator state: bits 16..48 of
    /// the state read as a signed number, its remainder by 0.5 (with the
    /// sign of the number), less 0.25.
    pub open spec fn serve_vy(state: u64) -> Fx {
        (trunc_rem(wrap_i32((state / 65536) as int) as int, 32768) - 16384) as i32
    }

    /// The ball as served by `serving_side` from generator state `state`
    /// (the state after the draw): centered, moving away from the server at
    /// the base speed.
    pub open spec fn served_ball(serving_side: Side, config: Config, state: u64) -> Ball {
        Ball {
            pos: Vec2 { x: 32768, y: 32768 },
            vel: Vec2 {
                x: match serving_side {
                    Side::Left => config.ball_speed,
                    Side::Right => (-config.ball_speed) as i32,
                },
                y: Self::serve_vy(state),
            },
        }
    }

    /// The vertical serve velocity lies in [-0.75, 0.25).
    pub proof fn lemma_serve_vy_range(state: u64)
        ensures
            -49151 <= Self::serve_vy(state) <= 16383,
    {
    }

    /// One tick of movement is no longer than the velocity and has its sign.
    pub proof fn lemma_per_tick_bounds(v: Fx, hz: u16)
        requires
            Self::tick_rate_ok(hz),
        ensures
            v >= 0 ==> 0 <= Self::per_tick(v, hz) <= v,
            v <= 0 ==> v <= Self::per_tick(v, hz) <= 0,
    {
        lemma_div_fx_range(v, (hz * FX_ONE) as i32);
    }

    /// Updates a paddle by one tick under `input`.
    pub fn update_paddle(paddle: &mut Paddle, input: &Input, config: &Config)
        requires
            Self::paddle_step_fits(*old(paddle), *input, *config),
        ensures
            *final(paddle) == Self::paddle_after(*old(paddle), *input, *config),
            input.axis_y == 0 ==> final(paddle).vy == 0,
            config.paddle_half_h <= FX_ONE - config.paddle_half_h ==> config.paddle_half_h
                <= final(paddle).y <= FX_ONE - config.paddle_half_h,
    {
        let target_velocity = if input.axis_y == 0 {
            0
        } else {
            let normalized_input = (input.axis_y as i32 * FX_ONE) / 127;
            mul_fx(normalized_input, config.paddle_speed)
        };

        paddle.vy = target_velocity;
        paddle.y += div_fx(paddle.vy, config.tick_hz as i32 * FX_ONE);

        let half_h = config.paddle_half_h;
        let min_y = half_h;
        let max_y = FX_ONE - half_h;

        paddle.y = clamp_fx(paddle.y, min_y, max_y);

        if paddle.y <= min_y || paddle.y >= max_y {
            paddle.vy = 0;
        }
    }

    /// Updates the ball by one tick of free flight, bouncing off the top and
    /// bottom walls.
    pub fn update_ball(ball: &mut Ball, config: &Config)
        requires
            Self::ball_step_fits(*old(ball), *config),
        ensures
            *final(ball) == Self::ball_after(*old(ball), *config),
            0 <= final(ball).pos.y <= FX_ONE,
    {
        ball.pos.x += div_fx(ball.vel.x, config.tick_hz as i32 * FX_ONE);
        ball.pos.y += div_fx(ball.vel.y, config.tick_hz as i32 * FX_ONE);

        if ball.pos.y <= 0 {
            ball.pos.y = 0;
            ball.vel.y = -ball.vel.y;
        } else if ball.pos.y >= FX_ONE {
            ball.pos.y = FX_ONE;
            ball.vel.y = -ball.vel.y;
        }
    }

    /// Tells whether the ball is out of bounds, and who scores by it.
    pub fn check_scoring(ball: &Ball) -> (r: Option<Side>)
        ensures
            r == Self::scorer(*ball),
    {
        if ball.pos.x < 0 {
            Some(Side::Right)
        } else if ball.pos.x > FX_ONE {
            Some(Side::Left)
        } else {
            None
        }
    }

    /// Advances the serve generator by one step.
    fn lcg_step(state: u64) -> (next: u64)
        ensures
            next == Self::lcg_next(state),
    {
        state.wrapping_mul(LCG_MULTIPLIER).wrapping_add(LCG_INCREMENT)
    }

    /// Draws the vertical serve velocity from a generator state.
    fn draw_serve_vy(state: u64) -> (vy: Fx)
        ensures
            vy == Self::serve_vy(state),
    {
        let high: u64 = state >> 16;
        assert(high == state / 65536) by (bit_vector)
            requires
                high == state >> 16,
        ;
        assert((high as i32) as int == ((high as int + 0x8000_0000) % 0x1_0000_0000) - 0x8000_0000)
            by (bit_vector);
        let random_angle = #[verifier::truncate] (high as i32);
        assert(random_angle == wrap_i32(high as int));
        (random_angle % (FX_ONE / 2)) - (FX_ONE / 4)
    }

    /// Puts the ball at the center and launches it away from
    /// `serving_side`, advancing the generator by one step.
    pub fn serve_ball(ball: &mut Ball, serving_side: Side, config: &Config, rng_state: &mut u64)
        requires
            config.ball_speed > i32::MIN,
        ensures
            *final(rng_state) == Self::lcg_next(*old(rng_state)),
            *final(ball) == Self::served_ball(serving_side, *config, *final(rng_state)),
    {
        ball.pos = Vec2::new(FX_ONE / 2, FX_ONE / 2);

        let base_speed = config.ball_speed;

        *rng_state = Self::lcg_step(*rng_state);
        let y_vel = Self::draw_serve_vy(*rng_state);

        let x_vel = match serving_side {
            Side::Left => base_speed,
            Side::Right => -base_speed,
        };

        ball.vel = Vec2::new(x_vel, y_vel);
    }
}

/// The ball's collision square has a half side of the serve speed divided by
/// this (60.0).
pub const BALL_RADIUS_DIVISOR: Fx = 3932160;

/// A paddle hit adds the paddle velocity divided by this (4.0) to the ball's
/// vertical velocity.
pub const PADDLE_SPIN_DIVISOR: Fx = 262144;

/// Most Newton rounds of the fixed-point square root.
pub const SQRT_ROUNDS: u32 = 10;

/// Two successive Newton iterates closer than this end the square root.
pub const SQRT_TOLERANCE: Fx = 16;

/// Largest argument of the fixed-point square root: the first Newton round
/// adds 1.0 to it.
pub const SQRT_MAX: Fx = 2147418111;

impl Physics {
    /// Half the side of the ball's collision square: one sixtieth of the
    /// serve speed.
    pub open spec fn ball_radius(config: Config) -> Fx {
        div_fx_spec(config.ball_speed, BALL_RADIUS_DIVISOR)
    }

    /// Horizontal position of the paddle of `side`.
    pub open spec fn paddle_center_x(side: Side, config: Config) -> int {
        match side {
            Side::Left => config.paddle_x as int,
            Side::Right => FX_ONE - config.paddle_x,
        }
    }

    /// The ball's square and the paddle's rectangle overlap, bounds
    /// included.
    pub open spec fn overlaps(ball: Ball, paddle: Paddle, side: Side, config: Config) -> bool {
        let r = Self::ball_radius(config);
        let px = Self::paddle_center_x(side, config);
        &&& ball.pos.x + r >= px - r
        &&& ball.pos.x - r <= px + r
        &&& ball.pos.y + r >= paddle.y - config.paddle_half_h
        &&& ball.pos.y - r <= paddle.y + config.paddle_half_h
    }

    /// The ball moves toward the paddle of `side`.
    pub open spec fn approaching(ball: Ball, side: Side) -> bool {
        match side {
            Side::Left => ball.vel.x < 0,
            Side::Right => ball.vel.x > 0,
        }
    }

    /// The ball is reflected by the paddle of `side`: they overlap and the
    /// ball moves toward the paddle.
    pub open spec fn hits(ball: Ball, paddle: Paddle, side: Side, config: Config) -> bool {
        Self::overlaps(ball, paddle, side, config) && Self::approaching(ball, side)
    }

    /// The ball after being reflected by the paddle of `side`: placed just
    /// outside the paddle face, horizontal velocity reversed, a quarter of
    /// the paddle velocity added to the vertical one, and both scaled by the
    /// speed-up factor.
    pub open spec fn ball_after_hit(ball: Ball, paddle: Paddle, side: Side, config: Config) -> Ball {
        let r = Self::ball_radius(config);
        let px = Self::paddle_center_x(side, config);
        Ball {
            pos: Vec2 {
                x: match side {
                    Side::Left => (px + 2 * r) as i32,
                    Side::Right => (px - 2 * r) as i32,
                },
                y: ball.pos.y,
            },
            vel: Vec2 {
                x: mul_fx_spec((-ball.vel.x) as i32, config.ball_speed_up),
                y: mul_fx_spec(
                    (ball.vel.y + div_fx_spec(paddle.vy, PADDLE_SPIN_DIVISOR)) as i32,
                    config.ball_speed_up,
                ),
            },
        }
    }

    /// The ball after the collision check against the paddle of `side`.
    pub open spec fn ball_after_collision(
        ball: Ball,
        paddle: Paddle,
        side: Side,
        config: Config,
    ) -> Ball {
        if Self::hits(ball, paddle, side, config) {
            Self::ball_after_hit(ball, paddle, side, config)
        } else {
            ball
        }
    }

    /// The collision check stays within 32 bits: the paddle position, the
    /// four edges of ball and paddle and, on a hit, the new position and
    /// the sum of the velocities.
    pub open spec fn collision_fits(ball: Ball, paddle: Paddle, side: Side, config: Config) -> bool {
        let r = Self::ball_radius(config);
        let px = Self::paddle_center_x(side, config);
        &&& i32::MIN <= px <= i32::MAX
        &&& i32::MIN <= ball.pos.x - r <= i32::MAX
        &&& i32::MIN <= ball.pos.x + r <= i32::MAX
        &&& i32::MIN <= ball.pos.y - r <= i32::MAX
        &&& i32::MIN <= ball.pos.y + r <= i32::MAX
        &&& i32::MIN <= px - r <= i32::MAX
        &&& i32::MIN <= px + r <= i32::MAX
        &&& i32::MIN <= paddle.y - config.paddle_half_h <= i32::MAX
        &&& i32::MIN <= paddle.y + config.paddle_half_h <= i32::MAX
        &&& Self::hits(ball, paddle, side, config) ==> {
            &&& ball.vel.x > i32::MIN
            &&& i32::MIN <= px - 2 * r <= i32::MAX
            &&& i32::MIN <= px + 2 * r <= i32::MAX
            &&& i32::MIN <= ball.vel.y + div_fx_spec(paddle.vy, PADDLE_SPIN_DIVISOR) <= i32::MAX
        }
    }

    /// One Newton round for the square root of `value`: the mean of `x` and
    /// `value / x`.
    pub open spec fn sqrt_round(value: Fx, x: Fx) -> Fx {
        trunc_div(x + div_fx_spec(value, x), 2) as i32
    }

    /// The iterate after at most `rounds` further Newton rounds from `x`,
    /// stopping early once a round moves the iterate by less than the
    /// tolerance.
    pub open spec fn sqrt_iter(value: Fx, x: Fx, rounds: nat) -> Fx
        decreases rounds,
    {
        if rounds == 0 {
            x
        } else {
            let next = Self::sqrt_round(value, x);
            if -SQRT_TOLERANCE < next - x < SQRT_TOLERANCE {
                next
            } else {
                Self::sqrt_iter(value, next, (rounds - 1) as nat)
            }
        }
    }

    /// Fixed-point square root by Newton's method from the argument itself;
    /// 0 on arguments that are not positive.
    pub open spec fn sqrt_fx_spec(value: Fx) -> Fx {
        if value <= 0 {
            0
        } else {
            Self::sqrt_iter(value, value, SQRT_ROUNDS as nat)
        }
    }

    /// Squared speed of a velocity, in fixed point.
    pub open spec fn speed_squared(vel: Vec2) -> int {
        mul_fx_spec(vel.x, vel.x) + mul_fx_spec(vel.y, vel.y)
    }

    /// The speed cap stays within 32 bits and divides by no zero: the
    /// squared speed fits, and where it exceeds the squared maximum it is a
    /// valid argument of the square root.
    pub open spec fn limit_fits(ball: Ball, max_speed: Fx) -> bool {
        let s = Self::speed_squared(ball.vel);
        &&& i32::MIN <= s <= i32::MAX
        &&& s > mul_fx_spec(max_speed, max_speed) ==> 0 < s <= SQRT_MAX
    }

    /// The ball after the speed cap: where its squared speed exceeds the
    /// squared maximum, both velocity components are scaled by
    /// `max_speed / speed`.
    pub open spec fn ball_limited(ball: Ball, max_speed: Fx) -> Ball {
        let s = Self::speed_squared(ball.vel) as i32;
        if s > mul_fx_spec(max_speed, max_speed) {
            let scale = div_fx_spec(max_speed, Self::sqrt_fx_spec(s));
            Ball {
                pos: ball.pos,
                vel: Vec2 { x: mul_fx_spec(ball.vel.x, scale), y: mul_fx_spec(ball.vel.y, scale) },
            }
        } else {
            ball
        }
    }

    /// A Newton round from any positive `x` lands at or above the integer
    /// square root of `n`: the mean `y` of `x` and `n / x` has
    /// `(y + 1)^2 > n`.
    pub proof fn lemma_newton_round(n: int, x: int)
        requires
            n >= 0,
            x >= 1,
        ensures
            ((x + n / x) / 2 + 1) * ((x + n / x) / 2 + 1) > n,
            (x + n / x) / 2 >= 0,
    {
        let q = n / x;
        let y = (x + q) / 2;
        vstd::arithmetic::div_mod::lemma_fundamental_div_mod(n, x);
        vstd::arithmetic::div_mod::lemma_mod_bound(n, x);
        vstd::arithmetic::div_mod::lemma_div_pos_is_pos(n, x);
        assert(x * q <= n < x * q + x);
        let a = x + q + 1;
        let b = x - q - 1;
        let t = 2 * (y + 1);
        assert(t >= a);
        assert(a * a == b * b + 4 * (x * q + x)) by (nonlinear_arith)
            requires
                a == x + q + 1,
                b == x - q - 1,
        ;
        assert(b * b >= 0) by (nonlinear_arith);
        assert(t * t >= a * a) by (nonlinear_arith)
            requires
                t >= a,
                a >= 0,
        ;
        assert(t * t == 4 * ((y + 1) * (y + 1))) by (nonlinear_arith)
            requires
                t == 2 * (y + 1),
        ;
    }

    /// At or above the integer square root of `n`, the quotient `n / x`
    /// exceeds `x` by at most 2.
    pub proof fn lemma_newton_quotient(n: int, x: int)
        requires
            n >= 0,
            x >= 1,
            (x + 1) * (x + 1) > n,
        ensures
            0 <= n / x <= x + 2,
    {
        let q = n / x;
        vstd::arithmetic::div_mod::lemma_fundamental_div_mod(n, x);
        vstd::arithmetic::div_mod::lemma_mod_bound(n, x);
        vstd::arithmetic::div_mod::lemma_div_pos_is_pos(n, x);
        assert(q <= x + 2) by (nonlinear_arith)
            requires
                x * q <= n,
                (x + 1) * (x + 1) > n,
                x >= 1,
                q >= 0,
        ;
    }
}

impl Physics {
    /// One Newton round of the square root stays within 32 bits and keeps
    /// the iterate at or above the integer square root of `value * 2^16`.
    /// The first round starts from `value` itself (`first`); later rounds
    /// start from an iterate that is already at or above the root.
    pub proof fn lemma_sqrt_round(value: Fx, x: Fx, first: bool)
        requires
            0 < value <= SQRT_MAX,
            x >= 1,
            first ==> x == value,
            !first ==> x <= 0x4000_0000 && (x + 1) * (x + 1) > value * 65536,
        ensures
            div_fx_spec(value, x) == (value * 65536) / (x as int),
            0 <= div_fx_spec(value, x),
            x + div_fx_spec(value, x) <= i32::MAX,
            Self::sqrt_round(value, x) == (x + div_fx_spec(value, x)) / 2,
            1 <= Self::sqrt_round(value, x) <= 0x4000_0000,
            (Self::sqrt_round(value, x) + 1) * (Self::sqrt_round(value, x) + 1) > value * 65536,
    {
        let n = value * 65536;
        let q = n / (x as int);
        vstd::arithmetic::div_mod::lemma_div_pos_is_pos(n, x as int);
        if first {
            vstd::arithmetic::div_mod::lemma_div_by_multiple(65536, value as int);
            assert(q == 65536);
        } else {
            Self::lemma_newton_quotient(n, x as int);
            if x >= 0x100_0000 {
                vstd::arithmetic::div_mod::lemma_div_is_ordered_by_denominator(
                    n,
                    0x100_0000,
                    x as int,
                );
                assert(q <= 0x80_0000);
            }
        }
        lemma_wrap_in_range(q);
        assert(div_fx_spec(value, x) == q);
        Self::lemma_newton_round(n, x as int);
        let y = (x + q) / 2;
        assert((y + 1) * (y + 1) > n);
        assert(y >= 1) by (nonlinear_arith)
            requires
                (y + 1) * (y + 1) > n,
                n >= 65536,
                y >= 0,
        ;
    }

    /// Newton rounds keep the iterate positive and, once one round is done,
    /// at or above the integer square root of `value * 2^16`.
    pub proof fn lemma_sqrt_iter(value: Fx, x: Fx, rounds: nat, first: bool)
        requires
            0 < value <= SQRT_MAX,
            x >= 1,
            first ==> x == value,
            !first ==> x <= 0x4000_0000 && (x + 1) * (x + 1) > value * 65536,
        ensures
            Self::sqrt_iter(value, x, rounds) >= 1,
            rounds > 0 || !first ==> (Self::sqrt_iter(value, x, rounds) + 1) * (Self::sqrt_iter(
                value,
                x,
                rounds,
            ) + 1) > value * 65536,
        decreases rounds,
    {
        if rounds > 0 {
            Self::lemma_sqrt_round(value, x, first);
            let next = Self::sqrt_round(value, x);
            if !(-SQRT_TOLERANCE < next - x < SQRT_TOLERANCE) {
                Self::lemma_sqrt_iter(value, next, (rounds - 1) as nat, false);
            }
        }
    }

    /// The square root of a positive argument is positive and at least the
    /// integer square root of `value * 2^16`.
    pub proof fn lemma_sqrt_floor(value: Fx)
        requires
            0 < value <= SQRT_MAX,
        ensures
            Self::sqrt_fx_spec(value) >= 1,
            (Self::sqrt_fx_spec(value) + 1) * (Self::sqrt_fx_spec(value) + 1) > value * 65536,
    {
        Self::lemma_sqrt_iter(value, value, SQRT_ROUNDS as nat, true);
    }
}

impl Physics {
    /// Checks the ball against the paddle of `side` and reflects it on a
    /// hit. Returns whether it was reflected. A ball moving away from the
    /// paddle is left alone even where they overlap.
    pub fn check_paddle_collision(
        ball: &mut Ball,
        paddle: &Paddle,
        side: Side,
        config: &Config,
    ) -> (hit: bool)
        requires
            Self::collision_fits(*old(ball), *paddle, side, *config),
        ensures
            hit == Self::hits(*old(ball), *paddle, side, *config),
            *final(ball) == Self::ball_after_collision(*old(ball), *paddle, side, *config),
    {
        let paddle_x = match side {
            Side::Left => config.paddle_x,
            Side::Right => FX_ONE - config.paddle_x,
        };

        let ball_radius = div_fx(config.ball_speed, BALL_RADIUS_DIVISOR);
        let paddle_half_h = config.paddle_half_h;

        let ball_left = ball.pos.x - ball_radius;
        let ball_right = ball.pos.x + ball_radius;
        let ball_top = ball.pos.y - ball_radius;
        let ball_bottom = ball.pos.y + ball_radius;

        let paddle_left = paddle_x - ball_radius;
        let paddle_right = paddle_x + ball_radius;
        let paddle_top = paddle.y - paddle_half_h;
        let paddle_bottom = paddle.y + paddle_half_h;

        if ball_right >= paddle_left && ball_left <= paddle_right && ball_bottom >= paddle_top
            && ball_top <= paddle_bottom {
            match side {
                Side::Left => {
                    if ball.vel.x < 0 {
                        ball.vel.x = -ball.vel.x;
                        ball.pos.x = paddle_right + ball_radius;

                        let velocity_influence = div_fx(paddle.vy, PADDLE_SPIN_DIVISOR);
                        ball.vel.y += velocity_influence;

                        ball.vel.x = mul_fx(ball.vel.x, config.ball_speed_up);
                        ball.vel.y = mul_fx(ball.vel.y, config.ball_speed_up);

                        return true;
                    }
                },
                Side::Right => {
                    if ball.vel.x > 0 {
                        ball.vel.x = -ball.vel.x;
                        ball.pos.x = paddle_left - ball_radius;

                        let velocity_influence = div_fx(paddle.vy, PADDLE_SPIN_DIVISOR);
                        ball.vel.y += velocity_influence;

                        ball.vel.x = mul_fx(ball.vel.x, config.ball_speed_up);
                        ball.vel.y = mul_fx(ball.vel.y, config.ball_speed_up);

                        return true;
                    }
                },
            }
        }
        false
    }

    /// Fixed-point square root by Newton's method, in integers only. On a
    /// positive argument the result is positive and at least the integer
    /// square root of `value * 2^16`.
    pub fn sqrt_fx(value: Fx) -> (r: Fx)
        requires
            value <= SQRT_MAX,
        ensures
            r == Self::sqrt_fx_spec(value),
            value > 0 ==> r >= 1 && (r + 1) * (r + 1) > value * 65536,
    {
        if value <= 0 {
            return 0;
        }
        let mut x = value;
        let mut round: u32 = 0;

        while round < SQRT_ROUNDS
            invariant_except_break
                Self::sqrt_iter(value, x, (SQRT_ROUNDS - round) as nat) == Self::sqrt_fx_spec(
                    value,
                ),
                round == 0 ==> x == value,
                round > 0 ==> x <= 0x4000_0000 && (x + 1) * (x + 1) > value * 65536,
            invariant
                0 < value <= SQRT_MAX,
                round <= SQRT_ROUNDS,
                x >= 1,
            ensures
                x == Self::sqrt_fx_spec(value),
                (x + 1) * (x + 1) > value * 65536,
            decreases SQRT_ROUNDS - round,
        {
            let prev = x;
            proof {
                Self::lemma_sqrt_round(value, prev, round == 0);
            }
            x = (x + div_fx(value, x)) / 2;
            assert(x == Self::sqrt_round(value, prev));
            assert((x + 1) * (x + 1) > value * 65536);
            if abs_fx(x - prev) < SQRT_TOLERANCE {
                break;
            }
            round += 1;
        }

        x
    }

    /// Caps the ball speed at `max_speed`, keeping its direction.
    pub fn limit_ball_speed(ball: &mut Ball, max_speed: Fx)
        requires
            Self::limit_fits(*old(ball), max_speed),
        ensures
            *final(ball) == Self::ball_limited(*old(ball), max_speed),
    {
        let speed_squared = mul_fx(ball.vel.x, ball.vel.x) + mul_fx(ball.vel.y, ball.vel.y);
        let max_speed_squared = mul_fx(max_speed, max_speed);

        if speed_squared > max_speed_squared {
            let current_speed = Self::sqrt_fx(speed_squared);
            let scale = div_fx(max_speed, current_speed);

            ball.vel.x = mul_fx(ball.vel.x, scale);
            ball.vel.y = mul_fx(ball.vel.y, scale);
        }
    }
}

/// Positions of paddles and ball in play lie within this distance of 0.
pub const FIELD_RANGE: Fx = 0x2000_0000;

/// Components of the ball velocity lie within this distance of 0 between
/// ticks.
pub const VELOCITY_RANGE: Fx = 0x10_0000;

/// A commanded paddle velocity lies within this distance of 0 under a valid
/// configuration.
pub const PADDLE_VELOCITY_RANGE: Fx = 2113665;

/// Largest velocity component whose square can enter the speed cap.
pub const LIMIT_INPUT_RANGE: Fx = 0x7f_ff00;

impl Physics {
    /// From a position in range, the paddle update stays within 32 bits and
    /// leaves the paddle in the field with a bounded velocity.
    pub proof fn lemma_paddle_stage(paddle: Paddle, input: Input, config: Config)
        requires
            config.valid(),
            -FIELD_RANGE <= paddle.y <= FIELD_RANGE,
        ensures
            Self::paddle_step_fits(paddle, input, config),
            0 <= Self::paddle_after(paddle, input, config).y <= FX_ONE,
            -PADDLE_VELOCITY_RANGE <= Self::paddle_after(paddle, input, config).vy
                <= PADDLE_VELOCITY_RANGE,
    {
        let vy = Self::axis_velocity(input.axis_y, config.paddle_speed);
        if input.axis_y != 0 {
            // the scaled axis is within 128 / 127 of 1.0
            let n = trunc_div(input.axis_y * FX_ONE, 127) as i32;
            lemma_mul_fx_range(n, config.paddle_speed, 66052, MAX_PADDLE_SPEED as int);
        }
        Self::lemma_per_tick_bounds(vy, config.tick_hz);
    }

    /// From a position and velocity in range, the ball update stays within
    /// 32 bits, puts the ball between the walls and keeps the size of its
    /// velocity.
    pub proof fn lemma_ball_stage(ball: Ball, config: Config)
        requires
            config.valid(),
            -FIELD_RANGE <= ball.pos.x <= FIELD_RANGE,
            -FIELD_RANGE <= ball.pos.y <= FIELD_RANGE,
            -VELOCITY_RANGE <= ball.vel.x <= VELOCITY_RANGE,
            -VELOCITY_RANGE <= ball.vel.y <= VELOCITY_RANGE,
        ensures
            Self::ball_step_fits(ball, config),
            -FIELD_RANGE - VELOCITY_RANGE <= Self::ball_after(ball, config).pos.x <= FIELD_RANGE
                + VELOCITY_RANGE,
            0 <= Self::ball_after(ball, config).pos.y <= FX_ONE,
            Self::ball_after(ball, config).vel.x == ball.vel.x,
            -VELOCITY_RANGE <= Self::ball_after(ball, config).vel.y <= VELOCITY_RANGE,
    {
        Self::lemma_per_tick_bounds(ball.vel.x, config.tick_hz);
        Self::lemma_per_tick_bounds(ball.vel.y, config.tick_hz);
    }

    /// With ball and paddle in range and velocity components within
    /// `bound`, the collision check stays within 32 bits, keeps the ball in
    /// range and at most doubles its velocity after adding a quarter of the
    /// paddle's.
    pub proof fn lemma_collision_stage(
        ball: Ball,
        paddle: Paddle,
        side: Side,
        config: Config,
        bound: int,
    )
        requires
            config.valid(),
            -FIELD_RANGE - VELOCITY_RANGE <= ball.pos.x <= FIELD_RANGE + VELOCITY_RANGE,
            0 <= ball.pos.y <= FX_ONE,
            0 <= bound <= 0x40_0000,
            -bound <= ball.vel.x <= bound,
            -bound <= ball.vel.y <= bound,
            0 <= paddle.y <= FX_ONE,
            -PADDLE_VELOCITY_RANGE <= paddle.vy <= PADDLE_VELOCITY_RANGE,
        ensures
            Self::collision_fits(ball, paddle, side, config),
            Self::ball_after_collision(ball, paddle, side, config).pos.y == ball.pos.y,
            -FIELD_RANGE - VELOCITY_RANGE <= Self::ball_after_collision(
                ball,
                paddle,
                side,
                config,
            ).pos.x <= FIELD_RANGE + VELOCITY_RANGE,
            -2 * bound - 1 <= Self::ball_after_collision(ball, paddle, side, config).vel.x <= 2
                * bound + 1,
            -2 * (bound + 528416) - 1 <= Self::ball_after_collision(
                ball,
                paddle,
                side,
                config,
            ).vel.y <= 2 * (bound + 528416) + 1,
    {
        lemma_div_fx_range(config.ball_speed, BALL_RADIUS_DIVISOR);
        lemma_div_fx_range(paddle.vy, PADDLE_SPIN_DIVISOR);
        let r = Self::ball_radius(config);
        assert(0 <= r <= 2184);
        let push = div_fx_spec(paddle.vy, PADDLE_SPIN_DIVISOR);
        assert(-528416 <= push <= 528416);
        lemma_mul_fx_range(
            (-ball.vel.x) as i32,
            config.ball_speed_up,
            bound,
            MAX_BALL_SPEED_UP as int,
        );
        lemma_mul_fx_range(
            (ball.vel.y + push) as i32,
            config.ball_speed_up,
            bound + 528416,
            MAX_BALL_SPEED_UP as int,
        );
    }

    /// With velocity components small enough to be squared, the speed cap
    /// stays within 32 bits, leaves each component within `max_speed` plus
    /// 1/256, keeps the direction of each component and never makes one
    /// larger.
    pub proof fn lemma_limit_stage(ball: Ball, max_speed: Fx)
        requires
            -LIMIT_INPUT_RANGE <= ball.vel.x <= LIMIT_INPUT_RANGE,
            -LIMIT_INPUT_RANGE <= ball.vel.y <= LIMIT_INPUT_RANGE,
            0 <= max_speed <= LIMIT_INPUT_RANGE,
        ensures
            Self::limit_fits(ball, max_speed),
            Self::ball_limited(ball, max_speed).pos == ball.pos,
            -max_speed - 256 <= Self::ball_limited(ball, max_speed).vel.x <= max_speed + 256,
            -max_speed - 256 <= Self::ball_limited(ball, max_speed).vel.y <= max_speed + 256,
            ball.vel.x >= 0 ==> 0 <= Self::ball_limited(ball, max_speed).vel.x <= ball.vel.x,
            ball.vel.x <= 0 ==> ball.vel.x <= Self::ball_limited(ball, max_speed).vel.x <= 0,
            ball.vel.y >= 0 ==> 0 <= Self::ball_limited(ball, max_speed).vel.y <= ball.vel.y,
            ball.vel.y <= 0 ==> ball.vel.y <= Self::ball_limited(ball, max_speed).vel.y <= 0,
    {
        let a = ball.vel.x;
        let b = ball.vel.y;
        let m = max_speed;
        lemma_mul_fx_range(a, a, LIMIT_INPUT_RANGE as int, LIMIT_INPUT_RANGE as int);
        lemma_mul_fx_range(b, b, LIMIT_INPUT_RANGE as int, LIMIT_INPUT_RANGE as int);
        lemma_mul_fx_range(m, m, LIMIT_INPUT_RANGE as int, LIMIT_INPUT_RANGE as int);
        assert(a * a >= 0 && b * b >= 0 && m * m >= 0) by (nonlinear_arith);
        let sa = mul_fx_spec(a, a);
        let sb = mul_fx_spec(b, b);
        let s = sa + sb;
        let msq = mul_fx_spec(m, m);
        assert(0 <= sa && 0 <= sb && 0 <= msq);
        assert(a * a < (sa + 1) * 65536);
        assert(b * b < (sb + 1) * 65536);
        assert(msq * 65536 <= m * m);
        if s > msq {
            Self::lemma_sqrt_floor(s as i32);
            let cs = Self::sqrt_fx_spec(s as i32);
            assert(cs + 1 > m) by (nonlinear_arith)
                requires
                    (cs + 1) * (cs + 1) > m * m,
                    cs >= 0,
                    m >= 0,
            ;
            let scale = (m * 65536) / (cs as int);
            vstd::arithmetic::div_mod::lemma_fundamental_div_mod(m * 65536, cs as int);
            vstd::arithmetic::div_mod::lemma_mod_bound(m * 65536, cs as int);
            vstd::arithmetic::div_mod::lemma_div_pos_is_pos(m * 65536, cs as int);
            assert(cs * scale <= m * 65536);
            assert(scale <= 65536) by (nonlinear_arith)
                requires
                    cs * scale <= m * 65536,
                    m <= cs,
                    cs >= 1,
                    scale >= 0,
            ;
            lemma_wrap_in_range(scale);
            assert(div_fx_spec(m, cs) == scale);
            Self::lemma_scaled_component(a, sa + sb, cs as int, scale, m as int);
            Self::lemma_scaled_component(b, sa + sb, cs as int, scale, m as int);
        } else {
            assert(-(m + 256) <= a <= m + 256) by (nonlinear_arith)
                requires
                    a * a < m * m + 65536,
                    m >= 0,
            ;
            assert(-(m + 256) <= b <= m + 256) by (nonlinear_arith)
                requires
                    b * b < m * m + 65536,
                    m >= 0,
            ;
        }
    }

    /// A component `a` of a velocity with squared speed `s`, scaled by
    /// `max / root` where `root` is at least the integer square root of
    /// `s * 2^16`, is within `max` plus 1/256.
    proof fn lemma_scaled_component(a: Fx, s: int, root: int, scale: int, max: int)
        requires
            a * a < (s + 1) * 65536,
            (root + 1) * (root + 1) > s * 65536,
            root >= 1,
            0 <= scale <= 65536,
            root * scale <= max * 65536,
            0 <= max <= LIMIT_INPUT_RANGE,
        ensures
            -max - 256 <= mul_fx_spec(a, scale as i32) <= max + 256,
            a >= 0 ==> 0 <= mul_fx_spec(a, scale as i32) <= a,
            a <= 0 ==> a <= mul_fx_spec(a, scale as i32) <= 0,
    {
        assert(a >= 0 ==> 0 <= a * scale <= a * 65536) by (nonlinear_arith)
            requires
                0 <= scale <= 65536,
        ;
        assert(a <= 0 ==> a * 65536 <= a * scale <= 0) by (nonlinear_arith)
            requires
                0 <= scale <= 65536,
        ;
        assert(-(root + 256) <= a <= root + 256) by (nonlinear_arith)
            requires
                a * a < (root + 1) * (root + 1) + 65536,
                root >= 1,
        ;
        assert(-(max + 256) * 65536 <= a * scale <= (max + 256) * 65536) by (nonlinear_arith)
            requires
                -(root + 256) <= a <= root + 256,
                0 <= scale <= 65536,
                root * scale <= max * 65536,
                root >= 1,
        ;
        lemma_wrap_in_range((a * scale) / 65536);
    }
}

} // verus!
