//! Value types of the simulation: configuration, vectors, paddles, ball,
//! inputs, status and snapshots.

pub mod fx;

use vstd::prelude::*;

verus! {

/// Fixed-point number in 16.16 format (16 integer bits, 16 fractional bits).
pub type Fx = i32;

/// One unit (1.0) in fixed-point format.
pub const FX_ONE: Fx = 65536;

/// Tick counter: the logical clock of the simulation.
pub type Tick = u32;

/// Player or paddle side.
#[derive(Debug, Copy, Clone, PartialEq, Eq, Structural)]
pub enum Side {
    Left,
    Right,
}

impl Side {
    /// The other side.
    pub open spec fn opposite_spec(self) -> Side {
        match self {
            Side::Left => Side::Right,
            Side::Right => Side::Left,
        }
    }

    /// Index of this side in per-side arrays: 0 for left, 1 for right.
    pub open spec fn index(self) -> int {
        match self {
            Side::Left => 0,
            Side::Right => 1,
        }
    }

    /// Returns the opposite side.
    pub fn opposite(self) -> (r: Side)
        ensures
            r == self.opposite_spec(),
            r != self,
    {
        match self {
            Side::Left => Side::Right,
            Side::Right => Side::Left,
        }
    }

    /// `opposite` is an involution.
    pub proof fn lemma_opposite_involution(self)
        ensures
            self.opposite_spec().opposite_spec() == self,
    {
    }
}

/// State-machine tag of the game.
#[derive(Debug, Copy, Clone, PartialEq, Eq, Structural)]
pub enum Status {
    /// Waiting for both players to be ready.
    Lobby,
    /// Countdown before play starts (ticks remaining).
    Countdown(u16),
    /// Active play.
    Playing,
    /// A point was scored (scorer, ticks until the next serve).
    Scored(Side, u16),
    /// The match is over (winner).
    GameOver(Side),
}

/// Tunables of a match.
#[derive(Debug, Copy, Clone)]
pub struct Config {
    /// Half-height of a paddle.
    pub paddle_half_h: Fx,
    /// Paddle speed at full deflection, in units per second.
    pub paddle_speed: Fx,
    /// Ball speed at serve, in units per second.
    pub ball_speed: Fx,
    /// Factor applied to the ball velocity on each paddle hit.
    pub ball_speed_up: Fx,
    /// Wall thickness (usually 0).
    pub wall_thickness: Fx,
    /// Distance of each paddle from its edge.
    pub paddle_x: Fx,
    /// Score that wins the match.
    pub max_score: u8,
    /// Seed of the serve generator.
    pub seed: u64,
    /// Ticks per second.
    pub tick_hz: u16,
    /// Ball radius for rendering.
    pub ball_radius: Fx,
    /// Paddle width for rendering.
    pub paddle_width: Fx,
}

/// Largest tick rate whose fixed-point form `tick_hz * FX_ONE` fits in 32 bits.
pub const MAX_TICK_HZ: u16 = 32767;

/// Largest paddle speed of a valid configuration (32.0).
pub const MAX_PADDLE_SPEED: Fx = 2097152;

/// Largest serve speed of a valid configuration (2.0).
pub const MAX_BALL_SPEED: Fx = 131072;

/// Largest per-hit speed factor of a valid configuration (2.0).
pub const MAX_BALL_SPEED_UP: Fx = 131072;

/// Largest paddle offset of a valid configuration (256.0).
pub const MAX_PADDLE_X: Fx = 16777216;

impl Config {
    /// The configurations under which the simulation stays within 32-bit
    /// fixed-point range forever: a positive tick rate whose fixed-point form
    /// fits, a paddle that fits the field, and speeds small enough that
    /// squared ball speeds can be formed.
    pub open spec fn valid(self) -> bool {
        &&& 1 <= self.tick_hz <= MAX_TICK_HZ
        &&& 0 <= self.paddle_half_h <= FX_ONE
        &&& -MAX_PADDLE_SPEED <= self.paddle_speed <= MAX_PADDLE_SPEED
        &&& 0 <= self.ball_speed <= MAX_BALL_SPEED
        &&& 0 <= self.ball_speed_up <= MAX_BALL_SPEED_UP
        &&& -MAX_PADDLE_X <= self.paddle_x <= MAX_PADDLE_X
    }

    /// The default configuration as a value.
    pub open spec fn default_spec() -> Config {
        Config {
            paddle_half_h: 8192,
            paddle_speed: 196608,
            ball_speed: 32768,
            ball_speed_up: 68812,
            wall_thickness: 0,
            paddle_x: 3276,
            max_score: 11,
            seed: 0xC0FFEE,
            tick_hz: 60,
            ball_radius: 2048,
            paddle_width: 1638,
        }
    }

    /// Decides `valid`.
    pub fn is_valid(&self) -> (b: bool)
        ensures
            b == self.valid(),
    {
        1 <= self.tick_hz && self.tick_hz <= MAX_TICK_HZ && 0 <= self.paddle_half_h
            && self.paddle_half_h <= FX_ONE && -MAX_PADDLE_SPEED <= self.paddle_speed
            && self.paddle_speed <= MAX_PADDLE_SPEED && 0 <= self.ball_speed && self.ball_speed
            <= MAX_BALL_SPEED && 0 <= self.ball_speed_up && self.ball_speed_up
            <= MAX_BALL_SPEED_UP && -MAX_PADDLE_X <= self.paddle_x && self.paddle_x
            <= MAX_PADDLE_X
    }
}

impl Default for Config {
    /// Paddle half-height 1/8, paddle speed 3.0, serve speed 0.5, +5% per
    /// hit, paddles 5% from the edge, first to 11, 60 ticks per second.
    fn default() -> (c: Config)
        ensures
            c == Config::default_spec(),
            c.valid(),
    {
        Config {
            paddle_half_h: FX_ONE / 8,
            paddle_speed: FX_ONE * 3,
            ball_speed: FX_ONE / 2,
            ball_speed_up: FX_ONE + (FX_ONE / 20),
            wall_thickness: 0,
            paddle_x: 3276,
            max_score: 11,
            seed: 0xC0FFEE,
            tick_hz: 60,
            ball_radius: FX_ONE / 32,
            paddle_width: 1638,
        }
    }
}

/// 2D vector in fixed point.
#[derive(Debug, Copy, Clone, PartialEq, Eq, Structural)]
pub struct Vec2 {
    pub x: Fx,
    pub y: Fx,
}

impl Vec2 {
    pub fn new(x: Fx, y: Fx) -> (v: Vec2)
        ensures
            v == (Vec2 { x, y }),
    {
        Vec2 { x, y }
    }

    pub fn zero() -> (v: Vec2)
        ensures
            v == (Vec2 { x: 0, y: 0 }),
    {
        Vec2 { x: 0, y: 0 }
    }
}

/// Paddle state.
#[derive(Debug, Copy, Clone, PartialEq, Eq, Structural)]
pub struct Paddle {
    /// Vertical position of the center.
    pub y: Fx,
    /// Vertical velocity.
    pub vy: Fx,
}

impl Paddle {
    /// A paddle at rest at height `y`.
    pub fn new(y: Fx) -> (p: Paddle)
        ensures
            p == (Paddle { y, vy: 0 }),
    {
        Paddle { y, vy: 0 }
    }
}

/// Ball state.
#[derive(Debug, Copy, Clone, PartialEq, Eq, Structural)]
pub struct Ball {
    /// Position.
    pub pos: Vec2,
    /// Velocity.
    pub vel: Vec2,
}

impl Ball {
    pub fn new(pos: Vec2, vel: Vec2) -> (b: Ball)
        ensures
            b == (Ball { pos, vel }),
    {
        Ball { pos, vel }
    }
}

/// One player's control sample for one tick.
#[derive(Debug, Copy, Clone, PartialEq, Eq, Structural)]
pub struct Input {
    /// Vertical axis, nominally in [-127, 127].
    pub axis_y: i8,
    /// Button bitfield; bit 0 is "ready".
    pub buttons: u8,
}

impl Input {
    /// Whether bit 0 of `buttons` is set.
    pub open spec fn ready(self) -> bool {
        self.buttons % 2 == 1
    }

    pub fn new(axis_y: i8, buttons: u8) -> (i: Input)
        ensures
            i == (Input { axis_y, buttons }),
    {
        Input { axis_y, buttons }
    }

    /// The neutral input: no deflection, no buttons.
    pub fn zero() -> (i: Input)
        ensures
            i == (Input { axis_y: 0, buttons: 0 }),
    {
        Input { axis_y: 0, buttons: 0 }
    }

    /// Whether the ready button (bit 0) is pressed.
    pub fn is_ready(&self) -> (b: bool)
        ensures
            b == self.ready(),
    {
        let buttons = self.buttons;
        assert((buttons & 1) != 0 <==> buttons % 2 == 1) by (bit_vector);
        (buttons & 1) != 0
    }
}

/// Both players' inputs for one tick; `a` is always the left player and `b`
/// the right one.
#[derive(Debug, Copy, Clone, PartialEq, Eq, Structural)]
pub struct InputPair {
    pub tick: Tick,
    pub a: Input,
    pub b: Input,
}

impl InputPair {
    /// The input of `side`.
    pub open spec fn input_of(self, side: Side) -> Input {
        match side {
            Side::Left => self.a,
            Side::Right => self.b,
        }
    }

    pub fn new(tick: Tick, a: Input, b: Input) -> (p: InputPair)
        ensures
            p == (InputPair { tick, a, b }),
    {
        InputPair { tick, a, b }
    }

    /// Returns the input of `side`.
    pub fn get_input(&self, side: Side) -> (i: Input)
        ensures
            i == self.input_of(side),
    {
        match side {
            Side::Left => self.a,
            Side::Right => self.b,
        }
    }
}

/// Complete, restorable simulation state.
#[derive(Debug, Copy, Clone, PartialEq)]
pub struct Snapshot {
    pub tick: Tick,
    pub status: Status,
    pub paddles: [Paddle; 2],
    pub ball: Ball,
    pub score: [u8; 2],
    pub rng: u64,
}

/// Rectangle in screen cells, bounds inclusive.
#[derive(Debug, Copy, Clone)]
pub struct ScreenRect {
    pub left: usize,
    pub right: usize,
    pub top: usize,
    pub bottom: usize,
}

impl ScreenRect {
    pub fn new(left: usize, right: usize, top: usize, bottom: usize) -> (r: ScreenRect)
        ensures
            r == (ScreenRect { left, right, top, bottom }),
    {
        ScreenRect { left, right, top, bottom }
    }

    /// Top row of a paddle of `height` rows centered at row `center_y` in a
    /// field of `field_height` rows: half the height above the center, but
    /// moved as far as needed to keep the whole paddle inside the field.
    pub open spec fn paddle_top(center_y: int, height: int, field_height: int) -> int {
        let top = if center_y >= height / 2 {
            center_y - height / 2
        } else {
            0
        };
        if top + height - 1 >= field_height {
            field_height - height
        } else {
            top
        }
    }

    /// The rectangle of a paddle of the given size centered at the given
    /// cell. The paddle is exactly `height` rows tall wherever it stands and
    /// lies inside the field; its columns are cut at the field's edges.
    pub fn for_paddle(
        center_x: usize,
        center_y: usize,
        width: usize,
        height: usize,
        field_width: usize,
        field_height: usize,
    ) -> (r: ScreenRect)
        requires
            1 <= height <= field_height,
            center_y + height <= usize::MAX,
            center_x + width / 2 <= usize::MAX,
        ensures
            r.top == Self::paddle_top(center_y as int, height as int, field_height as int),
            r.bottom == r.top + height - 1,
            r.bottom < field_height,
            r.left == (if center_x >= width / 2 {
                center_x - width / 2
            } else {
                0
            }),
            r.right == (if field_width == 0 {
                0
            } else if center_x + width / 2 <= field_width - 1 {
                center_x + width / 2
            } else {
                field_width - 1
            }),
    {
        let half_height = height / 2;
        let top = if center_y >= half_height {
            center_y - half_height
        } else {
            0
        };
        let bottom = top + height - 1;

        let (final_top, final_bottom) = if bottom >= field_height {
            let final_bottom = field_height - 1;
            let final_top = final_bottom + 1 - height;
            (final_top, final_bottom)
        } else {
            (top, bottom)
        };

        let half_width = width / 2;
        let left = if center_x >= half_width {
            center_x - half_width
        } else {
            0
        };
        let last_column = if field_width == 0 {
            0
        } else {
            field_width - 1
        };
        let right = if center_x + half_width <= last_column {
            center_x + half_width
        } else {
            last_column
        };

        ScreenRect { left, right, top: final_top, bottom: final_bottom }
    }
}

/// Read-only projection of the game for a renderer, in field coordinates.
#[derive(Debug, Copy, Clone)]
pub struct View {
    pub tick: Tick,
    pub status: Status,
    /// Scores, left then right.
    pub score: [u8; 2],
    pub left_paddle_y: Fx,
    pub right_paddle_y: Fx,
    pub paddle_half_h: Fx,
    pub ball_pos: Vec2,
    /// Distance of each paddle from its edge.
    pub paddle_x_offset: Fx,
    pub paddle_width: Fx,
    pub ball_radius: Fx,
}

/// What a step can report to the caller.
#[derive(Debug, Copy, Clone, PartialEq, Eq)]
pub enum Event {
    /// A point was scored; `score` is the score after the point.
    Scored { scorer: Side, score: [u8; 2] },
}

} // verus!
