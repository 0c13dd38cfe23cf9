//! The game state machine: lobby, countdown, play, score pause, game over.
//! One call of `step` is one tick.

use crate::physics::{Physics, FIELD_RANGE, VELOCITY_RANGE};
use crate::types::fx::{lemma_mul_fx_range, mul_fx, mul_fx_spec};
use crate::types::{
    Ball, Config, Event, Fx, InputPair, Paddle, Side, Snapshot, Status, Tick, Vec2, FX_ONE,
    MAX_BALL_SPEED,
};
use vstd::prelude::*;

verus! {

/// Length in ticks of the countdown before play and of the pause after a
/// point, whatever the tick rate.
pub const PAUSE_TICKS: u16 = 180;

/// The ball is capped at the serve speed times this (4.0).
pub const MAX_SPEED_FACTOR: Fx = 262144;

/// Game state: the configuration and everything a snapshot holds.
pub struct Game {
    pub config: Config,
    pub tick: Tick,
    pub status: Status,
    pub paddles: [Paddle; 2],
    pub ball: Ball,
    pub score: [u8; 2],
    pub rng: u64,
}

impl Game {
    /// Everything but the configuration, as a snapshot.
    pub open spec fn state(self) -> Snapshot {
        Snapshot {
            tick: self.tick,
            status: self.status,
            paddles: self.paddles,
            ball: self.ball,
            score: self.score,
            rng: self.rng,
        }
    }

    /// The game with this configuration in the state of `snapshot`.
    pub open spec fn with_state(self, snapshot: Snapshot) -> Game {
        Game {
            config: self.config,
            tick: snapshot.tick,
            status: snapshot.status,
            paddles: snapshot.paddles,
            ball: snapshot.ball,
            score: snapshot.score,
            rng: snapshot.rng,
        }
    }

    /// The game at the start of a match: tick 0, lobby, no score, paddles at
    /// rest in the middle, and the ball served by the left side from the
    /// seed.
    pub open spec fn initial(config: Config) -> Game {
        let rng = Physics::lcg_next(config.seed);
        Game {
            config,
            tick: 0,
            status: Status::Lobby,
            paddles: [Paddle { y: 32768, vy: 0 }, Paddle { y: 32768, vy: 0 }],
            ball: Physics::served_ball(Side::Left, config, rng),
            score: [0u8, 0u8],
            rng,
        }
    }

    /// A state from which the simulation stays within 32-bit fixed point
    /// forever: a valid configuration, paddles and ball in range, and, while
    /// a point can still be scored, the ball near the field and both scores
    /// below 255. After a point the ball may lie one tick beyond.
    pub open spec fn wf(self) -> bool {
        &&& self.config.valid()
        &&& -FIELD_RANGE <= self.paddles[0].y <= FIELD_RANGE
        &&& -FIELD_RANGE <= self.paddles[1].y <= FIELD_RANGE
        &&& -FIELD_RANGE <= self.ball.pos.y <= FIELD_RANGE
        &&& -VELOCITY_RANGE <= self.ball.vel.x <= VELOCITY_RANGE
        &&& -VELOCITY_RANGE <= self.ball.vel.y <= VELOCITY_RANGE
        &&& match self.status {
            Status::Scored(_, _) | Status::GameOver(_) => -FIELD_RANGE - VELOCITY_RANGE
                <= self.ball.pos.x <= FIELD_RANGE + VELOCITY_RANGE,
            _ => {
                &&& -FIELD_RANGE <= self.ball.pos.x <= FIELD_RANGE
                &&& self.score[0] < 255
                &&& self.score[1] < 255
            },
        }
    }

    /// The inputs on which `step` works: a well-formed game, inputs for the
    /// game's own tick, and a tick counter that can still advance.
    pub open spec fn can_step(self, inputs: InputPair) -> bool {
        &&& self.wf()
        &&& inputs.tick == self.tick
        &&& self.tick < u32::MAX
    }

    /// Fastest the ball may go: four times the serve speed.
    pub open spec fn max_ball_speed(config: Config) -> Fx {
        mul_fx_spec(config.ball_speed, MAX_SPEED_FACTOR)
    }

    /// The left paddle after its update under `inputs`.
    pub open spec fn left_after(self, inputs: InputPair) -> Paddle {
        Physics::paddle_after(self.paddles[0], inputs.a, self.config)
    }

    /// The right paddle after its update under `inputs`.
    pub open spec fn right_after(self, inputs: InputPair) -> Paddle {
        Physics::paddle_after(self.paddles[1], inputs.b, self.config)
    }

    /// The ball after a tick of free flight.
    pub open spec fn ball_in_flight(self) -> Ball {
        Physics::ball_after(self.ball, self.config)
    }

    /// The ball after flight and the check against the left paddle.
    pub open spec fn ball_off_left(self, inputs: InputPair) -> Ball {
        Physics::ball_after_collision(
            self.ball_in_flight(),
            self.left_after(inputs),
            Side::Left,
            self.config,
        )
    }

    /// The ball after flight and the checks against both paddles.
    pub open spec fn ball_off_right(self, inputs: InputPair) -> Ball {
        Physics::ball_after_collision(
            self.ball_off_left(inputs),
            self.right_after(inputs),
            Side::Right,
            self.config,
        )
    }

    /// The ball after a whole tick of play: flight, both paddle checks and
    /// the speed cap.
    pub open spec fn ball_played(self, inputs: InputPair) -> Ball {
        Physics::ball_limited(self.ball_off_right(inputs), Self::max_ball_speed(self.config))
    }

    /// The score after a point for `scorer`.
    pub open spec fn score_after(score: [u8; 2], scorer: Side) -> [u8; 2] {
        match scorer {
            Side::Left => [(score[0] + 1) as u8, score[1]],
            Side::Right => [score[0], (score[1] + 1) as u8],
        }
    }

    /// The winner by the score, if any: left first.
    pub open spec fn winner_by_score(self) -> Option<Side> {
        if self.score[0] >= self.config.max_score {
            Some(Side::Left)
        } else if self.score[1] >= self.config.max_score {
            Some(Side::Right)
        } else {
            None
        }
    }

    /// The game after being served by `serving_side`: the generator advances
    /// and the ball is launched from the center.
    pub open spec fn served(self, serving_side: Side) -> Game {
        let rng = Physics::lcg_next(self.rng);
        Game { ball: Physics::served_ball(serving_side, self.config, rng), rng, ..self }
    }

    /// The game after one tick under `inputs`, tick counter not yet
    /// advanced.
    pub open spec fn advanced(self, inputs: InputPair) -> Game {
        match self.status {
            Status::Lobby => if inputs.a.ready() && inputs.b.ready() {
                Game { status: Status::Countdown(PAUSE_TICKS), ..self }
            } else {
                self
            },
            Status::Countdown(n) => if n <= 1 {
                Game { status: Status::Playing, ..self }
            } else {
                Game { status: Status::Countdown((n - 1) as u16), ..self }
            },
            Status::Playing => {
                let ball = self.ball_played(inputs);
                let moved = Game {
                    paddles: [self.left_after(inputs), self.right_after(inputs)],
                    ball,
                    ..self
                };
                match Physics::scorer(ball) {
                    Some(scorer) => Game {
                        score: Self::score_after(self.score, scorer),
                        status: Status::Scored(scorer, PAUSE_TICKS),
                        ..moved
                    },
                    None => moved,
                }
            },
            Status::Scored(scorer, n) => if n <= 1 {
                match self.winner_by_score() {
                    Some(winner) => Game { status: Status::GameOver(winner), ..self },
                    None => Game { status: Status::Playing, ..self.served(scorer.opposite_spec()) },
                }
            } else {
                Game { status: Status::Scored(scorer, (n - 1) as u16), ..self }
            },
            Status::GameOver(_) => self,
        }
    }

    /// The game after `step(inputs)`.
    pub open spec fn stepped(self, inputs: InputPair) -> Game {
        Game { tick: (self.tick + 1) as u32, ..self.advanced(inputs) }
    }

    /// What `step(inputs)` reports: the point, on the tick it is scored.
    pub open spec fn step_event(self, inputs: InputPair) -> Option<Event> {
        match self.status {
            Status::Playing => match Physics::scorer(self.ball_played(inputs)) {
                Some(scorer) => Some(
                    Event::Scored { scorer, score: Self::score_after(self.score, scorer) },
                ),
                None => None,
            },
            _ => None,
        }
    }

    /// The projection that `view` returns.
    pub open spec fn view_spec(self) -> crate::types::View {
        crate::types::View {
            tick: self.tick,
            status: self.status,
            score: self.score,
            left_paddle_y: self.paddles[0].y,
            right_paddle_y: self.paddles[1].y,
            paddle_half_h: self.config.paddle_half_h,
            ball_pos: self.ball.pos,
            paddle_x_offset: self.config.paddle_x,
            paddle_width: self.config.paddle_width,
            ball_radius: self.config.ball_radius,
        }
    }

    /// In a well-formed game a tick of play stays within 32 bits at every
    /// stage, and ends with paddles in the field, the ball between the
    /// walls and at most one tick outside the field, and its velocity back
    /// in range.
    pub proof fn lemma_play_in_range(self, inputs: InputPair)
        requires
            self.wf(),
            -FIELD_RANGE <= self.ball.pos.x <= FIELD_RANGE,
        ensures
            Physics::paddle_step_fits(self.paddles[0], inputs.a, self.config),
            Physics::paddle_step_fits(self.paddles[1], inputs.b, self.config),
            Physics::ball_step_fits(self.ball, self.config),
            Physics::collision_fits(
                self.ball_in_flight(),
                self.left_after(inputs),
                Side::Left,
                self.config,
            ),
            Physics::collision_fits(
                self.ball_off_left(inputs),
                self.right_after(inputs),
                Side::Right,
                self.config,
            ),
            Self::max_ball_speed(self.config) == 4 * self.config.ball_speed,
            Physics::limit_fits(self.ball_off_right(inputs), Self::max_ball_speed(self.config)),
            0 <= self.left_after(inputs).y <= FX_ONE,
            0 <= self.right_after(inputs).y <= FX_ONE,
            0 <= self.ball_played(inputs).pos.y <= FX_ONE,
            -FIELD_RANGE - VELOCITY_RANGE <= self.ball_played(inputs).pos.x <= FIELD_RANGE
                + VELOCITY_RANGE,
            -VELOCITY_RANGE <= self.ball_played(inputs).vel.x <= VELOCITY_RANGE,
            -VELOCITY_RANGE <= self.ball_played(inputs).vel.y <= VELOCITY_RANGE,
    {
        let c = self.config;
        Physics::lemma_paddle_stage(self.paddles[0], inputs.a, c);
        Physics::lemma_paddle_stage(self.paddles[1], inputs.b, c);
        Physics::lemma_ball_stage(self.ball, c);
        Physics::lemma_collision_stage(
            self.ball_in_flight(),
            self.left_after(inputs),
            Side::Left,
            c,
            VELOCITY_RANGE as int,
        );
        // each paddle may add its spin and double the velocity:
        // 3153985 == 2 * (VELOCITY_RANGE + 528416) + 1
        Physics::lemma_collision_stage(
            self.ball_off_left(inputs),
            self.right_after(inputs),
            Side::Right,
            c,
            3153985,
        );
        lemma_mul_fx_range(
            c.ball_speed,
            MAX_SPEED_FACTOR,
            MAX_BALL_SPEED as int,
            MAX_SPEED_FACTOR as int,
        );
        Physics::lemma_limit_stage(self.ball_off_right(inputs), Self::max_ball_speed(c));
    }

    /// A step keeps a well-formed game well-formed.
    pub proof fn lemma_step_keeps_wf(self, inputs: InputPair)
        requires
            self.wf(),
            self.tick < u32::MAX,
        ensures
            self.stepped(inputs).wf(),
            self.stepped(inputs).config == self.config,
            self.stepped(inputs).tick == self.tick + 1,
    {
        match self.status {
            Status::Playing => {
                self.lemma_play_in_range(inputs);
            },
            Status::Scored(scorer, n) => {
                Physics::lemma_serve_vy_range(Physics::lcg_next(self.rng));
            },
            _ => {},
        }
    }

    /// The game at the start of a match under a valid configuration is
    /// well-formed.
    pub proof fn lemma_initial_wf(config: Config)
        requires
            config.valid(),
        ensures
            Self::initial(config).wf(),
    {
        Physics::lemma_serve_vy_range(Physics::lcg_next(config.seed));
    }
}

impl Game {
    /// The text that `status_string` returns for a status.
    pub open spec fn status_text(status: Status) -> Seq<char> {
        match status {
            Status::Lobby => "Waiting for players"@,
            Status::Countdown(_) => "Get ready..."@,
            Status::Playing => "Playing"@,
            Status::Scored(_, _) => "Point scored!"@,
            Status::GameOver(_) => "Game over"@,
        }
    }

    /// Creates a game at the start of a match. The serve speed must have a
    /// negative in 32 bits.
    pub fn new(config: Config) -> (game: Game)
        requires
            config.ball_speed > i32::MIN,
        ensures
            game == Game::initial(config),
            config.valid() ==> game.wf(),
    {
        let mut game = Game {
            config,
            tick: 0,
            status: Status::Lobby,
            paddles: [Paddle::new(FX_ONE / 2), Paddle::new(FX_ONE / 2)],
            ball: Ball::new(Vec2::new(FX_ONE / 2, FX_ONE / 2), Vec2::zero()),
            score: [0, 0],
            rng: config.seed,
        };

        game.reset_for_serve(Side::Left);
        proof {
            if config.valid() {
                Game::lemma_initial_wf(config);
            }
        }
        game
    }

    /// Decides `wf`.
    pub fn is_wf(&self) -> (b: bool)
        ensures
            b == self.wf(),
    {
        let in_play = match self.status {
            Status::Scored(_, _) | Status::GameOver(_) => false,
            _ => true,
        };
        let reach = if in_play {
            FIELD_RANGE
        } else {
            FIELD_RANGE + VELOCITY_RANGE
        };
        self.config.is_valid() && -FIELD_RANGE <= self.paddles[0].y && self.paddles[0].y
            <= FIELD_RANGE && -FIELD_RANGE <= self.paddles[1].y && self.paddles[1].y
            <= FIELD_RANGE && -FIELD_RANGE <= self.ball.pos.y && self.ball.pos.y <= FIELD_RANGE
            && -VELOCITY_RANGE <= self.ball.vel.x && self.ball.vel.x <= VELOCITY_RANGE
            && -VELOCITY_RANGE <= self.ball.vel.y && self.ball.vel.y <= VELOCITY_RANGE && -reach
            <= self.ball.pos.x && self.ball.pos.x <= reach && (!in_play || (self.score[0] < 255
            && self.score[1] < 255))
    }

    /// Decides `can_step`: whether `step` may be called with `inputs`.
    pub fn accepts(&self, inputs: &InputPair) -> (b: bool)
        ensures
            b == self.can_step(*inputs),
    {
        inputs.tick == self.tick && self.tick < u32::MAX && self.is_wf()
    }

    /// Advances the simulation by one tick under the inputs of that tick.
    /// Reports a point on the tick it is scored. The tick counter always
    /// advances by one.
    pub fn step(&mut self, inputs: &InputPair) -> (event: Option<Event>)
        requires
            old(self).can_step(*inputs),
        ensures
            *final(self) == old(self).stepped(*inputs),
            event == old(self).step_event(*inputs),
            final(self).wf(),
            final(self).config == old(self).config,
            final(self).tick == old(self).tick + 1,
    {
        let ghost start = *self;
        proof {
            start.lemma_step_keeps_wf(*inputs);
        }
        let mut event = None;

        match self.status {
            Status::Lobby => {
                if inputs.a.is_ready() && inputs.b.is_ready() {
                    self.status = Status::Countdown(PAUSE_TICKS);
                }
            },
            Status::Countdown(ticks_remaining) => {
                if ticks_remaining <= 1 {
                    self.status = Status::Playing;
                } else {
                    self.status = Status::Countdown(ticks_remaining - 1);
                }
            },
            Status::Playing => {
                event = self.play(inputs);
            },
            Status::Scored(scorer, ticks_remaining) => {
                if ticks_remaining <= 1 {
                    if self.score[0] >= self.config.max_score || self.score[1]
                        >= self.config.max_score {
                        let winner = if self.score[0] >= self.config.max_score {
                            Side::Left
                        } else {
                            Side::Right
                        };
                        self.status = Status::GameOver(winner);
                    } else {
                        self.reset_for_serve(scorer.opposite());
                        self.status = Status::Playing;
                    }
                } else {
                    self.status = Status::Scored(scorer, ticks_remaining - 1);
                }
            },
            Status::GameOver(_) => {},
        }

        self.tick += 1;
        event
    }

    /// The projection of the game that a renderer needs.
    pub fn view(&self) -> (v: crate::types::View)
        ensures
            v == self.view_spec(),
    {
        crate::types::View {
            tick: self.tick,
            status: self.status,
            score: self.score,
            left_paddle_y: self.paddles[0].y,
            right_paddle_y: self.paddles[1].y,
            paddle_half_h: self.config.paddle_half_h,
            ball_pos: self.ball.pos,
            paddle_x_offset: self.config.paddle_x,
            paddle_width: self.config.paddle_width,
            ball_radius: self.config.ball_radius,
        }
    }

    /// A snapshot of the current state.
    pub fn snapshot(&self) -> (s: Snapshot)
        ensures
            s == self.state(),
    {
        Snapshot {
            tick: self.tick,
            status: self.status,
            paddles: self.paddles,
            ball: self.ball,
            score: self.score,
            rng: self.rng,
        }
    }

    /// Puts the game into the state of `snapshot`; the configuration stays.
    pub fn restore(&mut self, snapshot: &Snapshot)
        ensures
            *final(self) == old(self).with_state(*snapshot),
            final(self).state() == *snapshot,
            final(self).config == old(self).config,
    {
        self.tick = snapshot.tick;
        self.status = snapshot.status;
        self.paddles = snapshot.paddles;
        self.ball = snapshot.ball;
        self.score = snapshot.score;
        self.rng = snapshot.rng;
    }

    /// Puts the game back to the start of a match, as `new` made it.
    pub fn reset_match(&mut self)
        requires
            old(self).config.ball_speed > i32::MIN,
        ensures
            *final(self) == Game::initial(old(self).config),
            old(self).config.valid() ==> final(self).wf(),
    {
        self.tick = 0;
        self.status = Status::Lobby;
        self.score = [0, 0];
        self.paddles = [Paddle::new(FX_ONE / 2), Paddle::new(FX_ONE / 2)];
        self.rng = self.config.seed;
        self.reset_for_serve(Side::Left);
        proof {
            if self.config.valid() {
                Game::lemma_initial_wf(self.config);
            }
        }
    }

    /// One tick of play: paddles, ball, both paddle checks, the speed cap
    /// and the scoring check.
    fn play(&mut self, inputs: &InputPair) -> (event: Option<Event>)
        requires
            old(self).wf(),
            old(self).status == Status::Playing,
        ensures
            *final(self) == old(self).advanced(*inputs),
            event == old(self).step_event(*inputs),
    {
        let ghost start = *self;
        proof {
            start.lemma_play_in_range(*inputs);
        }
        Physics::update_paddle(&mut self.paddles[0], &inputs.a, &self.config);
        Physics::update_paddle(&mut self.paddles[1], &inputs.b, &self.config);
        assert(self.paddles =~= [start.left_after(*inputs), start.right_after(*inputs)]);

        Physics::update_ball(&mut self.ball, &self.config);

        Physics::check_paddle_collision(&mut self.ball, &self.paddles[0], Side::Left, &self.config);
        Physics::check_paddle_collision(
            &mut self.ball,
            &self.paddles[1],
            Side::Right,
            &self.config,
        );

        let max_speed = mul_fx(self.config.ball_speed, MAX_SPEED_FACTOR);
        Physics::limit_ball_speed(&mut self.ball, max_speed);
        assert(self.ball == start.ball_played(*inputs));

        if let Some(scorer) = Physics::check_scoring(&self.ball) {
            self.handle_score(scorer);

            Some(Event::Scored { scorer, score: self.score })
        } else {
            None
        }
    }

    /// Books a point for `scorer` and starts the pause.
    fn handle_score(&mut self, scorer: Side)
        requires
            old(self).score[scorer.index()] < 255,
        ensures
            *final(self) == (Game {
                score: Self::score_after(old(self).score, scorer),
                status: Status::Scored(scorer, PAUSE_TICKS),
                ..*old(self)
            }),
    {
        match scorer {
            Side::Left => self.score[0] += 1,
            Side::Right => self.score[1] += 1,
        }
        assert(self.score =~= Self::score_after(old(self).score, scorer));

        self.status = Status::Scored(scorer, PAUSE_TICKS);
    }

    /// Serves the ball from `serving_side`.
    fn reset_for_serve(&mut self, serving_side: Side)
        requires
            old(self).config.ball_speed > i32::MIN,
        ensures
            *final(self) == old(self).served(serving_side),
    {
        Physics::serve_ball(&mut self.ball, serving_side, &self.config, &mut self.rng);
    }

    /// The winner, once the game is over.
    pub fn winner(&self) -> (w: Option<Side>)
        ensures
            w == (match self.status {
                Status::GameOver(winner) => Some(winner),
                _ => None,
            }),
    {
        match self.status {
            Status::GameOver(winner) => Some(winner),
            _ => None,
        }
    }

    /// Whether play is on.
    pub fn is_active(&self) -> (b: bool)
        ensures
            b == (self.status == Status::Playing),
    {
        match self.status {
            Status::Playing => true,
            _ => false,
        }
    }

    /// A human-readable name of the status.
    pub fn status_string(&self) -> (text: &'static str)
        ensures
            text@ == Self::status_text(self.status),
    {
        match self.status {
            Status::Lobby => "Waiting for players",
            Status::Countdown(_) => "Get ready...",
            Status::Playing => "Playing",
            Status::Scored(_, _) => "Point scored!",
            Status::GameOver(_) => "Game over",
        }
    }
}

impl Game {
    /// The game after the steps of `inputs`, first to last.
    pub open spec fn after(self, inputs: Seq<InputPair>) -> Game
        decreases inputs.len(),
    {
        if inputs.len() == 0 {
            self
        } else {
            self.after(inputs.drop_last()).stepped(inputs.last())
        }
    }

    /// The inputs are in tick order from the game's tick on, and the tick
    /// counter can take them all.
    pub open spec fn in_tick_order(self, inputs: Seq<InputPair>) -> bool {
        &&& self.tick + inputs.len() <= u32::MAX
        &&& forall|k: int| 0 <= k < inputs.len() ==> (#[trigger] inputs[k]).tick == self.tick + k
    }

    /// Invariant: from a well-formed game, inputs in tick order can be
    /// stepped one after another, each step being allowed, and the game
    /// stays well-formed throughout.
    pub proof fn lemma_run_keeps_wf(self, inputs: Seq<InputPair>)
        requires
            self.wf(),
            self.in_tick_order(inputs),
        ensures
            self.after(inputs).wf(),
            self.after(inputs).config == self.config,
            self.after(inputs).tick == self.tick + inputs.len(),
            forall|k: int|
                0 <= k < inputs.len() ==> (#[trigger] self.after(inputs.take(k))).can_step(
                    inputs[k],
                ),
        decreases inputs.len(),
    {
        if inputs.len() > 0 {
            let front = inputs.drop_last();
            self.lemma_run_keeps_wf(front);
            let before = self.after(front);
            before.lemma_step_keeps_wf(inputs.last());
            assert forall|k: int| 0 <= k < inputs.len() implies (#[trigger] self.after(
                inputs.take(k),
            )).can_step(inputs[k]) by {
                if k < front.len() {
                    assert(inputs.take(k) =~= front.take(k));
                } else {
                    assert(inputs.take(k) =~= front);
                }
            }
        }
    }

    /// Determinism: two games with the same configuration and the same
    /// state stay in the same state, and report the same events, under the
    /// same inputs, after each step.
    pub proof fn lemma_deterministic(self, other: Game, inputs: Seq<InputPair>)
        requires
            self.config == other.config,
            self.state() == other.state(),
        ensures
            forall|k: int|
                0 <= k <= inputs.len() ==> (#[trigger] self.after(inputs.take(k))).state()
                    == other.after(inputs.take(k)).state(),
            forall|k: int|
                0 <= k < inputs.len() ==> (#[trigger] self.after(inputs.take(k))).step_event(
                    inputs[k],
                ) == other.after(inputs.take(k)).step_event(inputs[k]),
    {
        self.lemma_state_determines(other);
    }

    /// A game is its configuration and its state.
    pub proof fn lemma_state_determines(self, other: Game)
        requires
            self.config == other.config,
            self.state() == other.state(),
        ensures
            self == other,
    {
        assert(self.paddles == other.paddles);
        assert(self.score == other.score);
    }

    /// Snapshot equivalence: restoring a game's own snapshot changes
    /// nothing, and the state after a restore is the snapshot.
    pub proof fn lemma_restore_own_snapshot(self, snapshot: Snapshot)
        ensures
            self.with_state(self.state()) == self,
            self.with_state(snapshot).state() == snapshot,
            self.with_state(snapshot).config == self.config,
    {
    }

    /// Snapshot equivalence: a game that has moved on and is then restored
    /// to a snapshot is the game that a fresh instance of the same
    /// configuration is after restoring the snapshot, and both follow the
    /// same trajectory under the same further inputs.
    pub proof fn lemma_restore_replays(
        self,
        later: Game,
        snapshot: Snapshot,
        inputs: Seq<InputPair>,
    )
        requires
            later.config == self.config,
        ensures
            later.with_state(snapshot) == self.with_state(snapshot),
            later.with_state(snapshot).after(inputs) == self.with_state(snapshot).after(inputs),
            later.with_state(self.state()) == self,
    {
    }
}

} // verus!
