use pong_core::{Config, Event, Game, Input, InputPair, Side, Snapshot, Status, FX_ONE};

#[test]
fn test_game_creation() {
    let config = Config::default();
    let game = Game::new(config);

    assert_eq!(game.tick, 0);
    assert_eq!(game.status, Status::Lobby);
    assert_eq!(game.score, [0, 0]);
    assert_eq!(game.ball.pos.x, FX_ONE / 2);
    assert_eq!(game.ball.pos.y, FX_ONE / 2);
}

#[test]
fn test_lobby_to_countdown() {
    let mut game = Game::new(Config::default());

    // Both players ready
    let inputs = InputPair::new(0, Input::new(0, 1), Input::new(0, 1));
    let event = game.step(&inputs);

    assert!(matches!(game.status, Status::Countdown(_)));
    assert!(event.is_none());
}

#[test]
fn test_countdown_to_playing() {
    let mut game = Game::new(Config::default());
    game.status = Status::Countdown(1);

    let inputs = InputPair::new(0, Input::zero(), Input::zero());
    let event = game.step(&inputs);

    assert_eq!(game.status, Status::Playing);
    assert!(event.is_none());
}

#[test]
fn test_paddle_movement_during_play() {
    let mut game = Game::new(Config::default());
    game.status = Status::Playing;

    let initial_left_y = game.paddles[0].y;

    // Move left paddle up
    let inputs = InputPair::new(0, Input::new(127, 0), Input::zero());
    game.step(&inputs);

    assert_ne!(game.paddles[0].y, initial_left_y);
    assert!(game.paddles[0].vy > 0); // Moving up
}

#[test]
fn test_scoring() {
    let mut game = Game::new(Config::default());
    game.status = Status::Playing;

    // Move ball past right edge to simulate scoring
    game.ball.pos.x = FX_ONE + 1000;

    let inputs = InputPair::new(0, Input::zero(), Input::zero());
    let event = game.step(&inputs);

    // Left player should have scored
    assert_eq!(game.score[0], 1);
    assert!(matches!(game.status, Status::Scored(Side::Left, _)));

    if let Some(Event::Scored { scorer, score }) = event {
        assert_eq!(scorer, Side::Left);
        assert_eq!(score, [1, 0]);
    } else {
        panic!("Expected scoring event");
    }
}

#[test]
fn test_game_over() {
    let mut game = Game::new(Config::default());
    game.score[0] = game.config.max_score; // Left player at max score
    game.status = Status::Scored(Side::Left, 1); // About to transition

    let inputs = InputPair::new(0, Input::zero(), Input::zero());
    game.step(&inputs);

    assert!(matches!(game.status, Status::GameOver(Side::Left)));
    assert_eq!(game.winner(), Some(Side::Left));
}

#[test]
fn test_serve_after_score() {
    let mut game = Game::new(Config::default());
    game.score = [1, 0];
    game.status = Status::Scored(Side::Left, 1); // Left scored, about to serve

    let inputs = InputPair::new(0, Input::zero(), Input::zero());
    game.step(&inputs);

    // Should be playing again
    assert_eq!(game.status, Status::Playing);
    // Ball should be at center
    assert_eq!(game.ball.pos.x, FX_ONE / 2);
    assert_eq!(game.ball.pos.y, FX_ONE / 2);
    // Ball should be moving (right side serves since left scored)
    assert!(game.ball.vel.x != 0 || game.ball.vel.y != 0);
}

#[test]
fn test_snapshot_and_restore() {
    let mut game1 = Game::new(Config::default());
    game1.tick = 100;
    game1.score[0] = 3;
    game1.score[1] = 2;
    game1.status = Status::Playing;

    let snapshot = game1.snapshot();

    let mut game2 = Game::new(Config::default());
    game2.restore(&snapshot);

    assert_eq!(game1.tick, game2.tick);
    assert_eq!(game1.status, game2.status);
    assert_eq!(game1.score, game2.score);
    assert_eq!(game1.paddles[0].y, game2.paddles[0].y);
    assert_eq!(game1.paddles[1].y, game2.paddles[1].y);
    assert_eq!(game1.ball.pos, game2.ball.pos);
    assert_eq!(game1.ball.vel, game2.ball.vel);
    assert_eq!(game1.rng, game2.rng);
}

#[test]
fn test_reset_match() {
    let mut game = Game::new(Config::default());
    game.tick = 1000;
    game.score = [5, 3];
    game.status = Status::GameOver(Side::Left);

    game.reset_match();

    assert_eq!(game.tick, 0);
    assert_eq!(game.status, Status::Lobby);
    assert_eq!(game.score, [0, 0]);
    assert_eq!(game.paddles[0].y, FX_ONE / 2);
    assert_eq!(game.paddles[1].y, FX_ONE / 2);
}

#[test]
fn test_view_generation() {
    let game = Game::new(Config::default());
    let view = game.view();

    assert_eq!(view.tick, game.tick);
    assert_eq!(view.status, game.status);
    assert_eq!(view.left_paddle_y, game.paddles[0].y);
    assert_eq!(view.right_paddle_y, game.paddles[1].y);
    assert_eq!(view.paddle_half_h, game.config.paddle_half_h);
    assert_eq!(view.ball_pos, game.ball.pos);
    assert_eq!(view.score, game.score);
}

#[test]
fn test_deterministic_simulation() {
    let config = Config::default();
    let mut game1 = Game::new(config);
    let mut game2 = Game::new(config);

    // Apply same inputs to both games
    let test_inputs = [
        InputPair::new(0, Input::new(0, 1), Input::new(0, 1)), // Ready
        InputPair::new(1, Input::new(50, 0), Input::new(-30, 0)), // Play
        InputPair::new(2, Input::new(-20, 0), Input::new(75, 0)), // Play
    ];

    for inputs in &test_inputs {
        game1.step(inputs);
        game2.step(inputs);
    }

    // Games should be in identical states
    assert_eq!(game1.tick, game2.tick);
    assert_eq!(game1.status, game2.status);
    assert_eq!(game1.paddles, game2.paddles);
    assert_eq!(game1.ball.pos, game2.ball.pos);
    assert_eq!(game1.ball.vel, game2.ball.vel);
    assert_eq!(game1.score, game2.score);
    assert_eq!(game1.rng, game2.rng);
}

#[test]
fn test_is_active() {
    let mut game = Game::new(Config::default());

    assert!(!game.is_active()); // Lobby

    game.status = Status::Playing;
    assert!(game.is_active());

    game.status = Status::GameOver(Side::Left);
    assert!(!game.is_active());
}

#[test]
fn test_status_string() {
    let mut game = Game::new(Config::default());

    assert_eq!(game.status_string(), "Waiting for players");

    game.status = Status::Playing;
    assert_eq!(game.status_string(), "Playing");

    game.status = Status::GameOver(Side::Left);
    assert_eq!(game.status_string(), "Game over");
}

#[test]
fn test_status_string_all_variants() {
    let mut game = Game::new(Config::default());
    game.status = Status::Countdown(5);
    assert_eq!(game.status_string(), "Get ready...");
    game.status = Status::Scored(Side::Right, 5);
    assert_eq!(game.status_string(), "Point scored!");
}

#[test]
fn test_new_game_serves_from_seed() {
    let game = Game::new(Config::default());
    assert_eq!(game.rng, 13957735330327695);
    assert_eq!(game.ball.vel.x, 32768);
    assert_eq!(game.ball.vel.y, -49093);
    assert_eq!(game.paddles[0].vy, 0);
    assert_eq!(game.paddles[1].vy, 0);
    assert!(game.is_wf());
}

#[test]
fn test_lobby_needs_both_ready() {
    let mut game = Game::new(Config::default());
    let event = game.step(&InputPair::new(0, Input::new(0, 1), Input::new(0, 0)));
    assert_eq!(game.status, Status::Lobby);
    assert_eq!(game.tick, 1);
    assert!(event.is_none());

    let event = game.step(&InputPair::new(1, Input::new(0, 1), Input::new(0, 1)));
    assert_eq!(game.status, Status::Countdown(180));
    assert_eq!(game.tick, 2);
    assert!(event.is_none());
}

#[test]
fn test_countdown_decrements() {
    let mut game = Game::new(Config::default());
    game.status = Status::Countdown(180);
    let ball = game.ball;
    game.step(&InputPair::new(0, Input::new(127, 0), Input::zero()));
    assert_eq!(game.status, Status::Countdown(179));
    // no physics during the countdown
    assert_eq!(game.ball, ball);
    assert_eq!(game.paddles[0].y, FX_ONE / 2);

    game.status = Status::Countdown(0);
    game.step(&InputPair::new(1, Input::zero(), Input::zero()));
    assert_eq!(game.status, Status::Playing);
}

#[test]
fn test_scored_pause_decrements() {
    let mut game = Game::new(Config::default());
    game.score = [1, 0];
    game.status = Status::Scored(Side::Left, 180);
    let rng = game.rng;
    game.step(&InputPair::new(0, Input::zero(), Input::zero()));
    assert_eq!(game.status, Status::Scored(Side::Left, 179));
    assert_eq!(game.rng, rng);
}

#[test]
fn test_scored_side_receives_serve() {
    let mut game = Game::new(Config::default());
    game.score = [1, 0];
    game.status = Status::Scored(Side::Left, 1);
    game.step(&InputPair::new(0, Input::zero(), Input::zero()));
    // the right side was scored against and serves to the left
    assert_eq!(game.ball.vel.x, -32768);
    assert_eq!(game.rng, 3589746089417653020);
    assert_eq!(game.ball.vel.y, -12906);
}

#[test]
fn test_right_wins_at_max_score() {
    let mut game = Game::new(Config::default());
    game.score = [3, 11];
    game.status = Status::Scored(Side::Right, 1);
    game.step(&InputPair::new(0, Input::zero(), Input::zero()));
    assert_eq!(game.status, Status::GameOver(Side::Right));
    assert_eq!(game.winner(), Some(Side::Right));
}

#[test]
fn test_game_over_only_counts_ticks() {
    let mut game = Game::new(Config::default());
    game.status = Status::GameOver(Side::Left);
    let before = game.snapshot();
    let event = game.step(&InputPair::new(0, Input::new(127, 1), Input::new(-127, 1)));
    assert!(event.is_none());
    let after = game.snapshot();
    assert_eq!(after.tick, 1);
    assert_eq!(after.status, before.status);
    assert_eq!(after.paddles, before.paddles);
    assert_eq!(after.ball, before.ball);
    assert_eq!(after.score, before.score);
    assert_eq!(after.rng, before.rng);
    assert_eq!(game.winner(), Some(Side::Left));
}

#[test]
fn test_right_scores_when_ball_leaves_left() {
    let mut game = Game::new(Config::default());
    game.status = Status::Playing;
    game.ball.pos.x = -1;
    game.ball.vel.x = 0;
    let event = game.step(&InputPair::new(0, Input::zero(), Input::zero()));
    assert_eq!(event, Some(Event::Scored { scorer: Side::Right, score: [0, 1] }));
    assert_eq!(game.status, Status::Scored(Side::Right, 180));
    assert_eq!(game.score, [0, 1]);
}

#[test]
fn test_restore_of_own_snapshot_changes_nothing() {
    let mut game = Game::new(Config::default());
    game.status = Status::Playing;
    game.step(&InputPair::new(0, Input::new(40, 0), Input::new(-40, 0)));
    let snapshot = game.snapshot();
    game.restore(&snapshot);
    assert_eq!(game.snapshot(), snapshot);
}

#[test]
fn test_restore_replays_trajectory() {
    let config = Config::default();
    let mut game = Game::new(config);
    game.status = Status::Playing;
    let snapshot = game.snapshot();

    let inputs = [
        InputPair::new(0, Input::new(100, 0), Input::new(-100, 0)),
        InputPair::new(1, Input::new(100, 0), Input::new(-100, 0)),
        InputPair::new(2, Input::new(-5, 0), Input::new(9, 0)),
    ];
    let mut first: Vec<Snapshot> = Vec::new();
    for pair in &inputs {
        game.step(pair);
        first.push(game.snapshot());
    }

    // restore the moved-on game and replay
    game.restore(&snapshot);
    assert_eq!(game.snapshot(), snapshot);
    let mut fresh = Game::new(config);
    fresh.restore(&snapshot);
    for (i, pair) in inputs.iter().enumerate() {
        game.step(pair);
        fresh.step(pair);
        assert_eq!(game.snapshot(), first[i]);
        assert_eq!(fresh.snapshot(), first[i]);
    }
}

#[test]
fn test_determinism_over_a_rally() {
    let config = Config::default();
    let mut game1 = Game::new(config);
    let mut game2 = Game::new(config);
    game1.step(&InputPair::new(0, Input::new(0, 1), Input::new(0, 1)));
    game2.step(&InputPair::new(0, Input::new(0, 1), Input::new(0, 1)));
    for tick in 1..1500u32 {
        let axis = ((tick * 7) % 255) as i32 - 127;
        let pair = InputPair::new(tick, Input::new(axis as i8, 0), Input::new(-(axis as i8), 0));
        assert!(game1.accepts(&pair));
        let e1 = game1.step(&pair);
        let e2 = game2.step(&pair);
        assert_eq!(e1, e2);
        assert_eq!(game1.snapshot(), game2.snapshot());
        assert!(game1.is_wf());
    }
    assert_eq!(game1.tick, 1500);
}

#[test]
fn test_accepts_rejects_wrong_tick_and_bad_state() {
    let mut game = Game::new(Config::default());
    assert!(game.accepts(&InputPair::new(0, Input::zero(), Input::zero())));
    assert!(!game.accepts(&InputPair::new(1, Input::zero(), Input::zero())));

    game.tick = u32::MAX;
    assert!(!game.accepts(&InputPair::new(u32::MAX, Input::zero(), Input::zero())));

    game.tick = 0;
    game.ball.vel.x = i32::MAX;
    assert!(!game.is_wf());
    assert!(!game.accepts(&InputPair::new(0, Input::zero(), Input::zero())));
}

#[test]
fn test_view_carries_config_dimensions() {
    let game = Game::new(Config::default());
    let view = game.view();
    assert_eq!(view.paddle_x_offset, 3276);
    assert_eq!(view.paddle_width, 1638);
    assert_eq!(view.ball_radius, 2048);
}
