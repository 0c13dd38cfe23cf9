use pong_core::serialization::SerializationError;
use pong_core::{Ball, Input, InputPair, Paddle, Side, Snapshot, Status, Vec2, FX_ONE};

#[test]
fn test_input_serialization() {
    let input = Input::new(-100, 5);
    let encoded = input.encode();
    let decoded = Input::decode(&encoded).unwrap();

    assert_eq!(input, decoded);
    assert_eq!(encoded.len(), 2);
}

#[test]
fn test_input_serialization_edge_cases() {
    // Test extreme values
    let input_min = Input::new(-127, 0);
    let input_max = Input::new(127, 255);

    assert_eq!(input_min, Input::decode(&input_min.encode()).unwrap());
    assert_eq!(input_max, Input::decode(&input_max.encode()).unwrap());
}

#[test]
fn test_input_pair_serialization() {
    let pair = InputPair::new(12345, Input::new(-50, 1), Input::new(75, 2));

    let encoded = pair.encode();
    let decoded = InputPair::decode(&encoded).unwrap();

    assert_eq!(pair, decoded);
    assert_eq!(encoded.len(), 9);
}

#[test]
fn test_input_decode_insufficient_data() {
    assert_eq!(Input::decode(&[]), Err(SerializationError::UnexpectedEnd));
    assert_eq!(Input::decode(&[1]), Err(SerializationError::UnexpectedEnd));

    assert_eq!(
        InputPair::decode(&[1, 2, 3, 4]),
        Err(SerializationError::UnexpectedEnd)
    );
}

#[test]
fn test_snapshot_serialization() {
    let snapshot = Snapshot {
        tick: 1000,
        status: Status::Playing,
        paddles: [
            Paddle {
                y: FX_ONE / 2,
                vy: FX_ONE / 4,
            },
            Paddle {
                y: FX_ONE / 3,
                vy: -FX_ONE / 8,
            },
        ],
        ball: Ball {
            pos: Vec2::new(FX_ONE / 2, FX_ONE / 4),
            vel: Vec2::new(FX_ONE / 8, -FX_ONE / 16),
        },
        score: [3, 2],
        rng: 0xDEADBEEF_CAFEBABE,
    };

    let encoded = snapshot.encode();
    let decoded = Snapshot::decode(&encoded).unwrap();

    assert_eq!(snapshot.tick, decoded.tick);
    assert_eq!(snapshot.status, decoded.status);
    assert_eq!(snapshot.paddles, decoded.paddles);
    assert_eq!(snapshot.ball.pos, decoded.ball.pos);
    assert_eq!(snapshot.ball.vel, decoded.ball.vel);
    assert_eq!(snapshot.score, decoded.score);
    assert_eq!(snapshot.rng, decoded.rng);
}

#[test]
fn test_snapshot_all_status_variants() {
    let statuses = [
        Status::Lobby,
        Status::Countdown(180),
        Status::Playing,
        Status::Scored(Side::Left, 120),
        Status::GameOver(Side::Right),
    ];

    for status in statuses {
        let snapshot = Snapshot {
            tick: 100,
            status,
            paddles: [Paddle::new(0), Paddle::new(0)],
            ball: Ball::new(Vec2::zero(), Vec2::zero()),
            score: [0, 0],
            rng: 0,
        };

        let encoded = snapshot.encode();
        let decoded = Snapshot::decode(&encoded).unwrap();
        assert_eq!(snapshot.status, decoded.status);
    }
}

#[test]
fn test_snapshot_decode_insufficient_data() {
    let short_data = vec![0u8; 10]; // Too short
    assert_eq!(
        Snapshot::decode(&short_data),
        Err(SerializationError::UnexpectedEnd)
    );
}

#[test]
fn test_snapshot_decode_invalid_status() {
    let mut data = vec![0u8; 49];
    data[4] = 99; // Invalid status discriminant
    assert_eq!(
        Snapshot::decode(&data),
        Err(SerializationError::InvalidData)
    );
}

#[test]
fn test_snapshot_decode_invalid_side() {
    let mut data = vec![0u8; 49];
    data[4] = 3; // Status::Scored
    data[5] = 99; // Invalid side
    assert_eq!(
        Snapshot::decode(&data),
        Err(SerializationError::InvalidData)
    );
}

fn sample_snapshot(status: Status) -> Snapshot {
    Snapshot {
        tick: 0x04030201,
        status,
        paddles: [Paddle { y: 1, vy: -1 }, Paddle { y: i32::MIN, vy: i32::MAX }],
        ball: Ball { pos: Vec2::new(-2, 0x01020304), vel: Vec2::new(256, -256) },
        score: [7, 9],
        rng: 0x0807060504030201,
    }
}

#[test]
fn test_input_byte_layout() {
    assert_eq!(Input::new(-1, 3).encode(), [0xFF, 3]);
    assert_eq!(Input::new(-128, 0).encode(), [0x80, 0]);
    assert_eq!(Input::new(127, 255).encode(), [0x7F, 255]);
    assert_eq!(Input::decode(&[0x80, 1, 99]), Ok(Input::new(-128, 1)));
}

#[test]
fn test_input_pair_byte_layout() {
    let pair = InputPair::new(0x04030201, Input::new(-2, 5), Input::new(6, 7));
    assert_eq!(pair.encode(), [1, 2, 3, 4, 0xFE, 5, 6, 7, 0]);
    // the reserved byte is not read
    assert_eq!(InputPair::decode(&[1, 2, 3, 4, 0xFE, 5, 6, 7, 0xAA]), Ok(pair));
    assert_eq!(
        InputPair::decode(&[1, 2, 3, 4, 0xFE, 5, 6, 7]),
        Err(SerializationError::UnexpectedEnd)
    );
}

#[test]
fn test_snapshot_byte_layout() {
    let bytes = sample_snapshot(Status::Countdown(0x0201)).encode();
    let expected: Vec<u8> = vec![
        1, 2, 3, 4, // tick
        1, 1, 2, // status
        1, 0, 0, 0, 0xFF, 0xFF, 0xFF, 0xFF, // left paddle
        0, 0, 0, 0x80, 0xFF, 0xFF, 0xFF, 0x7F, // right paddle
        0xFE, 0xFF, 0xFF, 0xFF, 4, 3, 2, 1, // ball position
        0, 1, 0, 0, 0, 0xFF, 0xFF, 0xFF, // ball velocity
        7, 9, // score
        1, 2, 3, 4, 5, 6, 7, 8, // generator
    ];
    assert_eq!(bytes, expected);
    assert_eq!(bytes.len(), 49);
}

#[test]
fn test_status_byte_layout() {
    assert_eq!(sample_snapshot(Status::Lobby).encode()[4..7], [0, 0, 0]);
    assert_eq!(sample_snapshot(Status::Playing).encode()[4..7], [2, 0, 0]);
    assert_eq!(sample_snapshot(Status::Scored(Side::Right, 120)).encode()[4..7], [3, 1, 120]);
    assert_eq!(sample_snapshot(Status::GameOver(Side::Right)).encode()[4..7], [4, 1, 0]);
    assert_eq!(sample_snapshot(Status::GameOver(Side::Left)).encode()[4..7], [4, 0, 0]);
}

#[test]
fn test_snapshot_roundtrip_every_status() {
    let statuses = [
        Status::Lobby,
        Status::Countdown(0),
        Status::Countdown(65535),
        Status::Playing,
        Status::Scored(Side::Left, 0),
        Status::Scored(Side::Right, 255),
        Status::GameOver(Side::Left),
        Status::GameOver(Side::Right),
    ];
    for status in statuses {
        let snapshot = sample_snapshot(status);
        let encoded = snapshot.encode();
        assert_eq!(encoded.len(), 49);
        assert_eq!(Snapshot::decode(&encoded), Ok(snapshot));
    }
}

#[test]
fn test_scored_countdown_keeps_low_byte_only() {
    let snapshot = sample_snapshot(Status::Scored(Side::Left, 300));
    let encoded = snapshot.encode();
    assert_eq!(encoded.len(), 49);
    let decoded = Snapshot::decode(&encoded).unwrap();
    assert_eq!(decoded.status, Status::Scored(Side::Left, 44));
    assert_eq!(decoded.paddles, snapshot.paddles);
    assert_eq!(decoded.rng, snapshot.rng);
}

#[test]
fn test_snapshot_decode_boundaries() {
    assert_eq!(Snapshot::decode(&[0u8; 48]), Err(SerializationError::UnexpectedEnd));
    assert!(Snapshot::decode(&[0u8; 49]).is_ok());
    // bytes beyond the format are not read
    assert_eq!(Snapshot::decode(&[0u8; 60]), Snapshot::decode(&[0u8; 49]));

    let mut data = vec![0u8; 49];
    data[4] = 5;
    assert_eq!(Snapshot::decode(&data), Err(SerializationError::InvalidData));
    data[4] = 4;
    data[5] = 2;
    assert_eq!(Snapshot::decode(&data), Err(SerializationError::InvalidData));
    // the side byte is not read for the other statuses
    data[4] = 1;
    data[5] = 2;
    assert_eq!(Snapshot::decode(&data).unwrap().status, Status::Countdown(2));
    // a short buffer fails with UnexpectedEnd even where a byte is invalid
    data.truncate(48);
    data[4] = 99;
    assert_eq!(Snapshot::decode(&data), Err(SerializationError::UnexpectedEnd));
}
