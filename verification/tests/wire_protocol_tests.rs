use pong_core::serialization::SerializationError;
use pong_core::wire_protocol::WireMsg;
use pong_core::{Ball, Input, InputPair, Paddle, Snapshot, Status, Vec2, FX_ONE};

#[test]
fn test_input_pair_message() {
    let input_a = Input::new(-50, 1);
    let input_b = Input::new(75, 2);
    let pair = InputPair::new(12345, input_a, input_b);
    let msg = WireMsg::InputPair(pair);

    let encoded = msg.encode();
    let decoded = WireMsg::decode(&encoded).unwrap();

    assert_eq!(msg, decoded);
    assert_eq!(msg.message_type(), "InputPair");
    assert_eq!(msg.encoded_size(), 10);
    assert_eq!(encoded[0], 0x01); // Check type header
    assert_eq!(encoded.len(), 10);
}

#[test]
fn test_snapshot_message() {
    let snapshot = Snapshot {
        tick: 1000,
        status: Status::Playing,
        paddles: [
            Paddle {
                y: FX_ONE / 2,
                vy: FX_ONE / 4,
            },
            Paddle {
                y: FX_ONE / 3,
                vy: -FX_ONE / 8,
            },
        ],
        ball: Ball {
            pos: Vec2::new(FX_ONE / 2, FX_ONE / 4),
            vel: Vec2::new(FX_ONE / 8, -FX_ONE / 16),
        },
        score: [3, 2],
        rng: 0xDEADBEEF_CAFEBABE,
    };

    let msg = WireMsg::snapshot(&snapshot);
    let encoded = msg.encode();
    let decoded = WireMsg::decode(&encoded).unwrap();

    assert_eq!(msg, decoded);
    assert_eq!(msg.message_type(), "Snapshot");
    assert_eq!(encoded[0], 0x02); // Check type header
    assert_eq!(encoded.len(), 50); // 1 byte header + 49 bytes snapshot

    // Verify we can decode the snapshot data
    if let WireMsg::Snapshot(data) = decoded {
        let decoded_snapshot = Snapshot::decode(&data).unwrap();
        assert_eq!(snapshot.tick, decoded_snapshot.tick);
        assert_eq!(snapshot.status, decoded_snapshot.status);
    } else {
        panic!("Expected Snapshot message");
    }
}

#[test]
fn test_ping_message() {
    let timestamp = 0x12345678;
    let msg = WireMsg::ping(timestamp);

    let encoded = msg.encode();
    let decoded = WireMsg::decode(&encoded).unwrap();

    assert_eq!(msg, decoded);
    assert_eq!(msg.message_type(), "Ping");
    assert_eq!(msg.encoded_size(), 5);
    assert_eq!(encoded[0], 0x03); // Check type header
    assert_eq!(encoded.len(), 5);

    if let WireMsg::Ping(decoded_timestamp) = decoded {
        assert_eq!(timestamp, decoded_timestamp);
    } else {
        panic!("Expected Ping message");
    }
}

#[test]
fn test_utility_constructors() {
    let input_a = Input::new(-100, 3);
    let input_b = Input::new(50, 7);
    let tick = 999;

    let msg = WireMsg::input_pair(tick, input_a, input_b);
    if let WireMsg::InputPair(pair) = msg {
        assert_eq!(pair.tick, tick);
        assert_eq!(pair.a, input_a);
        assert_eq!(pair.b, input_b);
    } else {
        panic!("Expected InputPair message");
    }
}

#[test]
fn test_decode_errors() {
    // Empty buffer
    assert_eq!(WireMsg::decode(&[]), Err(SerializationError::UnexpectedEnd));

    // Invalid type header
    assert_eq!(
        WireMsg::decode(&[0xFF]),
        Err(SerializationError::InvalidData)
    );

    // InputPair too short
    assert_eq!(
        WireMsg::decode(&[0x01, 1, 2, 3]),
        Err(SerializationError::UnexpectedEnd)
    );

    // Snapshot too short
    assert_eq!(
        WireMsg::decode(&[0x02]),
        Err(SerializationError::UnexpectedEnd)
    );

    // Ping too short
    assert_eq!(
        WireMsg::decode(&[0x03, 1, 2]),
        Err(SerializationError::UnexpectedEnd)
    );
}

#[test]
fn test_message_roundtrip_all_types() {
    let messages = vec![
        WireMsg::input_pair(42, Input::new(-127, 255), Input::new(127, 0)),
        WireMsg::snapshot(&Snapshot {
            tick: 0,
            status: Status::Lobby,
            paddles: [Paddle::new(0), Paddle::new(0)],
            ball: Ball::new(Vec2::zero(), Vec2::zero()),
            score: [0, 0],
            rng: 0,
        }),
        WireMsg::ping(0xFFFFFFFF),
    ];

    for msg in messages {
        let encoded = msg.encode();
        let decoded = WireMsg::decode(&encoded).unwrap();
        assert_eq!(msg, decoded);
    }
}

#[test]
fn test_encoded_sizes() {
    let input_msg = WireMsg::input_pair(0, Input::zero(), Input::zero());
    assert_eq!(input_msg.encoded_size(), input_msg.encode().len());

    let snapshot = Snapshot {
        tick: 0,
        status: Status::Lobby,
        paddles: [Paddle::new(0), Paddle::new(0)],
        ball: Ball::new(Vec2::zero(), Vec2::zero()),
        score: [0, 0],
        rng: 0,
    };
    let snapshot_msg = WireMsg::snapshot(&snapshot);
    assert_eq!(snapshot_msg.encoded_size(), snapshot_msg.encode().len());

    let ping_msg = WireMsg::ping(123);
    assert_eq!(ping_msg.encoded_size(), ping_msg.encode().len());
}

#[test]
fn test_wire_byte_layout() {
    let pair = WireMsg::input_pair(0x04030201, Input::new(-2, 5), Input::new(6, 7));
    assert_eq!(pair.encode(), vec![0x01, 1, 2, 3, 4, 0xFE, 5, 6, 7, 0]);
    assert_eq!(WireMsg::ping(0x04030201).encode(), vec![0x03, 1, 2, 3, 4]);
    assert_eq!(WireMsg::Snapshot(vec![9, 8, 7]).encode(), vec![0x02, 9, 8, 7]);
    assert_eq!(WireMsg::Snapshot(vec![9, 8, 7]).encoded_size(), 4);
}

#[test]
fn test_wire_decode_exact() {
    assert_eq!(
        WireMsg::decode(&[0x01, 1, 2, 3, 4, 0xFE, 5, 6, 7, 0]),
        Ok(WireMsg::input_pair(0x04030201, Input::new(-2, 5), Input::new(6, 7)))
    );
    assert_eq!(WireMsg::decode(&[0x03, 1, 2, 3, 4]), Ok(WireMsg::ping(0x04030201)));
    // trailing bytes of a ping are not read
    assert_eq!(WireMsg::decode(&[0x03, 1, 2, 3, 4, 5]), Ok(WireMsg::ping(0x04030201)));
    // the envelope carries whatever follows the type byte
    assert_eq!(WireMsg::decode(&[0x02, 9]), Ok(WireMsg::Snapshot(vec![9])));
    assert_eq!(WireMsg::decode(&[0x00]), Err(SerializationError::InvalidData));
    assert_eq!(WireMsg::decode(&[0x04, 1, 2, 3, 4]), Err(SerializationError::InvalidData));
    assert_eq!(
        WireMsg::decode(&[0x01, 1, 2, 3, 4, 5, 6, 7, 8]),
        Err(SerializationError::UnexpectedEnd)
    );
    assert_eq!(WireMsg::decode(&[0x03, 1, 2, 3]), Err(SerializationError::UnexpectedEnd));
}

#[test]
fn test_empty_snapshot_payload_does_not_decode() {
    let encoded = WireMsg::Snapshot(Vec::new()).encode();
    assert_eq!(encoded, vec![0x02]);
    assert_eq!(WireMsg::decode(&encoded), Err(SerializationError::UnexpectedEnd));
}
