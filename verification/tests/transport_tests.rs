use pong_core::transport::{MockTransport, RecordingMockTransport, Transport, TransportError};

#[test]
fn test_mock_transport_basic_operations() {
    let mut transport = MockTransport::new();

    assert!(transport.is_open());
    assert_eq!(transport.status(), "Connected (Mock)");

    // Test send (should succeed)
    assert!(transport.send(b"hello").is_ok());

    // Test close
    assert!(transport.close().is_ok());
    assert!(!transport.is_open());
    assert_eq!(transport.status(), "Disconnected (Mock)");

    // Send should fail when closed
    assert_eq!(transport.send(b"world"), Err(TransportError::NotConnected));

    // Double close should fail
    assert_eq!(transport.close(), Err(TransportError::AlreadyClosed));
}

#[test]
fn test_mock_transport_send_failure() {
    let mut transport = MockTransport::new();
    transport.set_should_fail_send(true);

    assert_eq!(
        transport.send(b"test"),
        Err(TransportError::SendFailed("Mock failure".to_string()))
    );
}

#[test]
fn test_mock_transport_message_callback() {
    let mut transport = MockTransport::new();

    transport.receive_message(b"test message".to_vec());

    let received = transport.poll_message();
    assert_eq!(received.as_ref().unwrap(), b"test message");
}

#[test]
fn test_recording_mock_transport() {
    let mut transport = RecordingMockTransport::new();

    // Test send and recording
    assert!(transport.send(b"hello").is_ok());
    assert!(transport.send(b"world").is_ok());

    let sent = transport.sent_messages();
    assert_eq!(sent.len(), 2);
    assert_eq!(sent[0], b"hello");
    assert_eq!(sent[1], b"world");

    // Test pop message
    assert_eq!(transport.pop_sent_message().unwrap(), b"hello");
    assert_eq!(transport.pop_sent_message().unwrap(), b"world");
    assert!(transport.pop_sent_message().is_none());
}

#[test]
fn test_recording_mock_transport_message_callback() {
    let mut transport = RecordingMockTransport::new();

    transport.receive_message(b"test".to_vec());
    assert!(transport.poll_message().is_some());
}

#[test]
fn test_closed_transport() {
    let mut transport = MockTransport::new_closed();
    assert!(!transport.is_open());
    assert_eq!(transport.send(b"test"), Err(TransportError::NotConnected));
}

#[test]
fn test_transport_error_display() {
    let errors = vec![
        TransportError::NotConnected,
        TransportError::SendFailed("test".to_string()),
        TransportError::ConnectionFailed("test".to_string()),
        TransportError::InvalidConfig("test".to_string()),
        TransportError::AlreadyClosed,
    ];

    for error in errors {
        let display_str = error.to_string();
        assert!(!display_str.is_empty());
    }
}

#[test]
fn test_transport_error_texts() {
    assert_eq!(TransportError::NotConnected.to_string(), "Transport not connected");
    assert_eq!(TransportError::SendFailed("x".to_string()).to_string(), "Send failed: x");
    assert_eq!(
        TransportError::ConnectionFailed("y".to_string()).to_string(),
        "Connection failed: y"
    );
    assert_eq!(
        TransportError::InvalidConfig("z".to_string()).to_string(),
        "Invalid configuration: z"
    );
    assert_eq!(TransportError::AlreadyClosed.to_string(), "Transport already closed");
}

#[test]
fn test_inbound_frames_come_out_in_arrival_order() {
    let mut transport = MockTransport::new();
    assert!(transport.poll_message().is_none());
    transport.receive_message(vec![1]);
    transport.receive_message(vec![2, 2]);
    transport.receive_message(vec![3]);
    assert_eq!(transport.poll_message(), Some(vec![1]));
    assert_eq!(transport.poll_message(), Some(vec![2, 2]));
    assert_eq!(transport.poll_message(), Some(vec![3]));
    assert_eq!(transport.poll_message(), None);
}

#[test]
fn test_mock_transport_records_nothing() {
    let mut transport = MockTransport::new();
    assert!(transport.send(b"hello").is_ok());
    assert!(transport.sent_messages().is_empty());
    assert!(transport.pop_sent_message().is_none());
    transport.clear_sent_messages();
    assert!(transport.sent_messages().is_empty());
}

#[test]
fn test_recording_transport_failures_record_nothing() {
    let mut transport = RecordingMockTransport::new();
    transport.set_should_fail_send(true);
    assert_eq!(
        transport.send(b"a"),
        Err(TransportError::SendFailed("Mock failure".to_string()))
    );
    transport.set_should_fail_send(false);
    transport.set_open(false);
    assert_eq!(transport.send(b"b"), Err(TransportError::NotConnected));
    assert_eq!(transport.status(), "Disconnected (Recording Mock)");
    assert_eq!(transport.close(), Err(TransportError::AlreadyClosed));
    transport.set_open(true);
    assert_eq!(transport.status(), "Connected (Recording Mock)");
    assert!(transport.send(b"c").is_ok());
    assert_eq!(transport.sent_messages(), vec![b"c".to_vec()]);
    transport.clear_sent_messages();
    assert!(transport.sent_messages().is_empty());
    assert!(transport.close().is_ok());
    assert!(!transport.is_open());
}

#[test]
fn test_closed_recording_transport() {
    let mut transport = RecordingMockTransport::new_closed();
    assert!(!transport.is_open());
    assert_eq!(transport.send(b"test"), Err(TransportError::NotConnected));
    assert!(transport.sent_messages().is_empty());
}
