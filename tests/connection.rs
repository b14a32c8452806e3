use illthorn::{
    frame, socket_setup, DataEvent, Framing, ReadOutcome, ReceiveAction, ReceiveLoop,
    ReceiveState, SocketOption, LINGER_SECS,
};

#[test]
fn command_gets_one_line_terminator() {
    assert_eq!(frame("hello", Framing::Line), b"hello\r\n".to_vec());
    assert_eq!(frame("", Framing::Line), b"\r\n".to_vec());
    assert_eq!(frame("look\r\n", Framing::Line), b"look\r\n\r\n".to_vec());
    assert_eq!(frame("é", Framing::Line), vec![0xC3, 0xA9, 13, 10]);
}

#[test]
fn raw_payload_is_sent_unchanged() {
    assert_eq!(frame("hello", Framing::Raw), b"hello".to_vec());
    assert_eq!(frame("", Framing::Raw), Vec::<u8>::new());
    assert_eq!(frame("a\nb", Framing::Raw), b"a\nb".to_vec());
}

#[test]
fn socket_setup_order() {
    assert_eq!(LINGER_SECS, 2);
    assert_eq!(
        socket_setup(),
        vec![
            SocketOption::NoDelay(true),
            SocketOption::Linger(Some(2)),
            SocketOption::NonBlocking(true),
        ]
    );
}

#[test]
fn data_is_delivered_under_the_session_name() {
    let mut l = ReceiveLoop::new("a".to_string());
    assert!(l.is_running());
    let act = l.on_read(ReadOutcome::Data(b"hi".to_vec()));
    assert_eq!(
        act,
        ReceiveAction::Deliver(DataEvent {
            session: "a".to_string(),
            data: "hi".to_string()
        })
    );
    let act = l.on_read(ReadOutcome::Data(b" there".to_vec()));
    assert_eq!(
        act,
        ReceiveAction::Deliver(DataEvent {
            session: "a".to_string(),
            data: " there".to_string()
        })
    );
    assert_eq!(l.state, ReceiveState::Reading);
}

#[test]
fn invalid_bytes_are_replaced() {
    let mut l = ReceiveLoop::new("a".to_string());
    let act = l.on_read(ReadOutcome::Data(vec![0x66, 0xFF, 0x67]));
    assert_eq!(
        act,
        ReceiveAction::Deliver(DataEvent {
            session: "a".to_string(),
            data: "f\u{FFFD}g".to_string()
        })
    );
    assert!(l.is_running());
}

#[test]
fn peer_close_ends_the_loop_quietly() {
    let mut l = ReceiveLoop::new("a".to_string());
    assert_eq!(l.on_read(ReadOutcome::Data(Vec::new())), ReceiveAction::PeerClosed);
    assert_eq!(l.state, ReceiveState::Closed);
    assert!(!l.is_running());
    assert_eq!(l.on_read(ReadOutcome::Data(b"late".to_vec())), ReceiveAction::Stopped);
    assert_eq!(l.on_read(ReadOutcome::Failed("reset".to_string())), ReceiveAction::Stopped);
    assert_eq!(l.state, ReceiveState::Closed);
}

#[test]
fn read_error_ends_the_loop() {
    let mut l = ReceiveLoop::new("a".to_string());
    assert_eq!(
        l.on_read(ReadOutcome::Failed("connection reset".to_string())),
        ReceiveAction::Failed("connection reset".to_string())
    );
    assert_eq!(l.state, ReceiveState::Errored);
    assert_eq!(l.on_read(ReadOutcome::Data(b"x".to_vec())), ReceiveAction::Stopped);
}
