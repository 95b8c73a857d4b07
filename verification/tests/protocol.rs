use sensor_panel::protocal::{wait_signal, ReadAction, ReadSession, Signal, C2S_SIZE, S2C_SIZE};

#[test]
fn signal_codes() {
    assert_eq!(Signal::Start.code(), 0xf7);
    assert_eq!(Signal::Req.code(), 0xf8);
}

#[test]
fn signal_round_trip() {
    for s in [Signal::Start, Signal::Req] {
        assert_eq!(Signal::from_char(s.code() as i32), Some(s));
    }
}

#[test]
fn other_chars_are_no_signal() {
    assert_eq!(Signal::from_char(-1), None);
    assert_eq!(Signal::from_char(0), None);
    assert_eq!(Signal::from_char(0xf6), None);
    assert_eq!(Signal::from_char(0xf9), None);
    assert_eq!(Signal::from_char(0x1f7), None);
}

#[test]
fn wait_signal_ends_only_on_its_marker() {
    assert!(wait_signal(Signal::Req, 0xf8));
    assert!(!wait_signal(Signal::Req, 0xf7));
    assert!(wait_signal(Signal::Start, 0xf7));
    assert!(!wait_signal(Signal::Start, 0xf8));
    assert!(!wait_signal(Signal::Start, -1));
}

#[test]
fn signal_order_follows_codes() {
    assert!(Signal::Start < Signal::Req);
}

#[test]
fn read_session_full_exchange() {
    let mut session = ReadSession::new([1, 2, 3, 4, 5]);
    let mut sent = Vec::new();
    while let ReadAction::Send(b) = session.action() {
        sent.push(b);
        session.sent_one();
    }
    assert_eq!(sent, vec![0xf8; C2S_SIZE + 1]);
    // Noise, then a Start marker, then the acknowledgement.
    for c in [0x41, 0xf7, 0xf8] {
        assert_eq!(session.action(), ReadAction::Receive);
        session.received(c);
    }
    let incoming: Vec<i32> = vec![1, 2, 3, 0x104, -1, 0xf8, 7, 8, 9, 10, 11, 12];
    for c in incoming {
        assert_eq!(session.action(), ReadAction::Receive);
        session.received(c);
    }
    assert_eq!(session.action(), ReadAction::Finish);
    let reply = session.into_reply();
    assert_eq!(reply.len(), S2C_SIZE);
    assert_eq!(reply, vec![1, 2, 3, 4, 0xff, 0xf8, 7, 8, 9, 10, 11, 12]);
}
