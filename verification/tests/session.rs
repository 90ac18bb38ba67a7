use barrier_client::{
    check_hello, hello_reply, is_hello_magic, reply_failed, stream_ended, ActuatorMessage,
    ClientAction, ClientSession, ClipboardData, ConnectionError, DeviceOption, Packet, PacketError,
};

#[test]
fn hello_is_recognised_and_answered() {
    assert!(is_hello_magic(b"Barrier"));
    assert!(!is_hello_magic(b"Synergy"));
    assert!(!is_hello_magic(b"Barrie"));
    assert_eq!(
        hello_reply("BARPI"),
        b"\x00\x00\x00\x14Barrier\x00\x01\x00\x06\x00\x00\x00\x05BARPI".to_vec()
    );
}

#[test]
fn queries_and_keep_alives_are_answered() {
    let mut s = ClientSession::new(1920, 1080);
    match s.handle(Packet::QueryInfo) {
        ClientAction::Reply(p) => assert_eq!(
            p.wire_bytes(),
            b"\x00\x00\x00\x12DINF\x00\x00\x00\x00\x07\x80\x04\x38\x00\x00\x00\x00\x00\x00".to_vec()
        ),
        _ => panic!("no reply"),
    }
    assert!(matches!(s.handle(Packet::KeepAlive), ClientAction::Reply(Packet::KeepAlive)));
}

#[test]
fn input_packets_become_actuator_requests() {
    let mut s = ClientSession::new(1920, 1080);
    assert!(matches!(
        s.handle(Packet::MouseMoveAbs { x: 960, y: 540 }),
        ClientAction::PlaceCursor { x: 960, y: 540 }
    ));
    assert!(matches!(
        s.handle(Packet::MouseMove { x: -3, y: 4 }),
        ClientAction::Actuate(ActuatorMessage::MoveCursor { x: -3, y: 4 })
    ));
    assert!(matches!(
        s.handle(Packet::KeyDown { id: 97, mask: 1, button: 38 }),
        ClientAction::Actuate(ActuatorMessage::KeyDown { key: 97, mask: 1, button: 38 })
    ));
    assert!(matches!(
        s.handle(Packet::KeyRepeat { id: 97, mask: 1, button: 38, count: 2 }),
        ClientAction::Actuate(ActuatorMessage::KeyRepeat { key: 97, mask: 1, button: 38, count: 2 })
    ));
    assert!(matches!(
        s.handle(Packet::KeyUp { id: 97, mask: 0, button: 38 }),
        ClientAction::Actuate(ActuatorMessage::KeyUp { key: 97, mask: 0, button: 38 })
    ));
    assert!(matches!(
        s.handle(Packet::MouseDown { id: 1 }),
        ClientAction::Actuate(ActuatorMessage::MouseDown { button: 1 })
    ));
    assert!(matches!(
        s.handle(Packet::MouseUp { id: 1 }),
        ClientAction::Actuate(ActuatorMessage::MouseUp { button: 1 })
    ));
    assert!(matches!(
        s.handle(Packet::MouseWheel { x_delta: 0, y_delta: 120 }),
        ClientAction::Actuate(ActuatorMessage::MouseWheel { x: 0, y: 120 })
    ));
    assert!(matches!(
        s.handle(Packet::ResetOptions),
        ClientAction::Actuate(ActuatorMessage::ResetOptions)
    ));
    let opts = vec![DeviceOption { name: String::from("HBRT"), value: 3000 }];
    match s.handle(Packet::SetDeviceOptions(opts)) {
        ClientAction::Actuate(ActuatorMessage::SetOptions { opts }) => {
            assert_eq!(opts.len(), 1);
            assert_eq!(opts[0].value, 3000);
        }
        _ => panic!("options not passed on"),
    }
}

#[test]
fn entries_and_clipboards() {
    let mut s = ClientSession::new(1920, 1080);
    assert!(matches!(
        s.handle(Packet::CursorEnter { x: 0, y: 0, seq_num: 41, mask: 0 }),
        ClientAction::Actuate(ActuatorMessage::Enter)
    ));
    assert_eq!(s.last_seq_num, 41);
    assert!(matches!(s.handle(Packet::CursorLeave), ClientAction::Leave));
    assert!(s.clipboard_to_send(None).is_none());
    assert_eq!(s.last_seq_num, 41);
    let sent = s.clipboard_to_send(Some(ClipboardData::from_text(String::from("x"))));
    assert!(matches!(sent, Some(Packet::SetClipboard { id: 0, seq_num: 42, .. })));
    assert_eq!(s.last_seq_num, 42);
    let empty = Packet::SetClipboard { id: 0, seq_num: 1, data: ClipboardData::default() };
    assert!(matches!(s.handle(empty), ClientAction::Nothing));
    let full = Packet::SetClipboard { id: 0, seq_num: 1, data: ClipboardData::from_text(String::from("y")) };
    assert!(matches!(s.handle(full), ClientAction::SetClipboard(_)));
}

#[test]
fn server_only_packets_are_ignored() {
    let mut s = ClientSession::new(1920, 1080);
    for p in [
        Packet::InfoAck,
        Packet::ClientNoOp,
        Packet::ErrorUnknownDevice,
        Packet::GrabClipboard { id: 0, seq_num: 3 },
        Packet::Unknown(*b"ABCD"),
        Packet::DeviceInfo { x: 0, y: 0, w: 1, h: 1, _dummy: 0, mx: 0, my: 0 },
    ] {
        assert!(matches!(s.handle(p), ClientAction::Nothing));
    }
    assert_eq!(s.last_seq_num, 0);
}

#[test]
fn a_bad_greeting_is_a_protocol_error() {
    assert_eq!(check_hello(b"Barrier"), Ok(()));
    assert_eq!(
        check_hello(b"Synergy"),
        Err(ConnectionError::ProtocolError(PacketError::FormatError))
    );
}

#[test]
fn the_end_of_a_session_disconnects_the_actuator() {
    let (msg, err) = stream_ended();
    assert!(matches!(msg, ActuatorMessage::Disconnected));
    assert_eq!(err, ConnectionError::Disconnected);
    let (msg, err) = reply_failed(PacketError::IoError);
    assert!(matches!(msg, ActuatorMessage::Disconnected));
    assert_eq!(err, ConnectionError::ProtocolError(PacketError::IoError));
}
