use barrier_client::{
    check_packet_size, decode_packet, frame_str, ClipboardStage, Packet, PacketError,
};

fn decode(body: &[u8]) -> Result<Packet, PacketError> {
    let mut stage = ClipboardStage::Idle;
    decode_packet(body, &mut stage)
}

#[test]
fn packet_size_below_a_code_is_refused() {
    assert_eq!(check_packet_size(3), Err(PacketError::PacketTooSmall));
    assert_eq!(check_packet_size(0), Err(PacketError::PacketTooSmall));
    assert_eq!(check_packet_size(4), Ok(4));
    assert_eq!(check_packet_size(22), Ok(22));
}

#[test]
fn code_only_packets_decode() {
    assert!(matches!(decode(b"QINF"), Ok(Packet::QueryInfo)));
    assert!(matches!(decode(b"CIAK"), Ok(Packet::InfoAck)));
    assert!(matches!(decode(b"CALV"), Ok(Packet::KeepAlive)));
    assert!(matches!(decode(b"CROP"), Ok(Packet::ResetOptions)));
    assert!(matches!(decode(b"EUNK"), Ok(Packet::ErrorUnknownDevice)));
    assert!(matches!(decode(b"COUT"), Ok(Packet::CursorLeave)));
    assert!(matches!(decode(b"XYZW"), Ok(Packet::Unknown(c)) if &c == b"XYZW"));
    // trailing bytes are ignored
    assert!(matches!(decode(b"CALV\x01\x02"), Ok(Packet::KeepAlive)));
}

#[test]
fn mouse_packets_decode() {
    assert!(matches!(decode(b"DMMV\x01\x02\x03\x04"), Ok(Packet::MouseMoveAbs { x: 0x0102, y: 0x0304 })));
    assert!(matches!(decode(b"DMRM\xff\xfe\x00\x05"), Ok(Packet::MouseMove { x: -2, y: 5 })));
    assert!(matches!(decode(b"DMUP\x01"), Ok(Packet::MouseUp { id: 1 })));
    assert!(matches!(decode(b"DMDN\xff"), Ok(Packet::MouseDown { id: -1 })));
    assert!(matches!(decode(b"DMWM\x00\x00\xff\x88"), Ok(Packet::MouseWheel { x_delta: 0, y_delta: -120 })));
}

#[test]
fn key_packets_decode() {
    assert!(matches!(
        decode(b"DKDN\x00\x61\x00\x02\x00\x26"),
        Ok(Packet::KeyDown { id: 0x61, mask: 2, button: 0x26 })
    ));
    assert!(matches!(
        decode(b"DKUP\x00\x61\x00\x00\x00\x26"),
        Ok(Packet::KeyUp { id: 0x61, mask: 0, button: 0x26 })
    ));
    // key repeat: id, mask, count, button
    assert!(matches!(
        decode(b"DKRP\x00\x61\x00\x00\x00\x03\x00\x26"),
        Ok(Packet::KeyRepeat { id: 0x61, mask: 0, count: 3, button: 0x26 })
    ));
}

#[test]
fn cursor_and_clipboard_grab_decode() {
    assert!(matches!(
        decode(b"CINN\x00\x10\x00\x20\x00\x00\x01\x00\x00\x04"),
        Ok(Packet::CursorEnter { x: 16, y: 32, seq_num: 256, mask: 4 })
    ));
    assert!(matches!(
        decode(b"CCLP\x01\x00\x00\x00\x07"),
        Ok(Packet::GrabClipboard { id: 1, seq_num: 7 })
    ));
}

#[test]
fn options_decode_in_order() {
    let body = b"DSOP\x00\x00\x00\x04HBRT\x00\x00\x0b\xb8XYZW\x00\x00\x00\x01";
    match decode(body) {
        Ok(Packet::SetDeviceOptions(opts)) => {
            assert_eq!(opts.len(), 2);
            assert_eq!(opts[0].name, "HBRT");
            assert_eq!(opts[0].value, 3000);
            assert_eq!(opts[1].name, "XYZW");
            assert_eq!(opts[1].value, 1);
        }
        other => panic!("unexpected {:?}", other),
    }
    // option names are read as UTF-8, ill-formed bytes repaired
    match decode(b"DSOP\x00\x00\x00\x02A\xffBC\x00\x00\x00\x02") {
        Ok(Packet::SetDeviceOptions(opts)) => assert_eq!(opts[0].name, "A\u{FFFD}BC"),
        other => panic!("unexpected {:?}", other),
    }
    // an odd item count drops the last half option
    assert!(matches!(decode(b"DSOP\x00\x00\x00\x01"), Ok(Packet::SetDeviceOptions(o)) if o.is_empty()));
}

#[test]
fn a_repeated_option_name_keeps_the_last_value_in_place() {
    let body = b"DSOP\x00\x00\x00\x06HBRT\x00\x00\x0b\xb8XYZW\x00\x00\x00\x01HBRT\x00\x00\x07\xd0";
    match decode(body) {
        Ok(Packet::SetDeviceOptions(opts)) => {
            assert_eq!(opts.len(), 2);
            assert_eq!(opts[0].name, "HBRT");
            assert_eq!(opts[0].value, 2000);
            assert_eq!(opts[1].name, "XYZW");
            assert_eq!(opts[1].value, 1);
        }
        other => panic!("unexpected {:?}", other),
    }
    // two ill-formed names that repair to the same text are one option
    match decode(b"DSOP\x00\x00\x00\x04A\xffBC\x00\x00\x00\x02A\xfeBC\x00\x00\x00\x05") {
        Ok(Packet::SetDeviceOptions(opts)) => {
            assert_eq!(opts.len(), 1);
            assert_eq!(opts[0].value, 5);
        }
        other => panic!("unexpected {:?}", other),
    }
}

#[test]
fn short_bodies_are_io_errors() {
    assert_eq!(decode(b"DMMV\x00\x01\x00").unwrap_err(), PacketError::IoError);
    assert_eq!(decode(b"CINN\x00\x10").unwrap_err(), PacketError::IoError);
    assert_eq!(decode(b"DKRP\x00\x61\x00\x00\x00\x03\x00").unwrap_err(), PacketError::IoError);
    assert_eq!(decode(b"DSOP\x00\x00\x00\x02HBRT").unwrap_err(), PacketError::IoError);
    assert_eq!(decode(b"DMUP").unwrap_err(), PacketError::IoError);
    assert_eq!(decode(b"DCLP\x00\x00\x00").unwrap_err(), PacketError::IoError);
}

#[test]
fn client_packets_encode() {
    assert_eq!(Packet::QueryInfo.wire_bytes(), b"\x00\x00\x00\x04QINF".to_vec());
    assert_eq!(Packet::KeepAlive.wire_bytes(), b"\x00\x00\x00\x04CALV".to_vec());
    assert_eq!(Packet::ClientNoOp.wire_bytes(), b"\x00\x00\x00\x04CNOP".to_vec());
    assert_eq!(Packet::InfoAck.wire_bytes(), b"\x00\x00\x00\x04CIAK".to_vec());
    assert_eq!(Packet::ErrorUnknownDevice.wire_bytes(), b"\x00\x00\x00\x04EUNK".to_vec());
    let info = Packet::DeviceInfo { x: 0, y: 0, w: 1920, h: 1080, _dummy: 9, mx: 1, my: 2 };
    assert_eq!(
        info.wire_bytes(),
        b"\x00\x00\x00\x12DINF\x00\x00\x00\x00\x07\x80\x04\x38\x00\x00\x00\x01\x00\x02".to_vec()
    );
    let mv = Packet::MouseMoveAbs { x: 0x1234, y: 0xabcd };
    assert_eq!(mv.wire_bytes(), b"\x00\x00\x00\x08DMMV\x12\x34\xab\xcd".to_vec());
    assert!(Packet::QueryInfo.is_encodable());
    assert!(!Packet::CursorLeave.is_encodable());
    assert!(!Packet::MouseMove { x: 1, y: 1 }.is_encodable());
}

#[test]
fn written_packets_read_back() {
    for p in [
        Packet::QueryInfo,
        Packet::InfoAck,
        Packet::KeepAlive,
        Packet::ErrorUnknownDevice,
        Packet::MouseMoveAbs { x: 500, y: 65535 },
    ] {
        let wire = p.wire_bytes();
        let len = u32::from_be_bytes([wire[0], wire[1], wire[2], wire[3]]) as usize;
        assert_eq!(len, wire.len() - 4);
        let mut stage = ClipboardStage::Mark2 { id: 1, data: vec![9] };
        let back = decode_packet(&wire[4..], &mut stage).unwrap();
        assert_eq!(format!("{:?}", back), format!("{:?}", p));
        assert_eq!(stage.stage(), 2);
    }
}

#[test]
fn strings_are_framed_with_their_length() {
    assert_eq!(frame_str("BARPI"), b"\x00\x00\x00\x05BARPI".to_vec());
    assert_eq!(frame_str(""), b"\x00\x00\x00\x00".to_vec());
    assert_eq!(frame_str("é"), b"\x00\x00\x00\x02\xc3\xa9".to_vec());
}
