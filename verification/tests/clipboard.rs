use barrier_client::{
    clipboard_step, decode_packet, parse_clipboard, parse_decimal_u32, ClipboardData,
    ClipboardStage, Packet, PacketError,
};

fn transfer(entries: &[(u32, &[u8])]) -> Vec<u8> {
    let mut out = Vec::new();
    let total: usize = entries.iter().map(|(_, d)| 8 + d.len()).sum();
    out.extend_from_slice(&(total as u32 + 4).to_be_bytes());
    out.extend_from_slice(&(entries.len() as u32).to_be_bytes());
    for (format, data) in entries {
        out.extend_from_slice(&format.to_be_bytes());
        out.extend_from_slice(&(data.len() as u32).to_be_bytes());
        out.extend_from_slice(data);
    }
    out
}

fn chunk(id: u8, seq: u32, mark: u8, payload: &[u8]) -> Vec<u8> {
    let mut body = b"DCLP".to_vec();
    body.push(id);
    body.extend_from_slice(&seq.to_be_bytes());
    body.push(mark);
    body.extend_from_slice(payload);
    body
}

#[test]
fn clipboard_transfer_parses_each_format() {
    let buf = transfer(&[(0, b"hello"), (1, b"<b>hi</b>"), (2, b"\x01\x02")]);
    let data = parse_clipboard(&buf).unwrap();
    assert_eq!(data.raw_text(), b"hello");
    assert_eq!(data.raw_html(), b"<b>hi</b>");
    assert_eq!(data.bitmap(), Some(&b"\x01\x02"[..]));
    assert_eq!(data.text(), Some(String::from("hello")));
    assert_eq!(data.html(), Some(String::from("<b>hi</b>")));
    assert!(!data.is_empty());
}

#[test]
fn repeated_formats_append_and_lengths_stop_at_the_end() {
    let mut buf = transfer(&[(0, b"ab"), (0, b"cd")]);
    let data = parse_clipboard(&buf).unwrap();
    assert_eq!(data.raw_text(), b"abcd");
    // a length past the end takes what is there
    buf = transfer(&[(1, b"xyz")]);
    buf.truncate(buf.len() - 1);
    let data = parse_clipboard(&buf).unwrap();
    assert_eq!(data.raw_html(), b"xy");
}

#[test]
fn clipboard_transfer_errors() {
    let buf = transfer(&[(3, b"x")]);
    assert!(matches!(parse_clipboard(&buf), Err(PacketError::FormatError)));
    assert!(matches!(parse_clipboard(b"\x00\x00\x00\x00\x00\x00"), Err(PacketError::IoError)));
    // count says two entries, only one is there
    let mut buf = transfer(&[(0, b"x")]);
    buf[7] = 2;
    assert!(matches!(parse_clipboard(&buf), Err(PacketError::IoError)));
    let empty = parse_clipboard(&transfer(&[])).unwrap();
    assert!(empty.is_empty());
}

#[test]
fn clipboard_getters() {
    let d = ClipboardData::new(b"f\xff".to_vec(), Vec::new(), Vec::new());
    // ill-formed UTF-8 is repaired, not handed back
    assert_eq!(d.text(), Some(String::from("f\u{FFFD}")));
    assert_eq!(d.html(), None);
    assert_eq!(d.bitmap(), None);
    assert!(!d.is_empty());
    let t = ClipboardData::from_text(String::from("zürich"));
    assert_eq!(t.raw_text(), "zürich".as_bytes());
    assert_eq!(t.text(), Some(String::from("zürich")));
    assert!(ClipboardData::default().is_empty());
    assert_eq!(ClipboardData::default().text(), None);
}

#[test]
fn decimal_numbers_parse_like_from_str() {
    assert_eq!(parse_decimal_u32(b"123"), Some(123));
    assert_eq!(parse_decimal_u32(b"+7"), Some(7));
    assert_eq!(parse_decimal_u32(b"4294967295"), Some(u32::MAX));
    assert_eq!(parse_decimal_u32(b"4294967296"), None);
    assert_eq!(parse_decimal_u32(b""), None);
    assert_eq!(parse_decimal_u32(b"+"), None);
    assert_eq!(parse_decimal_u32(b"-1"), None);
    assert_eq!(parse_decimal_u32(b"12a"), None);
    assert_eq!(parse_decimal_u32(b" 1"), None);
}

#[test]
fn clipboard_chunks_build_a_set_clipboard_packet() {
    let data = transfer(&[(0, b"copied text")]);
    let (a, b) = data.split_at(5);
    let mut stage = ClipboardStage::Idle;
    let p = decode_packet(&chunk(0, 9, 1, b"\x00\x00\x00\x0219"), &mut stage).unwrap();
    assert!(matches!(p, Packet::ClientNoOp));
    assert_eq!(stage.stage(), 1);
    let p = decode_packet(&chunk(0, 9, 2, a), &mut stage).unwrap();
    assert!(matches!(p, Packet::ClientNoOp));
    assert_eq!(stage.stage(), 2);
    let p = decode_packet(&chunk(0, 9, 2, b), &mut stage).unwrap();
    assert!(matches!(p, Packet::ClientNoOp));
    let p = decode_packet(&chunk(0, 9, 3, b""), &mut stage).unwrap();
    assert_eq!(stage.stage(), 3);
    match p {
        Packet::SetClipboard { id, seq_num, data } => {
            assert_eq!(id, 0);
            assert_eq!(seq_num, 9);
            assert_eq!(data.text(), Some(String::from("copied text")));
        }
        other => panic!("unexpected {:?}", other),
    }
    // a new transfer may start after the last one
    let p = decode_packet(&chunk(1, 10, 1, b"\x00\x00\x00\x010"), &mut stage).unwrap();
    assert!(matches!(p, Packet::ClientNoOp));
    assert!(matches!(stage, ClipboardStage::Mark1 { id: 0, .. }));
}

#[test]
fn clipboard_stage_transitions() {
    let mut stage = ClipboardStage::Idle;
    // a chunk out of order abandons the transfer
    assert_eq!(clipboard_step(&mut stage, 0, 2, b"x"), Ok(()));
    assert_eq!(stage.stage(), 0);
    // the length text must be a number
    assert_eq!(clipboard_step(&mut stage, 0, 1, b"\x00\x00\x00\x02ab"), Err(PacketError::FormatError));
    assert_eq!(clipboard_step(&mut stage, 0, 1, b"\x00\x00"), Err(PacketError::FormatError));
    assert_eq!(stage.stage(), 0);
    assert_eq!(clipboard_step(&mut stage, 4, 1, b"\x00\x00\x00\x0112"), Ok(()));
    assert_eq!(clipboard_step(&mut stage, 4, 1, b"\x00\x00\x00\x0112"), Ok(()));
    assert_eq!(stage.stage(), 0);
    assert_eq!(clipboard_step(&mut stage, 4, 1, b"\x00\x00\x00\x0112"), Ok(()));
    assert_eq!(clipboard_step(&mut stage, 4, 2, b"ab"), Ok(()));
    assert_eq!(clipboard_step(&mut stage, 4, 3, b"c"), Ok(()));
    match &stage {
        ClipboardStage::Mark3 { id, data } => {
            assert_eq!(*id, 4);
            assert_eq!(data, b"abc");
        }
        other => panic!("unexpected {:?}", other),
    }
    assert_eq!(clipboard_step(&mut stage, 4, 9, b""), Ok(()));
    assert_eq!(stage.stage(), 0);
}

#[test]
fn a_broken_transfer_fails_at_mark_3() {
    let mut stage = ClipboardStage::Idle;
    decode_packet(&chunk(0, 1, 1, b"\x00\x00\x00\x013"), &mut stage).unwrap();
    decode_packet(&chunk(0, 1, 2, b"\x00\x00"), &mut stage).unwrap();
    let r = decode_packet(&chunk(0, 1, 3, b""), &mut stage);
    assert!(matches!(r, Err(PacketError::IoError)));
    assert_eq!(stage.stage(), 3);
}
