use barrier_client::{
    clipboard_text_update, ClipboardData, find_port, hid_dev_number, serial_frame, split_report, IndicatorStatus, ReportType,
    SerialPortInfo, SynergyHid, UsbPortInfo,
};

#[test]
fn indicator_frames() {
    assert_eq!(IndicatorStatus::ServerConnected.frame(), [0, 3, 0, 0, 0, 0, 0, 0, 0]);
    assert_eq!(IndicatorStatus::PowerOn.code(), 7);
    assert_eq!(IndicatorStatus::WifiConnecting.code(), 0);
    assert_eq!(IndicatorStatus::ServerDisconnected.code(), 6);
}

#[test]
fn reports_become_serial_frames() {
    let mut hid = SynergyHid::new(1920, 1080, false);
    let mut report = [0u8; 9];
    let n = hid.key_down(0xE0AD, 0, 0, &mut report);
    assert_eq!(serial_frame(&report, n), [3, 0, 0xE2, 0, 0, 0, 0, 0, 0]);
    let n = hid.key_down('b' as u16, 0, 1, &mut report);
    assert_eq!(serial_frame(&report, n), [1, 0, 0, 5, 0, 0, 0, 0, 0]);
}

#[test]
fn reports_split_by_id() {
    let report = [2u8, 1, 2, 3, 4, 5, 6, 7, 0];
    let (t, body) = split_report(&report, 8).unwrap();
    assert_eq!(t, ReportType::Mouse);
    assert_eq!(body, &[1, 2, 3, 4, 5, 6, 7]);
    assert!(split_report(&[9u8, 1], 2).is_none());
    assert_eq!(split_report(&[3u8, 0, 0xE2], 3).unwrap().0, ReportType::Consumer);
}

#[test]
fn device_numbers() {
    assert_eq!(hid_dev_number(236, 1), 236 * 256 + 1);
    assert_eq!(hid_dev_number(0, 0), 0);
}

#[test]
fn the_last_matching_port_is_chosen() {
    let usb = |vid: u16, pid: u16, serial: Option<&str>| {
        Some(UsbPortInfo { vid, pid, serial_number: serial.map(String::from) })
    };
    let ports = vec![
        SerialPortInfo { port_name: String::from("/dev/ttyACM0"), usb: usb(3338, 49374, Some("12345678")) },
        SerialPortInfo { port_name: String::from("/dev/ttyACM1"), usb: usb(3338, 49374, None) },
        SerialPortInfo { port_name: String::from("/dev/ttyS0"), usb: None },
        SerialPortInfo { port_name: String::from("/dev/ttyACM2"), usb: usb(3338, 49374, Some("12345678")) },
        SerialPortInfo { port_name: String::from("/dev/ttyACM3"), usb: usb(3338, 1, Some("12345678")) },
    ];
    assert_eq!(
        find_port(&ports, 3338, 49374, &String::from("12345678")),
        Some(String::from("/dev/ttyACM2"))
    );
    assert_eq!(find_port(&ports, 3338, 49374, &String::from("0")), None);
    assert_eq!(find_port(&Vec::new(), 1, 1, &String::from("")), None);
}

#[test]
fn host_clipboard_takes_new_valid_text_only() {
    let current = String::from("old");
    let new = ClipboardData::from_text(String::from("new"));
    assert_eq!(clipboard_text_update(&current, &new), Some(String::from("new")));
    let same = ClipboardData::from_text(String::from("old"));
    assert_eq!(clipboard_text_update(&current, &same), None);
    let bad = ClipboardData::new(b"\xff\xfe".to_vec(), Vec::new(), Vec::new());
    assert_eq!(clipboard_text_update(&current, &bad), None);
    let html_only = ClipboardData::new(Vec::new(), b"<p>".to_vec(), Vec::new());
    assert_eq!(clipboard_text_update(&current, &html_only), None);
}
