use barrier_client::{
    synergy_mouse_button, synergy_to_hid, KeyCode, ReportType,
    SynergyHid, HID_KEY_A, HID_KEY_B,
};

#[test]
fn test_key() {
    let mut hid = SynergyHid::new(1920, 1080, false);
    let mut report = [0; 9];
    let sz = hid.key_down(0x0000, 0x0000, 0x0000, &mut report);
    assert_eq!(sz, 9);
    assert_eq!(report, [0x01, 0, 0, 0, 0, 0, 0, 0, 0]);
    hid.key_down('A' as u16, 0x0000, 0x0000, &mut report);
    assert_eq!(report, [0x01, 0, 0, HID_KEY_A, 0, 0, 0, 0, 0]);
    hid.key_down('B' as u16, 0x0000, 0x0000, &mut report);
    assert_eq!(report, [0x01, 0, 0, HID_KEY_A, HID_KEY_B, 0, 0, 0, 0]);
    hid.key_up('B' as u16, 0x0000, 0x0000, &mut report);
    assert_eq!(report, [0x01, 0, 0, HID_KEY_A, 0, 0, 0, 0, 0]);
    // Wrong key up, report is cleared
    hid.key_up('C' as u16, 0x0000, 0x0000, &mut report);
    assert_eq!(report, [0x01, 0, 0, 0, 0, 0, 0, 0, 0]);

    // kKeyAudioMute(0xE0AD) -> HID_USAGE_CONSUMER_MUTE(0x00E2)
    let sz = hid.key_down(0xE0AD, 0x0000, 1, &mut report);
    assert_eq!(sz, 3);
    assert_eq!(report[0..sz], [0x03, 0x00, 0xE2]);
}

#[test]
fn key_codes_map_letters_digits_and_special_keys() {
    assert_eq!(synergy_to_hid('a' as u16), KeyCode::Key(0x04));
    assert_eq!(synergy_to_hid('Z' as u16), KeyCode::Key(0x1D));
    assert_eq!(synergy_to_hid('1' as u16), KeyCode::Key(0x1E));
    assert_eq!(synergy_to_hid('0' as u16), KeyCode::Key(0x27));
    assert_eq!(synergy_to_hid(' ' as u16), KeyCode::Key(0x2C));
    assert_eq!(synergy_to_hid('?' as u16), KeyCode::Key(0x38));
    assert_eq!(synergy_to_hid(0xEF0D), KeyCode::Key(0x28));
    assert_eq!(synergy_to_hid(0xEFBE), KeyCode::Key(0x3A));
    assert_eq!(synergy_to_hid(0xEFC9), KeyCode::Key(0x45));
    assert_eq!(synergy_to_hid(0xEFE1), KeyCode::Key(0xE1));
    assert_eq!(synergy_to_hid(0xE0AF), KeyCode::Consumer(0x00E9));
    assert_eq!(synergy_to_hid(0x1234), KeyCode::NoKey);
    assert_eq!(synergy_mouse_button(1), 0x01);
    assert_eq!(synergy_mouse_button(2), 0x04);
    assert_eq!(synergy_mouse_button(3), 0x02);
    assert_eq!(synergy_mouse_button(9), 0x00);
}

#[test]
fn modifier_keys_set_and_clear_their_bit() {
    let mut hid = SynergyHid::new(1920, 1080, false);
    let mut report = [0; 9];
    hid.key_down(0xEFE1, 0, 5, &mut report); // left shift
    assert_eq!(report, [0x01, 0x02, 0, 0, 0, 0, 0, 0, 0]);
    hid.key_down('a' as u16, 0, 6, &mut report);
    assert_eq!(report, [0x01, 0x02, 0, HID_KEY_A, 0, 0, 0, 0, 0]);
    hid.key_up(0, 0, 5, &mut report);
    assert_eq!(report, [0x01, 0x00, 0, HID_KEY_A, 0, 0, 0, 0, 0]);
    hid.key_up(0, 0, 6, &mut report);
    assert_eq!(report, [0x01, 0, 0, 0, 0, 0, 0, 0, 0]);
}

#[test]
fn key_down_then_up_restores_the_report() {
    let mut hid = SynergyHid::new(1920, 1080, false);
    let mut report = [0; 9];
    hid.key_down('x' as u16, 0, 3, &mut report);
    let before = report;
    hid.key_down('y' as u16, 0, 4, &mut report);
    hid.key_up('y' as u16, 0, 4, &mut report);
    assert_eq!(report, before);
}

#[test]
fn pressing_a_held_key_twice_keeps_one_slot() {
    let mut hid = SynergyHid::new(1920, 1080, false);
    let mut report = [0; 9];
    hid.key_down('a' as u16, 0, 1, &mut report);
    hid.key_down('a' as u16, 0, 2, &mut report);
    assert_eq!(report, [0x01, 0, 0, HID_KEY_A, 0, 0, 0, 0, 0]);
}

#[test]
fn a_full_keyboard_report_ignores_a_seventh_key() {
    let mut hid = SynergyHid::new(1920, 1080, false);
    let mut report = [0; 9];
    for (i, c) in "abcdefg".chars().enumerate() {
        hid.key_down(c as u16, 0, i as u16, &mut report);
    }
    assert_eq!(report, [0x01, 0, 0, 0x04, 0x05, 0x06, 0x07, 0x08, 0x09]);
}

#[test]
fn media_key_up_releases_the_consumer_report() {
    let mut hid = SynergyHid::new(1920, 1080, false);
    let mut report = [0xAA; 9];
    hid.key_down(0xE0B3, 0, 7, &mut report);
    assert_eq!(report[0..3], [0x03, 0x00, 0xCD]);
    let sz = hid.key_up(0, 0, 7, &mut report);
    assert_eq!(sz, 3);
    assert_eq!(report[0..3], [0x03, 0x00, 0x00]);
    // bytes after the report are left alone
    assert_eq!(report[3..], [0xAA; 6]);
}

#[test]
fn pointer_position_is_written_as_given() {
    let mut hid = SynergyHid::new(1920, 1080, false);
    let mut report = [0; 9];
    let sz = hid.set_pointer_position(0x4000, 0x4000, &mut report);
    assert_eq!(sz, 8);
    assert_eq!(report[0..8], [0x02, 0, 0x00, 0x40, 0x00, 0x40, 0, 0]);
    hid.set_pointer_position(0x7fff, 0x7fff, &mut report);
    assert_eq!(report[0..8], [0x02, 0, 0xFF, 0x7F, 0xFF, 0x7F, 0, 0]);
    hid.set_pointer_position(0, 0, &mut report);
    assert_eq!(report[0..8], [0x02, 0, 0, 0, 0, 0, 0, 0]);
    assert_eq!((hid.width(), hid.height()), (1920, 1080));
}

#[test]
fn screen_position_scaled_in_f32_then_written() {
    // the pointer range 0..=0x7fff over a 1920 x 1080 screen, ceil of an f32 product
    let scale = |v: u16, size: u16| ((v as f32) * (0x7fff as f32 / (size as f32))).ceil() as u16;
    let mut hid = SynergyHid::new(1920, 1080, false);
    let mut report = [0; 9];
    let (ax, ay) = (scale(1149, 1920), scale(540, 1080));
    assert_eq!((ax, ay), (19609, 16384));
    hid.set_pointer_position(ax, ay, &mut report);
    assert_eq!(report[0..8], [0x02, 0, 0x99, 0x4C, 0x00, 0x40, 0, 0]);
}

#[test]
fn moved_position_adds_and_wraps() {
    let mut hid = SynergyHid::new(0x7fff, 0x7fff, false);
    let mut report = [0; 9];
    hid.set_pointer_position(100, 200, &mut report);
    assert_eq!(hid.moved_position(5, -10), (105, 190));
    assert_eq!(hid.moved_position(-101, 0), (0xFFFF, 200));
    let (x, y) = hid.moved_position(5, -10);
    hid.set_pointer_position(x, y, &mut report);
    assert_eq!(report[0..8], [0x02, 0, 105, 0, 190, 0, 0, 0]);
}

#[test]
fn report_descriptors_and_lengths() {
    let (len, kb) = SynergyHid::get_report_descriptor(ReportType::Keyboard);
    assert_eq!(len, 8);
    assert_eq!(kb.len(), 63);
    assert_eq!(kb[0..4], [0x05, 0x01, 0x09, 0x06]);
    assert_eq!(kb[kb.len() - 1], 0xC0);
    let (len, m) = SynergyHid::get_report_descriptor(ReportType::Mouse);
    assert_eq!(len, 7);
    assert_eq!(m.len(), 77);
    assert_eq!(m[0..4], [0x05, 0x01, 0x09, 0x02]);
    let (len, c) = SynergyHid::get_report_descriptor(ReportType::Consumer);
    assert_eq!(len, 2);
    assert_eq!(c.len(), 23);
    assert_eq!(c[0..4], [0x05, 0x0C, 0x09, 0x01]);
}

#[test]
fn nine_bytes_suffice_for_every_event() {
    let mut hid = SynergyHid::new(1920, 1080, false);
    let mut report = [0; 9];
    assert_eq!(hid.key_down(0xE0AD, 0, 3, &mut report), 3);
    assert_eq!(hid.key_up(0, 0, 3, &mut report), 3);
    assert_eq!(hid.key_up(0, 0, 3, &mut report), 9);
    assert_eq!(hid.key_down('x' as u16, 0, 4, &mut report), 9);
    assert_eq!(hid.key_up('y' as u16, 7, 4, &mut report), 9);
    assert_eq!(report, [0x01, 0, 0, 0, 0, 0, 0, 0, 0]);
}

#[test]
fn mouse_buttons_and_wheel() {
    let mut hid = SynergyHid::new(1920, 1080, true);
    let mut report = [0; 9];
    hid.mouse_down(1, &mut report);
    assert_eq!(report[0..8], [0x02, 0x01, 0, 0, 0, 0, 0, 0]);
    hid.mouse_down(3, &mut report);
    assert_eq!(report[0..8], [0x02, 0x03, 0, 0, 0, 0, 0, 0]);
    hid.mouse_up(1, &mut report);
    assert_eq!(report[0..8], [0x02, 0x02, 0, 0, 0, 0, 0, 0]);
    // flipped wheel: vertical motion negated, horizontal kept
    hid.mouse_scroll(3, 120, &mut report);
    assert_eq!(report[0..8], [0x02, 0x02, 0, 0, 0, 0, (-120i8) as u8, 3]);
    hid.mouse_up(3, &mut report);
    assert_eq!(report[0..8], [0x02, 0x00, 0, 0, 0, 0, 0, 0]);
}

#[test]
fn clear_lets_go_of_one_report() {
    let mut hid = SynergyHid::new(1920, 1080, false);
    let mut report = [0; 9];
    hid.key_down('q' as u16, 0, 1, &mut report);
    assert_eq!(hid.clear(ReportType::Keyboard, &mut report), 9);
    assert_eq!(report, [0x01, 0, 0, 0, 0, 0, 0, 0, 0]);
    hid.mouse_down(2, &mut report);
    assert_eq!(hid.clear(ReportType::Mouse, &mut report), 8);
    assert_eq!(report[0..8], [0x02, 0, 0, 0, 0, 0, 0, 0]);
    hid.key_down(0xE0AD, 0, 2, &mut report);
    assert_eq!(hid.clear(ReportType::Consumer, &mut report), 3);
    assert_eq!(report[0..3], [0x03, 0, 0]);
}
