//! Mapping of Synergy key identifiers and mouse buttons to USB HID usages.
use vstd::prelude::*;

verus! {

/// HID keyboard usage of the `A` key.
pub const HID_KEY_A: u8 = 0x04;

/// HID keyboard usage of the `B` key.
pub const HID_KEY_B: u8 = 0x05;

/// HID keyboard usage of the `1` key; `2`..`9` follow it.
pub const HID_KEY_1: u8 = 0x1E;

/// HID keyboard usage of the `0` key.
pub const HID_KEY_0: u8 = 0x27;

/// HID keyboard usage of the space bar.
pub const HID_KEY_SPACE: u8 = 0x2C;

/// HID keyboard usage of `F1`; `F2`..`F12` follow it.
pub const HID_KEY_F1: u8 = 0x3A;

/// HID keyboard usage of left control, the first of the eight modifier keys.
pub const HID_KEY_CONTROL_LEFT: u8 = 0xE0;

/// HID keyboard usage of right GUI, the last of the eight modifier keys.
pub const HID_KEY_GUI_RIGHT: u8 = 0xE7;

/// HID consumer usage "Mute".
pub const HID_USAGE_CONSUMER_MUTE: u16 = 0x00E2;

/// What a Synergy key identifier becomes on the USB side.
#[derive(Debug, Clone, Copy, PartialEq, Eq)]
pub enum KeyCode {
    /// The key has no HID counterpart.
    NoKey,
    /// A key of the keyboard usage page.
    Key(u8),
    /// A key of the consumer control usage page (media keys).
    Consumer(u16),
}

/// Keyboard usage of a printable ASCII key identifier other than a letter or
/// a digit, or 0 where there is none. Shifted and unshifted characters of a
/// key share its usage.
pub open spec fn spec_punctuation_usage(key: u16) -> u8 {
    if key == 0x20 { HID_KEY_SPACE }                         // space
    else if key == 0x21 { 0x1E }                             // !
    else if key == 0x40 { 0x1F }                             // @
    else if key == 0x23 { 0x20 }                             // #
    else if key == 0x24 { 0x21 }                             // $
    else if key == 0x25 { 0x22 }                             // %
    else if key == 0x5E { 0x23 }                             // ^
    else if key == 0x26 { 0x24 }                             // &
    else if key == 0x2A { 0x25 }                             // *
    else if key == 0x28 { 0x26 }                             // (
    else if key == 0x29 { 0x27 }                             // )
    else if key == 0x2D || key == 0x5F { 0x2D }              // - _
    else if key == 0x3D || key == 0x2B { 0x2E }              // = +
    else if key == 0x5B || key == 0x7B { 0x2F }              // [ {
    else if key == 0x5D || key == 0x7D { 0x30 }              // ] }
    else if key == 0x5C || key == 0x7C { 0x31 }              // \ |
    else if key == 0x3B || key == 0x3A { 0x33 }              // ; :
    else if key == 0x27 || key == 0x22 { 0x34 }              // ' "
    else if key == 0x60 || key == 0x7E { 0x35 }              // ` ~
    else if key == 0x2C || key == 0x3C { 0x36 }              // , <
    else if key == 0x2E || key == 0x3E { 0x37 }              // . >
    else if key == 0x2F || key == 0x3F { 0x38 }              // / ?
    else { 0 }
}

/// Keyboard usage of a Synergy special key (identifiers 0xEF00..0xEFFF), or 0
/// where there is none.
pub open spec fn spec_special_usage(key: u16) -> u8 {
    if key == 0xEF08 { 0x2A }                                // backspace
    else if key == 0xEF09 { 0x2B }                           // tab
    else if key == 0xEF0D { 0x28 }                           // return
    else if key == 0xEF13 { 0x48 }                           // pause
    else if key == 0xEF14 { 0x47 }                           // scroll lock
    else if key == 0xEF1B { 0x29 }                           // escape
    else if key == 0xEF50 { 0x4A }                           // home
    else if key == 0xEF51 { 0x50 }                           // left
    else if key == 0xEF52 { 0x52 }                           // up
    else if key == 0xEF53 { 0x4F }                           // right
    else if key == 0xEF54 { 0x51 }                           // down
    else if key == 0xEF55 { 0x4B }                           // page up
    else if key == 0xEF56 { 0x4E }                           // page down
    else if key == 0xEF57 { 0x4D }                           // end
    else if key == 0xEF61 { 0x46 }                           // print screen
    else if key == 0xEF63 { 0x49 }                           // insert
    else if key == 0xEF67 { 0x65 }                           // menu
    else if key == 0xEF7F { 0x53 }                           // num lock
    else if 0xEFBE <= key <= 0xEFC9 { (key - 0xEFBE + HID_KEY_F1 as u16) as u8 }  // F1..F12
    else if key == 0xEFE1 { 0xE1 }                           // left shift
    else if key == 0xEFE2 { 0xE5 }                           // right shift
    else if key == 0xEFE3 { 0xE0 }                           // left control
    else if key == 0xEFE4 { 0xE4 }                           // right control
    else if key == 0xEFE5 { 0x39 }                           // caps lock
    else if key == 0xEFE9 { 0xE2 }                           // left alt
    else if key == 0xEFEA { 0xE6 }                           // right alt
    else if key == 0xEFEB { 0xE3 }                           // left super
    else if key == 0xEFEC { 0xE7 }                           // right super
    else if key == 0xEFFF { 0x4C }                           // delete
    else { 0 }
}

/// Consumer usage of a Synergy media key (identifiers 0xE0AD..0xE0B3), or 0
/// where there is none.
pub open spec fn spec_consumer_usage(key: u16) -> u16 {
    if key == 0xE0AD { HID_USAGE_CONSUMER_MUTE }             // mute
    else if key == 0xE0AE { 0x00EA }                         // volume down
    else if key == 0xE0AF { 0x00E9 }                         // volume up
    else if key == 0xE0B0 { 0x00B5 }                         // next track
    else if key == 0xE0B1 { 0x00B6 }                         // previous track
    else if key == 0xE0B2 { 0x00B7 }                         // stop
    else if key == 0xE0B3 { 0x00CD }                         // play / pause
    else { 0 }
}

/// The HID counterpart of a Synergy key identifier: letters (either case),
/// digits, punctuation, special keys and media keys.
pub open spec fn spec_synergy_to_hid(key: u16) -> KeyCode {
    if 0x61 <= key <= 0x7A {
        KeyCode::Key((key - 0x61 + HID_KEY_A as u16) as u8)
    } else if 0x41 <= key <= 0x5A {
        KeyCode::Key((key - 0x41 + HID_KEY_A as u16) as u8)
    } else if 0x31 <= key <= 0x39 {
        KeyCode::Key((key - 0x31 + HID_KEY_1 as u16) as u8)
    } else if key == 0x30 {
        KeyCode::Key(HID_KEY_0)
    } else if spec_punctuation_usage(key) != 0 {
        KeyCode::Key(spec_punctuation_usage(key))
    } else if spec_special_usage(key) != 0 {
        KeyCode::Key(spec_special_usage(key))
    } else if spec_consumer_usage(key) != 0 {
        KeyCode::Consumer(spec_consumer_usage(key))
    } else {
        KeyCode::NoKey
    }
}

fn punctuation_usage(key: u16) -> (u: u8)
    ensures
        u == spec_punctuation_usage(key),
{
    if key == 0x20 { HID_KEY_SPACE }
    else if key == 0x21 { 0x1E }
    else if key == 0x40 { 0x1F }
    else if key == 0x23 { 0x20 }
    else if key == 0x24 { 0x21 }
    else if key == 0x25 { 0x22 }
    else if key == 0x5E { 0x23 }
    else if key == 0x26 { 0x24 }
    else if key == 0x2A { 0x25 }
    else if key == 0x28 { 0x26 }
    else if key == 0x29 { 0x27 }
    else if key == 0x2D || key == 0x5F { 0x2D }
    else if key == 0x3D || key == 0x2B { 0x2E }
    else if key == 0x5B || key == 0x7B { 0x2F }
    else if key == 0x5D || key == 0x7D { 0x30 }
    else if key == 0x5C || key == 0x7C { 0x31 }
    else if key == 0x3B || key == 0x3A { 0x33 }
    else if key == 0x27 || key == 0x22 { 0x34 }
    else if key == 0x60 || key == 0x7E { 0x35 }
    else if key == 0x2C || key == 0x3C { 0x36 }
    else if key == 0x2E || key == 0x3E { 0x37 }
    else if key == 0x2F || key == 0x3F { 0x38 }
    else { 0 }
}

fn special_usage(key: u16) -> (u: u8)
    ensures
        u == spec_special_usage(key),
{
    if key == 0xEF08 { 0x2A }
    else if key == 0xEF09 { 0x2B }
    else if key == 0xEF0D { 0x28 }
    else if key == 0xEF13 { 0x48 }
    else if key == 0xEF14 { 0x47 }
    else if key == 0xEF1B { 0x29 }
    else if key == 0xEF50 { 0x4A }
    else if key == 0xEF51 { 0x50 }
    else if key == 0xEF52 { 0x52 }
    else if key == 0xEF53 { 0x4F }
    else if key == 0xEF54 { 0x51 }
    else if key == 0xEF55 { 0x4B }
    else if key == 0xEF56 { 0x4E }
    else if key == 0xEF57 { 0x4D }
    else if key == 0xEF61 { 0x46 }
    else if key == 0xEF63 { 0x49 }
    else if key == 0xEF67 { 0x65 }
    else if key == 0xEF7F { 0x53 }
    else if 0xEFBE <= key && key <= 0xEFC9 { (key - 0xEFBE + HID_KEY_F1 as u16) as u8 }
    else if key == 0xEFE1 { 0xE1 }
    else if key == 0xEFE2 { 0xE5 }
    else if key == 0xEFE3 { 0xE0 }
    else if key == 0xEFE4 { 0xE4 }
    else if key == 0xEFE5 { 0x39 }
    else if key == 0xEFE9 { 0xE2 }
    else if key == 0xEFEA { 0xE6 }
    else if key == 0xEFEB { 0xE3 }
    else if key == 0xEFEC { 0xE7 }
    else if key == 0xEFFF { 0x4C }
    else { 0 }
}

fn consumer_usage(key: u16) -> (u: u16)
    ensures
        u == spec_consumer_usage(key),
{
    if key == 0xE0AD { HID_USAGE_CONSUMER_MUTE }
    else if key == 0xE0AE { 0x00EA }
    else if key == 0xE0AF { 0x00E9 }
    else if key == 0xE0B0 { 0x00B5 }
    else if key == 0xE0B1 { 0x00B6 }
    else if key == 0xE0B2 { 0x00B7 }
    else if key == 0xE0B3 { 0x00CD }
    else { 0 }
}

/// Maps a Synergy key identifier to its HID counterpart.
pub fn synergy_to_hid(key: u16) -> (code: KeyCode)
    ensures
        code == spec_synergy_to_hid(key),
{
    if 0x61 <= key && key <= 0x7A {
        KeyCode::Key((key - 0x61 + HID_KEY_A as u16) as u8)
    } else if 0x41 <= key && key <= 0x5A {
        KeyCode::Key((key - 0x41 + HID_KEY_A as u16) as u8)
    } else if 0x31 <= key && key <= 0x39 {
        KeyCode::Key((key - 0x31 + HID_KEY_1 as u16) as u8)
    } else if key == 0x30 {
        KeyCode::Key(HID_KEY_0)
    } else {
        let p = punctuation_usage(key);
        if p != 0 {
            return KeyCode::Key(p);
        }
        let s = special_usage(key);
        if s != 0 {
            return KeyCode::Key(s);
        }
        let c = consumer_usage(key);
        if c != 0 {
            KeyCode::Consumer(c)
        } else {
            KeyCode::NoKey
        }
    }
}

/// HID mouse button bit of a Synergy mouse button: 1 left, 2 middle, 3 right,
/// 4 back, 5 forward; any other button has no bit.
pub open spec fn spec_synergy_mouse_button(button: i8) -> u8 {
    if button == 1 { 0x01 }
    else if button == 2 { 0x04 }
    else if button == 3 { 0x02 }
    else if button == 4 { 0x08 }
    else if button == 5 { 0x10 }
    else { 0 }
}

/// Maps a Synergy mouse button to its HID button bit.
pub fn synergy_mouse_button(button: i8) -> (bit: u8)
    ensures
        bit == spec_synergy_mouse_button(button),
{
    if button == 1 { 0x01 }
    else if button == 2 { 0x04 }
    else if button == 3 { 0x02 }
    else if button == 4 { 0x08 }
    else if button == 5 { 0x10 }
    else { 0 }
}

/// What key identifiers become: a letter of either case `a` + i the usage
/// 0x04 + i; a digit `1` + i the usage 0x1E + i and `0` the usage 0x27; F1 + i
/// (0xEFBE + i) the usage 0x3A + i; each punctuation, control, navigation,
/// modifier and media key its usage, as listed; identifier 0 nothing.
pub proof fn lemma_key_table(i: u16)
    ensures
        i < 26 ==> spec_synergy_to_hid((0x61 + i) as u16) == KeyCode::Key((0x04 + i) as u8),
        i < 26 ==> spec_synergy_to_hid((0x41 + i) as u16) == KeyCode::Key((0x04 + i) as u8),
        i < 9 ==> spec_synergy_to_hid((0x31 + i) as u16) == KeyCode::Key((0x1E + i) as u8),
        spec_synergy_to_hid(0x30) == KeyCode::Key(0x27),
        i < 12 ==> spec_synergy_to_hid((0xEFBE + i) as u16) == KeyCode::Key((0x3A + i) as u8),
        spec_synergy_to_hid(0x20) == KeyCode::Key(0x2C),
        spec_synergy_to_hid(0x21) == KeyCode::Key(0x1E),
        spec_synergy_to_hid(0x40) == KeyCode::Key(0x1F),
        spec_synergy_to_hid(0x23) == KeyCode::Key(0x20),
        spec_synergy_to_hid(0x24) == KeyCode::Key(0x21),
        spec_synergy_to_hid(0x25) == KeyCode::Key(0x22),
        spec_synergy_to_hid(0x5E) == KeyCode::Key(0x23),
        spec_synergy_to_hid(0x26) == KeyCode::Key(0x24),
        spec_synergy_to_hid(0x2A) == KeyCode::Key(0x25),
        spec_synergy_to_hid(0x28) == KeyCode::Key(0x26),
        spec_synergy_to_hid(0x29) == KeyCode::Key(0x27),
        spec_synergy_to_hid(0x2D) == KeyCode::Key(0x2D),
        spec_synergy_to_hid(0x5F) == KeyCode::Key(0x2D),
        spec_synergy_to_hid(0x3D) == KeyCode::Key(0x2E),
        spec_synergy_to_hid(0x2B) == KeyCode::Key(0x2E),
        spec_synergy_to_hid(0x5B) == KeyCode::Key(0x2F),
        spec_synergy_to_hid(0x7B) == KeyCode::Key(0x2F),
        spec_synergy_to_hid(0x5D) == KeyCode::Key(0x30),
        spec_synergy_to_hid(0x7D) == KeyCode::Key(0x30),
        spec_synergy_to_hid(0x5C) == KeyCode::Key(0x31),
        spec_synergy_to_hid(0x7C) == KeyCode::Key(0x31),
        spec_synergy_to_hid(0x3B) == KeyCode::Key(0x33),
        spec_synergy_to_hid(0x3A) == KeyCode::Key(0x33),
        spec_synergy_to_hid(0x27) == KeyCode::Key(0x34),
        spec_synergy_to_hid(0x22) == KeyCode::Key(0x34),
        spec_synergy_to_hid(0x60) == KeyCode::Key(0x35),
        spec_synergy_to_hid(0x7E) == KeyCode::Key(0x35),
        spec_synergy_to_hid(0x2C) == KeyCode::Key(0x36),
        spec_synergy_to_hid(0x3C) == KeyCode::Key(0x36),
        spec_synergy_to_hid(0x2E) == KeyCode::Key(0x37),
        spec_synergy_to_hid(0x3E) == KeyCode::Key(0x37),
        spec_synergy_to_hid(0x2F) == KeyCode::Key(0x38),
        spec_synergy_to_hid(0x3F) == KeyCode::Key(0x38),
        spec_synergy_to_hid(0xEF08) == KeyCode::Key(0x2A),
        spec_synergy_to_hid(0xEF09) == KeyCode::Key(0x2B),
        spec_synergy_to_hid(0xEF0D) == KeyCode::Key(0x28),
        spec_synergy_to_hid(0xEF13) == KeyCode::Key(0x48),
        spec_synergy_to_hid(0xEF14) == KeyCode::Key(0x47),
        spec_synergy_to_hid(0xEF1B) == KeyCode::Key(0x29),
        spec_synergy_to_hid(0xEF50) == KeyCode::Key(0x4A),
        spec_synergy_to_hid(0xEF51) == KeyCode::Key(0x50),
        spec_synergy_to_hid(0xEF52) == KeyCode::Key(0x52),
        spec_synergy_to_hid(0xEF53) == KeyCode::Key(0x4F),
        spec_synergy_to_hid(0xEF54) == KeyCode::Key(0x51),
        spec_synergy_to_hid(0xEF55) == KeyCode::Key(0x4B),
        spec_synergy_to_hid(0xEF56) == KeyCode::Key(0x4E),
        spec_synergy_to_hid(0xEF57) == KeyCode::Key(0x4D),
        spec_synergy_to_hid(0xEF61) == KeyCode::Key(0x46),
        spec_synergy_to_hid(0xEF63) == KeyCode::Key(0x49),
        spec_synergy_to_hid(0xEF67) == KeyCode::Key(0x65),
        spec_synergy_to_hid(0xEF7F) == KeyCode::Key(0x53),
        spec_synergy_to_hid(0xEFE1) == KeyCode::Key(0xE1),
        spec_synergy_to_hid(0xEFE2) == KeyCode::Key(0xE5),
        spec_synergy_to_hid(0xEFE3) == KeyCode::Key(0xE0),
        spec_synergy_to_hid(0xEFE4) == KeyCode::Key(0xE4),
        spec_synergy_to_hid(0xEFE5) == KeyCode::Key(0x39),
        spec_synergy_to_hid(0xEFE9) == KeyCode::Key(0xE2),
        spec_synergy_to_hid(0xEFEA) == KeyCode::Key(0xE6),
        spec_synergy_to_hid(0xEFEB) == KeyCode::Key(0xE3),
        spec_synergy_to_hid(0xEFEC) == KeyCode::Key(0xE7),
        spec_synergy_to_hid(0xEFFF) == KeyCode::Key(0x4C),
        spec_synergy_to_hid(0xE0AD) == KeyCode::Consumer(0x00E2),
        spec_synergy_to_hid(0xE0AE) == KeyCode::Consumer(0x00EA),
        spec_synergy_to_hid(0xE0AF) == KeyCode::Consumer(0x00E9),
        spec_synergy_to_hid(0xE0B0) == KeyCode::Consumer(0x00B5),
        spec_synergy_to_hid(0xE0B1) == KeyCode::Consumer(0x00B6),
        spec_synergy_to_hid(0xE0B2) == KeyCode::Consumer(0x00B7),
        spec_synergy_to_hid(0xE0B3) == KeyCode::Consumer(0x00CD),
        spec_synergy_to_hid(0) == KeyCode::NoKey,
        spec_synergy_to_hid(0xFFFF) == KeyCode::NoKey,
{
}

/// Only the listed identifiers have a HID counterpart: printable ASCII
/// (0x20..=0x7E), the special keys of the table, F1..F12 and the media keys;
/// every other identifier is no key.
pub proof fn lemma_unlisted_keys(key: u16)
    requires
        !(0x20 <= key <= 0x7E),
        !(0xEFBE <= key <= 0xEFC9),
        !(0xE0AD <= key <= 0xE0B3),
        key != 0xEF08 && key != 0xEF09 && key != 0xEF0D && key != 0xEF13 && key != 0xEF14 && key != 0xEF1B && key != 0xEF50 && key != 0xEF51 && key != 0xEF52 && key != 0xEF53 && key != 0xEF54 && key != 0xEF55 && key != 0xEF56 && key != 0xEF57 && key != 0xEF61 && key != 0xEF63 && key != 0xEF67 && key != 0xEF7F && key != 0xEFE1 && key != 0xEFE2 && key != 0xEFE3 && key != 0xEFE4 && key != 0xEFE5 && key != 0xEFE9 && key != 0xEFEA && key != 0xEFEB && key != 0xEFEC && key != 0xEFFF,
    ensures
        spec_synergy_to_hid(key) == KeyCode::NoKey,
{
}

/// Every printable ASCII identifier is a keyboard key.
pub proof fn lemma_printable_keys(key: u16)
    requires
        0x20 <= key <= 0x7E,
    ensures
        spec_synergy_to_hid(key) is Key,
{
}

} // verus!
