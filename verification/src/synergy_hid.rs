//! Turns Synergy input events into HID reports for a keyboard, an absolute
//! pointer and a consumer control. Every report written starts with its report
//! id: 0x01 keyboard, 0x02 pointer, 0x03 consumer control.
use vstd::prelude::*;

use crate::descriptors::{
    consumer_descriptor, keyboard_descriptor, mouse_descriptor, report_descriptor, report_length,
};
use crate::keycodes::{
    spec_synergy_mouse_button, spec_synergy_to_hid, synergy_mouse_button, synergy_to_hid, KeyCode,
};
use crate::reports::{
    hi_byte, lo_byte, AbsMouseReport, ConsumerReport, KeyboardModel, KeyboardReport,
};

verus! {

/// Number of Synergy button slots that remember which key went down.
pub const SERVER_BUTTONS: usize = 512;

/// A keyboard report as written: report id then the eight report bytes.
pub open spec fn keyboard_frame(kb: KeyboardModel) -> Seq<u8> {
    seq![0x01u8] + kb.bytes()
}

/// A pointer report as written: report id then the seven report bytes.
pub open spec fn mouse_frame(m: AbsMouseReport, wheel: i8, pan: i8) -> Seq<u8> {
    seq![0x02u8] + m.bytes(wheel, pan)
}

/// A consumer control report as written: report id then the two report bytes.
pub open spec fn consumer_frame(c: ConsumerReport) -> Seq<u8> {
    seq![0x03u8] + c.bytes()
}

/// Length of what `key_down` writes for `key`: 3 for a media key, else 9.
pub open spec fn key_down_len(key: u16) -> nat {
    if spec_synergy_to_hid(key) is Consumer { 3 } else { 9 }
}

/// Which of the three reports a request is about.
#[derive(Debug, Clone, Copy, PartialEq, Eq)]
pub enum ReportType {
    Keyboard,
    Mouse,
    Consumer,
}

/// Length of what `clear` writes for a report of `kind`.
pub open spec fn clear_len(kind: ReportType) -> nat {
    match kind {
        ReportType::Keyboard => 9,
        ReportType::Mouse => 8,
        ReportType::Consumer => 3,
    }
}

/// The abstract state of a [`SynergyHid`].
pub struct HidState {
    pub width: u16,
    pub height: u16,
    pub flip_mouse_wheel: bool,
    /// Last pointer position, in the pointer's logical range.
    pub x: u16,
    pub y: u16,
    /// For each Synergy button slot, the key identifier that went down on it
    /// (0 for none).
    pub server_buttons: Seq<u16>,
    pub keyboard: KeyboardModel,
    pub mouse: AbsMouseReport,
    pub consumer: ConsumerReport,
}

impl HidState {
    /// The state of a fresh report builder.
    pub open spec fn initial(width: u16, height: u16, flip_mouse_wheel: bool) -> HidState {
        HidState {
            width,
            height,
            flip_mouse_wheel,
            x: 0,
            y: 0,
            server_buttons: Seq::new(512, |i: int| 0u16),
            keyboard: KeyboardModel::cleared(),
            mouse: AbsMouseReport { buttons: 0, x: 0, y: 0 },
            consumer: ConsumerReport { usage: 0 },
        }
    }

    /// What every report builder keeps: six key slots and one remembered key
    /// for each of the 512 Synergy button slots.
    pub open spec fn wf(self) -> bool {
        &&& self.keyboard.keys.len() == 6
        &&& self.server_buttons.len() == 512
    }

    /// Length of what `key_up` writes for slot `button`: 3 when the key that
    /// went down there is a media key, else 9.
    pub open spec fn key_up_len(self, button: u16) -> nat {
        let held = self.server_buttons[button as int];
        if held != 0 && spec_synergy_to_hid(held) is Consumer { 3 } else { 9 }
    }

    /// The keyboard report as `kb`, written.
    pub open spec fn with_keyboard(self, kb: KeyboardModel) -> (HidState, Seq<u8>) {
        (
            HidState {
                width: self.width,
                height: self.height,
                flip_mouse_wheel: self.flip_mouse_wheel,
                x: self.x,
                y: self.y,
                server_buttons: self.server_buttons,
                keyboard: kb,
                mouse: self.mouse,
                consumer: self.consumer,
            },
            keyboard_frame(kb),
        )
    }

    /// The consumer report holding `usage`, written.
    pub open spec fn with_consumer(self, usage: u16) -> (HidState, Seq<u8>) {
        (
            HidState {
                width: self.width,
                height: self.height,
                flip_mouse_wheel: self.flip_mouse_wheel,
                x: self.x,
                y: self.y,
                server_buttons: self.server_buttons,
                keyboard: self.keyboard,
                mouse: self.mouse,
                consumer: ConsumerReport { usage },
            },
            consumer_frame(ConsumerReport { usage }),
        )
    }

    /// The pointer report as `m`, written with no wheel motion.
    pub open spec fn with_mouse(self, m: AbsMouseReport) -> (HidState, Seq<u8>) {
        (
            HidState {
                width: self.width,
                height: self.height,
                flip_mouse_wheel: self.flip_mouse_wheel,
                x: self.x,
                y: self.y,
                server_buttons: self.server_buttons,
                keyboard: self.keyboard,
                mouse: m,
                consumer: self.consumer,
            },
            mouse_frame(m, 0, 0),
        )
    }

    /// The state with `key` recorded on Synergy button slot `button`.
    pub open spec fn with_server_button(self, button: u16, key: u16) -> HidState {
        HidState {
            width: self.width,
            height: self.height,
            flip_mouse_wheel: self.flip_mouse_wheel,
            x: self.x,
            y: self.y,
            server_buttons: self.server_buttons.update(button as int, key),
            keyboard: self.keyboard,
            mouse: self.mouse,
            consumer: self.consumer,
        }
    }

    /// Key `key` goes down on slot `button`: the slot remembers the key, and
    /// the report the key belongs to is updated and written. A key with no
    /// HID counterpart clears the keyboard report.
    pub open spec fn key_down_step(self, key: u16, button: u16) -> (HidState, Seq<u8>) {
        let s = self.with_server_button(button, key);
        match spec_synergy_to_hid(key) {
            KeyCode::NoKey => s.with_keyboard(KeyboardModel::cleared()),
            KeyCode::Key(k) => s.with_keyboard(s.keyboard.press(k)),
            KeyCode::Consumer(c) => s.with_consumer(c),
        }
    }

    /// The key on slot `button` goes up. The key released is the one that
    /// went down on that slot, whatever key the server names; the slot is
    /// emptied. When no key went down on the slot, the keyboard report is
    /// cleared.
    pub open spec fn key_up_step(self, button: u16) -> (HidState, Seq<u8>) {
        let held = self.server_buttons[button as int];
        if held == 0 {
            self.with_keyboard(KeyboardModel::cleared())
        } else {
            let s = self.with_server_button(button, 0);
            match spec_synergy_to_hid(held) {
                KeyCode::NoKey => s.with_keyboard(KeyboardModel::cleared()),
                KeyCode::Key(k) => s.with_keyboard(s.keyboard.release(k)),
                KeyCode::Consumer(c) => s.with_consumer(0),
            }
        }
    }

    /// The pointer moves to (`ax`, `ay`), given in the pointer's logical range.
    pub open spec fn set_pointer_step(self, ax: u16, ay: u16) -> (HidState, Seq<u8>) {
        let m = AbsMouseReport { buttons: self.mouse.buttons, x: ax, y: ay };
        (
            HidState {
                width: self.width,
                height: self.height,
                flip_mouse_wheel: self.flip_mouse_wheel,
                x: ax,
                y: ay,
                server_buttons: self.server_buttons,
                keyboard: self.keyboard,
                mouse: m,
                consumer: self.consumer,
            },
            mouse_frame(m, 0, 0),
        )
    }

    /// The last position moved by (`dx`, `dy`), each coordinate wrapping
    /// around 16 bits.
    pub open spec fn moved_position(self, dx: i16, dy: i16) -> (u16, u16) {
        ((self.x + dx) as u16, (self.y + dy) as u16)
    }

    /// Mouse button `button` goes down.
    pub open spec fn mouse_down_step(self, button: i8) -> (HidState, Seq<u8>) {
        self.with_mouse(
            AbsMouseReport {
                buttons: self.mouse.buttons | spec_synergy_mouse_button(button),
                x: self.mouse.x,
                y: self.mouse.y,
            },
        )
    }

    /// Mouse button `button` goes up.
    pub open spec fn mouse_up_step(self, button: i8) -> (HidState, Seq<u8>) {
        self.with_mouse(
            AbsMouseReport {
                buttons: self.mouse.buttons & !spec_synergy_mouse_button(button),
                x: self.mouse.x,
                y: self.mouse.y,
            },
        )
    }

    /// The vertical wheel value written for a scroll of `dy`: its low byte,
    /// negated when the wheel is flipped.
    pub open spec fn wheel_value(self, dy: i16) -> i8 {
        if self.flip_mouse_wheel { (-(dy as i8)) as i8 } else { dy as i8 }
    }

    /// A scroll by (`dx`, `dy`): written as one pointer report carrying the
    /// low bytes of the motion; nothing is remembered.
    pub open spec fn mouse_scroll_step(self, dx: i16, dy: i16) -> (HidState, Seq<u8>) {
        (self, mouse_frame(self.mouse, self.wheel_value(dy), dx as i8))
    }

    /// Every key, button or media key of one report is let go.
    pub open spec fn clear_step(self, kind: ReportType) -> (HidState, Seq<u8>) {
        match kind {
            ReportType::Keyboard => self.with_keyboard(KeyboardModel::cleared()),
            ReportType::Mouse => self.with_mouse(
                AbsMouseReport { buttons: 0, x: self.mouse.x, y: self.mouse.y },
            ),
            ReportType::Consumer => self.with_consumer(0),
        }
    }
}

fn write_keyboard(report: &mut [u8], kb: &KeyboardReport)
    requires
        old(report)@.len() >= 9,
    ensures
        final(report)@ == keyboard_frame(kb@) + old(report)@.skip(9),
{
    report[0] = 0x01;
    report[1] = kb.modifier;
    report[2] = 0;
    report[3] = kb.keys[0];
    report[4] = kb.keys[1];
    report[5] = kb.keys[2];
    report[6] = kb.keys[3];
    report[7] = kb.keys[4];
    report[8] = kb.keys[5];
    assert(report@ =~= keyboard_frame(kb@) + old(report)@.skip(9));
}

fn write_mouse(report: &mut [u8], m: &AbsMouseReport, wheel: i8, pan: i8)
    requires
        old(report)@.len() >= 8,
    ensures
        final(report)@ == mouse_frame(*m, wheel, pan) + old(report)@.skip(8),
{
    report[0] = 0x02;
    report[1] = m.buttons;
    report[2] = (m.x % 256) as u8;
    report[3] = (m.x / 256) as u8;
    report[4] = (m.y % 256) as u8;
    report[5] = (m.y / 256) as u8;
    report[6] = wheel as u8;
    report[7] = pan as u8;
    assert(report@ =~= mouse_frame(*m, wheel, pan) + old(report)@.skip(8));
}

fn write_consumer(report: &mut [u8], c: &ConsumerReport)
    requires
        old(report)@.len() >= 3,
    ensures
        final(report)@ == consumer_frame(*c) + old(report)@.skip(3),
{
    report[0] = 0x03;
    report[1] = (c.usage / 256) as u8;
    report[2] = (c.usage % 256) as u8;
    assert(report@ =~= consumer_frame(*c) + old(report)@.skip(3));
}

/// Turns Synergy input events into HID reports for a screen of
/// `width` x `height` pixels, remembering which keys are held.
#[derive(Debug)]
pub struct SynergyHid {
    width: u16,
    height: u16,
    flip_mouse_wheel: bool,
    x: u16,
    y: u16,
    server_buttons: [u16; 512],
    keyboard_report: KeyboardReport,
    mouse_report: AbsMouseReport,
    consumer_report: ConsumerReport,
}

impl View for SynergyHid {
    type V = HidState;

    closed spec fn view(&self) -> HidState {
        HidState {
            width: self.width,
            height: self.height,
            flip_mouse_wheel: self.flip_mouse_wheel,
            x: self.x,
            y: self.y,
            server_buttons: self.server_buttons@,
            keyboard: self.keyboard_report@,
            mouse: self.mouse_report,
            consumer: self.consumer_report,
        }
    }
}

impl SynergyHid {
    /// A report builder for a screen of `width` x `height` pixels with nothing
    /// held and the pointer at the origin.
    pub fn new(width: u16, height: u16, flip_mouse_wheel: bool) -> (r: SynergyHid)
        ensures
            r@ == HidState::initial(width, height, flip_mouse_wheel),
    {
        let r = SynergyHid {
            width,
            height,
            flip_mouse_wheel,
            x: 0,
            y: 0,
            server_buttons: [0u16; 512],
            keyboard_report: KeyboardReport::new(),
            mouse_report: AbsMouseReport::new(),
            consumer_report: ConsumerReport { usage: 0 },
        };
        assert(r@.server_buttons =~= HidState::initial(width, height, flip_mouse_wheel).server_buttons);
        r
    }

    /// Key `key` goes down on Synergy button slot `button`; writes the report
    /// at the start of `report` and returns its length (9 for the keyboard,
    /// 3 for the consumer control).
    #[allow(unused_variables)]
    pub fn key_down(&mut self, key: u16, mask: u16, button: u16, report: &mut [u8]) -> (n: usize)
        requires
            button < 512,
            old(report)@.len() >= key_down_len(key),
        ensures
            final(self)@ == old(self)@.key_down_step(key, button).0,
            n == key_down_len(key),
            final(report)@ == old(self)@.key_down_step(key, button).1 + old(report)@.skip(n as int),
    {
        self.server_buttons[button as usize] = key;
        match synergy_to_hid(key) {
            KeyCode::NoKey => {
                self.keyboard_report.clear();
                write_keyboard(report, &self.keyboard_report);
                9
            },
            KeyCode::Key(k) => {
                self.keyboard_report.press(k);
                write_keyboard(report, &self.keyboard_report);
                9
            },
            KeyCode::Consumer(c) => {
                self.consumer_report.usage = c;
                write_consumer(report, &self.consumer_report);
                3
            },
        }
    }

    /// The key that went down on Synergy button slot `button` goes up (the
    /// `key` the server names is not used); writes the report at the start of
    /// `report` and returns its length.
    #[allow(unused_variables)]
    pub fn key_up(&mut self, key: u16, mask: u16, button: u16, report: &mut [u8]) -> (n: usize)
        requires
            button < 512,
            old(report)@.len() >= old(self)@.key_up_len(button),
        ensures
            final(self)@ == old(self)@.key_up_step(button).0,
            n == old(self)@.key_up_len(button),
            final(report)@ == old(self)@.key_up_step(button).1 + old(report)@.skip(n as int),
    {
        let held = self.server_buttons[button as usize];
        let code = if held != 0 {
            self.server_buttons[button as usize] = 0;
            synergy_to_hid(held)
        } else {
            KeyCode::NoKey
        };
        match code {
            KeyCode::NoKey => {
                self.keyboard_report.clear();
                write_keyboard(report, &self.keyboard_report);
                9
            },
            KeyCode::Key(k) => {
                self.keyboard_report.release(k);
                write_keyboard(report, &self.keyboard_report);
                9
            },
            KeyCode::Consumer(_) => {
                self.consumer_report.usage = 0;
                write_consumer(report, &self.consumer_report);
                3
            },
        }
    }

    /// Moves the pointer to (`x`, `y`), given in the pointer's logical range
    /// 0..=0x7fff; writes the 8-byte pointer report and returns 8.
    pub fn set_pointer_position(&mut self, x: u16, y: u16, report: &mut [u8]) -> (n: usize)
        requires
            old(report)@.len() >= 8,
        ensures
            final(self)@ == old(self)@.set_pointer_step(x, y).0,
            n == 8,
            final(report)@ == old(self)@.set_pointer_step(x, y).1 + old(report)@.skip(8),
    {
        self.x = x;
        self.y = y;
        self.mouse_report.x = x;
        self.mouse_report.y = y;
        write_mouse(report, &self.mouse_report, 0, 0);
        8
    }

    /// The last pointer position moved by (`x`, `y`), each coordinate
    /// wrapping around 16 bits.
    pub fn moved_position(&self, x: i16, y: i16) -> (r: (u16, u16))
        ensures
            r == self@.moved_position(x, y),
    {
        ((self.x as i32 + x as i32) as u16, (self.y as i32 + y as i32) as u16)
    }

    /// Width of the screen, in pixels.
    pub fn width(&self) -> (r: u16)
        ensures
            r == self@.width,
    {
        self.width
    }

    /// Height of the screen, in pixels.
    pub fn height(&self) -> (r: u16)
        ensures
            r == self@.height,
    {
        self.height
    }

    /// Every report builder has six key slots and 512 Synergy button slots.
    pub proof fn lemma_wf(&self)
        ensures
            self@.wf(),
    {
    }

    /// Mouse button `button` goes down; writes the 8-byte pointer report and
    /// returns 8.
    pub fn mouse_down(&mut self, button: i8, report: &mut [u8]) -> (n: usize)
        requires
            old(report)@.len() >= 8,
        ensures
            final(self)@ == old(self)@.mouse_down_step(button).0,
            n == 8,
            final(report)@ == old(self)@.mouse_down_step(button).1 + old(report)@.skip(8),
    {
        let bit = synergy_mouse_button(button);
        self.mouse_report.buttons = self.mouse_report.buttons | bit;
        write_mouse(report, &self.mouse_report, 0, 0);
        8
    }

    /// Mouse button `button` goes up; writes the 8-byte pointer report and
    /// returns 8.
    pub fn mouse_up(&mut self, button: i8, report: &mut [u8]) -> (n: usize)
        requires
            old(report)@.len() >= 8,
        ensures
            final(self)@ == old(self)@.mouse_up_step(button).0,
            n == 8,
            final(report)@ == old(self)@.mouse_up_step(button).1 + old(report)@.skip(8),
    {
        let bit = synergy_mouse_button(button);
        self.mouse_report.buttons = self.mouse_report.buttons & !bit;
        write_mouse(report, &self.mouse_report, 0, 0);
        8
    }

    /// Scrolls by (`x`, `y`); writes the 8-byte pointer report and returns 8.
    /// A flipped wheel cannot negate a vertical motion whose low byte is -128.
    pub fn mouse_scroll(&mut self, x: i16, y: i16, report: &mut [u8]) -> (n: usize)
        requires
            old(report)@.len() >= 8,
            !(old(self)@.flip_mouse_wheel && (y as i8) == -128),
        ensures
            final(self)@ == old(self)@.mouse_scroll_step(x, y).0,
            n == 8,
            final(report)@ == old(self)@.mouse_scroll_step(x, y).1 + old(report)@.skip(8),
    {
        let pan = x as i8;
        let mut wheel = y as i8;
        if self.flip_mouse_wheel {
            wheel = -wheel;
        }
        write_mouse(report, &self.mouse_report, wheel, pan);
        8
    }

    /// Lets go of everything held in one report; writes that report and
    /// returns its length.
    pub fn clear(&mut self, kind: ReportType, report: &mut [u8]) -> (n: usize)
        requires
            old(report)@.len() >= clear_len(kind),
        ensures
            final(self)@ == old(self)@.clear_step(kind).0,
            n == clear_len(kind),
            final(report)@ == old(self)@.clear_step(kind).1 + old(report)@.skip(n as int),
    {
        match kind {
            ReportType::Keyboard => {
                self.keyboard_report.clear();
                write_keyboard(report, &self.keyboard_report);
                9
            },
            ReportType::Mouse => {
                self.mouse_report.buttons = 0;
                write_mouse(report, &self.mouse_report, 0, 0);
                8
            },
            ReportType::Consumer => {
                self.consumer_report.usage = 0;
                write_consumer(report, &self.consumer_report);
                3
            },
        }
    }

    /// The length of a report of `kind` without its report id, and the
    /// descriptor a USB gadget announces for it.
    pub fn get_report_descriptor(kind: ReportType) -> (r: (u8, Vec<u8>))
        ensures
            r.0 == report_length(kind),
            r.1@ == report_descriptor(kind),
    {
        match kind {
            ReportType::Keyboard => {
                let v: Vec<u8> = vec![
        0x05, 0x01, 0x09, 0x06, 0xA1, 0x01, 0x05, 0x07, 0x19, 0xE0, 0x29, 0xE7,
        0x15, 0x00, 0x25, 0x01, 0x75, 0x01, 0x95, 0x08, 0x81, 0x02, 0x95, 0x01,
        0x75, 0x08, 0x81, 0x01, 0x95, 0x05, 0x75, 0x01, 0x05, 0x08, 0x19, 0x01,
        0x29, 0x05, 0x91, 0x02, 0x95, 0x01, 0x75, 0x03, 0x91, 0x01, 0x95, 0x06,
        0x75, 0x08, 0x15, 0x00, 0x25, 0x65, 0x05, 0x07, 0x19, 0x00, 0x29, 0x65,
        0x81, 0x00, 0xC0
                ];
                assert(v@ =~= keyboard_descriptor());
                (8, v)
            },
            ReportType::Mouse => {
                let v: Vec<u8> = vec![
        0x05, 0x01, 0x09, 0x02, 0xA1, 0x01, 0x09, 0x01, 0xA1, 0x00, 0x05, 0x09,
        0x19, 0x01, 0x29, 0x05, 0x15, 0x00, 0x25, 0x01, 0x95, 0x05, 0x75, 0x01,
        0x81, 0x02, 0x95, 0x01, 0x75, 0x03, 0x81, 0x01, 0x05, 0x01, 0x09, 0x30,
        0x09, 0x31, 0x15, 0x00, 0x26, 0xFF, 0x7F, 0x75, 0x10, 0x95, 0x02, 0x81,
        0x02, 0x09, 0x38, 0x15, 0x81, 0x25, 0x7F, 0x75, 0x08, 0x95, 0x01, 0x81,
        0x06, 0x05, 0x0C, 0x0A, 0x38, 0x02, 0x15, 0x81, 0x25, 0x7F, 0x75, 0x08,
        0x95, 0x01, 0x81, 0x06, 0xC0
                ];
                assert(v@ =~= mouse_descriptor());
                (7, v)
            },
            ReportType::Consumer => {
                let v: Vec<u8> = vec![
        0x05, 0x0C, 0x09, 0x01, 0xA1, 0x01, 0x15, 0x00, 0x26, 0xFF, 0x03, 0x19,
        0x00, 0x2A, 0xFF, 0x03, 0x75, 0x10, 0x95, 0x01, 0x81, 0x00, 0xC0
                ];
                assert(v@ =~= consumer_descriptor());
                (2, v)
            },
        }
    }
}

} // verus!
