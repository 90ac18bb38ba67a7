//! The three HID input reports a Synergy screen drives: a boot keyboard
//! (modifier byte, reserved byte, six key slots), an absolute pointer
//! (buttons, 16-bit x and y, vertical and horizontal wheel) and a consumer
//! control (one 16-bit usage).
use vstd::prelude::*;

use crate::keycodes::{HID_KEY_CONTROL_LEFT, HID_KEY_GUI_RIGHT};

verus! {

/// True for the keyboard usages of the eight modifier keys (0xE0..=0xE7),
/// which live in the modifier byte rather than in a key slot.
pub open spec fn is_modifier_usage(key: u8) -> bool {
    HID_KEY_CONTROL_LEFT <= key <= HID_KEY_GUI_RIGHT
}

/// The bit of the modifier byte that a modifier usage sets.
pub open spec fn modifier_bit(key: u8) -> u8
    recommends
        is_modifier_usage(key),
{
    1u8 << ((key - HID_KEY_CONTROL_LEFT) as u8)
}

/// Index of the first empty (zero) key slot at or after `i`.
pub open spec fn free_slot(keys: Seq<u8>, i: nat) -> Option<nat>
    decreases keys.len() - i,
{
    if i >= keys.len() {
        None
    } else if keys[i as int] == 0 {
        Some(i)
    } else {
        free_slot(keys, i + 1)
    }
}

/// Low byte of a 16-bit value.
pub open spec fn lo_byte(v: u16) -> u8 {
    (v % 256) as u8
}

/// High byte of a 16-bit value.
pub open spec fn hi_byte(v: u16) -> u8 {
    (v / 256) as u8
}

/// The contents of a keyboard report.
pub struct KeyboardModel {
    pub modifier: u8,
    pub keys: Seq<u8>,
}

impl KeyboardModel {
    /// The report with no key held.
    pub open spec fn cleared() -> KeyboardModel {
        KeyboardModel { modifier: 0, keys: Seq::new(6, |i: int| 0u8) }
    }

    /// Holding down `key`: a modifier sets its bit; another key takes the
    /// first empty slot unless it is held already or no slot is empty.
    pub open spec fn press(self, key: u8) -> KeyboardModel {
        if is_modifier_usage(key) {
            KeyboardModel { modifier: self.modifier | modifier_bit(key), keys: self.keys }
        } else if self.keys.contains(key) {
            self
        } else {
            match free_slot(self.keys, 0) {
                Some(i) => KeyboardModel { modifier: self.modifier, keys: self.keys.update(i as int, key) },
                None => self,
            }
        }
    }

    /// Letting go of `key`: a modifier clears its bit; another key empties
    /// every slot that holds it.
    pub open spec fn release(self, key: u8) -> KeyboardModel {
        if is_modifier_usage(key) {
            KeyboardModel { modifier: self.modifier & !modifier_bit(key), keys: self.keys }
        } else {
            KeyboardModel {
                modifier: self.modifier,
                keys: Seq::new(self.keys.len(), |i: int| if self.keys[i] == key { 0u8 } else { self.keys[i] }),
            }
        }
    }

    /// The eight report bytes: modifier, reserved zero, six key slots.
    pub open spec fn bytes(self) -> Seq<u8> {
        seq![self.modifier, 0u8] + self.keys
    }
}

/// State of the boot keyboard report.
#[derive(Debug, Clone, Copy)]
pub struct KeyboardReport {
    pub modifier: u8,
    pub keys: [u8; 6],
}

impl View for KeyboardReport {
    type V = KeyboardModel;

    open spec fn view(&self) -> KeyboardModel {
        KeyboardModel { modifier: self.modifier, keys: self.keys@ }
    }
}

impl KeyboardReport {
    /// A report with no key held.
    pub fn new() -> (r: KeyboardReport)
        ensures
            r@ == KeyboardModel::cleared(),
    {
        let r = KeyboardReport { modifier: 0, keys: [0u8; 6] };
        assert(r@.keys =~= KeyboardModel::cleared().keys);
        r
    }

    /// Lets go of every key.
    pub fn clear(&mut self)
        ensures
            final(self)@ == KeyboardModel::cleared(),
    {
        self.modifier = 0;
        self.keys = [0u8; 6];
        assert(self@.keys =~= KeyboardModel::cleared().keys);
    }

    /// Holds down the key with usage `key`.
    pub fn press(&mut self, key: u8)
        ensures
            final(self)@ == old(self)@.press(key),
    {
        if HID_KEY_CONTROL_LEFT <= key && key <= HID_KEY_GUI_RIGHT {
            self.modifier = self.modifier | (1u8 << (key - HID_KEY_CONTROL_LEFT));
            return;
        }
        let ghost orig = self@;
        let mut i: usize = 0;
        while i < 6
            invariant
                i <= 6,
                self@ == orig,
                orig == old(self)@,
                !is_modifier_usage(key),
                orig.keys.len() == 6,
                forall|j: int| 0 <= j < i ==> orig.keys[j] != key,
            decreases 6 - i,
        {
            if self.keys[i] == key {
                assert(orig.keys.contains(key)) by {
                    assert(orig.keys[i as int] == key);
                }
                return;
            }
            i = i + 1;
        }
        assert(!orig.keys.contains(key));
        let mut j: usize = 0;
        while j < 6
            invariant
                j <= 6,
                self@ == orig,
                orig == old(self)@,
                !is_modifier_usage(key),
                orig.keys.len() == 6,
                !orig.keys.contains(key),
                free_slot(orig.keys, 0) == free_slot(orig.keys, j as nat),
            decreases 6 - j,
        {
            if self.keys[j] == 0 {
                self.keys[j] = key;
                assert(self@.keys =~= orig.keys.update(j as int, key));
                return;
            }
            j = j + 1;
        }
    }

    /// Lets go of the key with usage `key`.
    pub fn release(&mut self, key: u8)
        ensures
            final(self)@ == old(self)@.release(key),
    {
        if HID_KEY_CONTROL_LEFT <= key && key <= HID_KEY_GUI_RIGHT {
            self.modifier = self.modifier & !(1u8 << (key - HID_KEY_CONTROL_LEFT));
            return;
        }
        let ghost orig = self@;
        let mut i: usize = 0;
        while i < 6
            invariant
                i <= 6,
                self.modifier == orig.modifier,
                orig == old(self)@,
                !is_modifier_usage(key),
                orig.keys.len() == 6,
                self@.keys.len() == 6,
                forall|j: int| 0 <= j < i ==> self@.keys[j] == (if orig.keys[j] == key { 0u8 } else { orig.keys[j] }),
                forall|j: int| i <= j < 6 ==> self@.keys[j] == orig.keys[j],
            decreases 6 - i,
        {
            if self.keys[i] == key {
                self.keys[i] = 0;
            }
            i = i + 1;
        }
        assert(self@.keys =~= orig.release(key).keys);
    }
}

/// State of the absolute pointer report. The wheel is relative, so it is not
/// kept: a report carries wheel motion only when it reports a scroll.
#[derive(Debug, Clone, Copy)]
pub struct AbsMouseReport {
    pub buttons: u8,
    pub x: u16,
    pub y: u16,
}

impl AbsMouseReport {
    /// The seven report bytes with the given wheel motion: buttons, x and y
    /// (little endian), vertical wheel, horizontal wheel.
    pub open spec fn bytes(self, wheel: i8, pan: i8) -> Seq<u8> {
        seq![
            self.buttons,
            lo_byte(self.x),
            hi_byte(self.x),
            lo_byte(self.y),
            hi_byte(self.y),
            wheel as u8,
            pan as u8
        ]
    }

    /// A pointer at the origin with no button held.
    pub fn new() -> (r: AbsMouseReport)
        ensures
            r.buttons == 0,
            r.x == 0,
            r.y == 0,
    {
        AbsMouseReport { buttons: 0, x: 0, y: 0 }
    }
}

/// State of the consumer control report: the usage held down, 0 for none.
#[derive(Debug, Clone, Copy)]
pub struct ConsumerReport {
    pub usage: u16,
}

impl ConsumerReport {
    /// The two report bytes: the usage, high byte first.
    pub open spec fn bytes(self) -> Seq<u8> {
        seq![hi_byte(self.usage), lo_byte(self.usage)]
    }
}

} // verus!
