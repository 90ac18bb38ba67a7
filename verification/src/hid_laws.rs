//! Properties of turning input events into HID reports that hold across calls.
use vstd::prelude::*;

use crate::descriptors::{report_descriptor, report_length};
use crate::keycodes::{spec_synergy_mouse_button, spec_synergy_to_hid, KeyCode};
use crate::reports::{free_slot, is_modifier_usage, modifier_bit, AbsMouseReport, KeyboardModel};
use crate::synergy_hid::{
    clear_len, consumer_frame, key_down_len, keyboard_frame, mouse_frame, HidState, ReportType,
};

verus! {

/// True when the keyboard report already holds `key`.
pub open spec fn holds_key(kb: KeyboardModel, key: u8) -> bool {
    if is_modifier_usage(key) {
        kb.modifier & modifier_bit(key) != 0
    } else {
        kb.keys.contains(key)
    }
}

/// True when pressing `key` would find room in the keyboard report.
pub open spec fn has_room_for(kb: KeyboardModel, key: u8) -> bool {
    is_modifier_usage(key) || free_slot(kb.keys, 0) is Some
}

/// The first empty slot at or after `j` is empty and lies in range.
proof fn lemma_free_slot(keys: Seq<u8>, j: nat)
    ensures
        free_slot(keys, j) matches Some(i) ==> j <= i < keys.len() && keys[i as int] == 0,
    decreases keys.len() - j,
{
    if j < keys.len() && keys[j as int] != 0 {
        lemma_free_slot(keys, j + 1);
    }
}

/// The first empty slot from `j` on is what `free_slot` finds, and it finds
/// none when every slot from `j` on holds a key.
proof fn lemma_free_slot_first(keys: Seq<u8>, j: nat)
    ensures
        (forall|k: int| j <= k < keys.len() ==> keys[k] != 0) ==> free_slot(keys, j) is None,
        forall|i: int|
            j <= i < keys.len() && keys[i] == 0 && (forall|k: int| j <= k < i ==> keys[k] != 0)
                ==> free_slot(keys, j) == Some(i as nat),
    decreases keys.len() - j,
{
    if j < keys.len() {
        lemma_free_slot_first(keys, j + 1);
        if keys[j as int] != 0 {
            assert forall|i: int|
                j <= i < keys.len() && keys[i] == 0 && (forall|k: int| j <= k < i ==> keys[k] != 0)
                    implies free_slot(keys, j) == Some(i as nat) by {
                assert(i != j);
                assert(forall|k: int| j + 1 <= k < i ==> keys[k] != 0);
            }
        }
    }
}

proof fn lemma_modifier_bits(m: u8, key: u8)
    requires
        is_modifier_usage(key),
    ensures
        m & modifier_bit(key) == 0 ==> (m | modifier_bit(key)) & !modifier_bit(key) == m,
        (m | modifier_bit(key)) | modifier_bit(key) == m | modifier_bit(key),
{
    let s = (key - 0xE0) as u8;
    assert(s < 8);
    assert(m & (1u8 << s) == 0 ==> (m | (1u8 << s)) & !(1u8 << s) == m) by (bit_vector);
    assert((m | (1u8 << s)) | (1u8 << s) == m | (1u8 << s)) by (bit_vector);
}

/// Pressing a key the keyboard report does not hold, while there is room for
/// it, and then releasing it leaves the report as it was.
pub proof fn lemma_press_release_restores(kb: KeyboardModel, key: u8)
    requires
        !holds_key(kb, key),
        has_room_for(kb, key),
    ensures
        kb.press(key).release(key) == kb,
{
    if is_modifier_usage(key) {
        lemma_modifier_bits(kb.modifier, key);
    } else {
        let i = free_slot(kb.keys, 0)->Some_0;
        lemma_free_slot(kb.keys, 0);
        let pressed = kb.keys.update(i as int, key);
        assert(kb.press(key).keys == pressed);
        assert forall|m: int| 0 <= m < kb.keys.len() implies (if pressed[m] == key { 0u8 } else {
            pressed[m]
        }) == kb.keys[m] by {
            if m != i {
                assert(kb.keys[m] != key) by {
                    if kb.keys[m] == key {
                        assert(kb.keys.contains(key));
                    }
                }
            }
        }
        assert(kb.press(key).release(key).keys =~= kb.keys);
    }
}

/// Pressing a key twice is pressing it once.
pub proof fn lemma_press_idempotent(kb: KeyboardModel, key: u8)
    ensures
        kb.press(key).press(key) == kb.press(key),
{
    if is_modifier_usage(key) {
        lemma_modifier_bits(kb.modifier, key);
    } else if !kb.keys.contains(key) {
        lemma_free_slot(kb.keys, 0);
        if let Some(i) = free_slot(kb.keys, 0) {
            let pressed = kb.keys.update(i as int, key);
            assert(pressed[i as int] == key);
            assert(pressed.contains(key));
        }
    }
}

/// A key that goes down on an empty Synergy button slot and then goes up on
/// that slot leaves the HID state as it was, provided the keyboard report
/// did not hold the key already and had room for it (for a media key: no
/// media key was held).
pub proof fn lemma_key_down_up_restores(s: HidState, key: u16, button: u16)
    requires
        button < s.server_buttons.len(),
        s.server_buttons[button as int] == 0,
        match spec_synergy_to_hid(key) {
            KeyCode::Key(k) => !holds_key(s.keyboard, k) && has_room_for(s.keyboard, k),
            KeyCode::Consumer(_) => s.consumer.usage == 0,
            KeyCode::NoKey => false,
        },
    ensures
        s.key_down_step(key, button).0.key_up_step(button).0 == s,
{
    let s1 = s.key_down_step(key, button).0;
    assert(key != 0);
    assert(s1.server_buttons[button as int] == key);
    assert(s1.server_buttons.update(button as int, 0) =~= s.server_buttons);
    if let KeyCode::Key(k) = spec_synergy_to_hid(key) {
        lemma_press_release_restores(s.keyboard, k);
    }
}

/// A key going up on a Synergy button slot where no key went down clears the
/// keyboard report and leaves the slots unchanged.
pub proof fn lemma_key_up_without_down_clears(s: HidState, button: u16)
    requires
        button < s.server_buttons.len(),
        s.server_buttons[button as int] == 0,
    ensures
        s.key_up_step(button).0.keyboard == KeyboardModel::cleared(),
        s.key_up_step(button).0.server_buttons == s.server_buttons,
        s.key_up_step(button).1 == keyboard_frame(KeyboardModel::cleared()),
{
}

/// A key going up on a slot releases the key recorded on that slot by the
/// last key down there, whatever key the server names, and empties the slot.
pub proof fn lemma_key_up_releases_recorded_key(s: HidState, button: u16)
    requires
        button < s.server_buttons.len(),
        s.server_buttons[button as int] != 0,
    ensures
        s.key_up_step(button).0.server_buttons[button as int] == 0,
        match spec_synergy_to_hid(s.server_buttons[button as int]) {
            KeyCode::Key(k) => s.key_up_step(button).0.keyboard == s.keyboard.release(k),
            KeyCode::Consumer(_) => s.key_up_step(button).0.consumer.usage == 0,
            KeyCode::NoKey => s.key_up_step(button).0.keyboard == KeyboardModel::cleared(),
        },
{
}

/// The pointer position set is the one written and the one later relative
/// moves start from.
pub proof fn lemma_pointer_position_remembered(s: HidState, ax: u16, ay: u16)
    ensures
        s.set_pointer_step(ax, ay).0.moved_position(0, 0) == (ax, ay),
        s.set_pointer_step(ax, ay).0.mouse.x == ax,
        s.set_pointer_step(ax, ay).0.mouse.y == ay,
        s.set_pointer_step(ax, ay).0.mouse.buttons == s.mouse.buttons,
{
}

/// A mouse button that was not held, pressed and released, leaves the
/// HID state as it was.
pub proof fn lemma_mouse_down_up_restores(s: HidState, button: i8)
    requires
        s.mouse.buttons & spec_synergy_mouse_button(button) == 0,
    ensures
        s.mouse_down_step(button).0.mouse_up_step(button).0 == s,
{
    let b = spec_synergy_mouse_button(button);
    let m = s.mouse.buttons;
    assert(m & b == 0 ==> (m | b) & !b == m) by (bit_vector);
}

/// Keyboard reports are written as 9 bytes, pointer reports as 8 and
/// consumer control reports as 3, each starting with its report id.
pub proof fn lemma_frame_lengths(kb: KeyboardModel, m: AbsMouseReport, wheel: i8, pan: i8, usage: u16)
    requires
        kb.keys.len() == 6,
    ensures
        keyboard_frame(kb).len() == 9 && keyboard_frame(kb)[0] == 0x01,
        mouse_frame(m, wheel, pan).len() == 8 && mouse_frame(m, wheel, pan)[0] == 0x02,
        consumer_frame(crate::reports::ConsumerReport { usage }).len() == 3
            && consumer_frame(crate::reports::ConsumerReport { usage })[0] == 0x03,
{
}

/// Every event keeps a report builder well formed, and in a well-formed one
/// each event writes exactly as many bytes as its length function says, never
/// more than 9: a 9-byte buffer always suffices.
pub proof fn lemma_report_lengths(
    s: HidState,
    key: u16,
    button: u16,
    kind: ReportType,
    ax: u16,
    ay: u16,
    mb: i8,
    dx: i16,
    dy: i16,
)
    requires
        s.wf(),
        button < 512,
    ensures
        s.key_down_step(key, button).0.wf(),
        s.key_down_step(key, button).1.len() == key_down_len(key) <= 9,
        s.key_up_step(button).0.wf(),
        s.key_up_step(button).1.len() == s.key_up_len(button) <= 9,
        s.clear_step(kind).0.wf(),
        s.clear_step(kind).1.len() == clear_len(kind) <= 9,
        s.set_pointer_step(ax, ay).0.wf(),
        s.set_pointer_step(ax, ay).1.len() == 8,
        s.mouse_down_step(mb).0.wf(),
        s.mouse_down_step(mb).1.len() == 8,
        s.mouse_up_step(mb).0.wf(),
        s.mouse_up_step(mb).1.len() == 8,
        s.mouse_scroll_step(dx, dy).0.wf(),
        s.mouse_scroll_step(dx, dy).1.len() == 8,
{
    if let KeyCode::Key(k) = spec_synergy_to_hid(key) {
        assert(s.keyboard.press(k).keys.len() == 6) by {
            lemma_free_slot(s.keyboard.keys, 0);
        }
    }
    let held = s.server_buttons[button as int];
    if let KeyCode::Key(k) = spec_synergy_to_hid(held) {
        assert(s.keyboard.release(k).keys.len() == 6);
    }
}

/// No key occupies two slots of the keyboard report.
pub open spec fn keys_distinct(kb: KeyboardModel) -> bool {
    forall|i: int, j: int|
        0 <= i < j < kb.keys.len() && kb.keys[i] != 0 ==> #[trigger] kb.keys[i] != #[trigger] kb.keys[j]
}

/// Pressing and releasing keep every key in at most one slot.
pub proof fn lemma_keys_stay_distinct(kb: KeyboardModel, key: u8)
    requires
        keys_distinct(kb),
    ensures
        keys_distinct(kb.press(key)),
        keys_distinct(kb.release(key)),
        keys_distinct(KeyboardModel::cleared()),
{
    if !is_modifier_usage(key) && !kb.keys.contains(key) {
        lemma_free_slot(kb.keys, 0);
        if let Some(slot) = free_slot(kb.keys, 0) {
            let keys = kb.keys.update(slot as int, key);
            assert forall|i: int, j: int|
                0 <= i < j < keys.len() && keys[i] != 0 implies #[trigger] keys[i] != #[trigger] keys[j] by {
                if i == slot {
                    if keys[j] == key {
                        assert(kb.keys[j] == key);
                        assert(kb.keys.contains(key));
                    }
                } else if j == slot {
                    if kb.keys[i] == key {
                        assert(kb.keys.contains(key));
                    }
                } else {
                    assert(kb.keys[i] != kb.keys[j]);
                }
            }
        }
    }
}

/// Every input event keeps every key of the keyboard report in at most one
/// slot.
pub proof fn lemma_steps_keep_keys_distinct(s: HidState, key: u16, button: u16)
    requires
        keys_distinct(s.keyboard),
        button < s.server_buttons.len(),
    ensures
        keys_distinct(s.key_down_step(key, button).0.keyboard),
        keys_distinct(s.key_up_step(button).0.keyboard),
        keys_distinct(s.clear_step(crate::synergy_hid::ReportType::Keyboard).0.keyboard),
{
    if let KeyCode::Key(k) = spec_synergy_to_hid(key) {
        lemma_keys_stay_distinct(s.keyboard, k);
    }
    let held = s.server_buttons[button as int];
    if let KeyCode::Key(k) = spec_synergy_to_hid(held) {
        lemma_keys_stay_distinct(s.keyboard, k);
    }
    lemma_keys_stay_distinct(s.keyboard, 0);
}

/// A pointer report as it goes out: report id 2, the buttons, x and y each
/// low byte first, the vertical wheel and the horizontal pan.
pub open spec fn pointer_bytes(buttons: u8, x: u16, y: u16, wheel: u8, pan: u8) -> Seq<u8> {
    seq![0x02u8, buttons, (x % 256) as u8, (x / 256) as u8, (y % 256) as u8, (y / 256) as u8, wheel, pan]
}

/// A keyboard report as it goes out: report id 1, the modifier byte, a zero
/// byte, the key slots.
pub open spec fn keyboard_bytes(kb: KeyboardModel) -> Seq<u8> {
    seq![0x01u8, kb.modifier, 0u8] + kb.keys
}

/// A consumer control report as it goes out: report id 3, then the usage,
/// high byte first.
pub open spec fn consumer_bytes(usage: u16) -> Seq<u8> {
    seq![0x03u8, (usage / 256) as u8, (usage % 256) as u8]
}

/// Pointer events. A button going down or up sets or clears its bit and
/// keeps the position; moving the pointer keeps the buttons and remembers the
/// position; a scroll changes nothing and carries the low byte of the
/// vertical motion (negated when the wheel is flipped) and of the horizontal
/// one; clearing the pointer lets go of every button where it is. Every
/// report written is the pointer as it is after the event; nothing but the
/// pointer changes.
pub proof fn lemma_pointer_events(s: HidState, b: i8, ax: u16, ay: u16, dx: i16, dy: i16)
    ensures
        ({
            let bit = spec_synergy_mouse_button(b);
            let down = s.mouse.buttons | bit;
            s.mouse_down_step(b) == (
                HidState { mouse: AbsMouseReport { buttons: down, x: s.mouse.x, y: s.mouse.y }, ..s },
                pointer_bytes(down, s.mouse.x, s.mouse.y, 0, 0),
            )
        }),
        ({
            let bit = spec_synergy_mouse_button(b);
            let up = s.mouse.buttons & !bit;
            s.mouse_up_step(b) == (
                HidState { mouse: AbsMouseReport { buttons: up, x: s.mouse.x, y: s.mouse.y }, ..s },
                pointer_bytes(up, s.mouse.x, s.mouse.y, 0, 0),
            )
        }),
        s.set_pointer_step(ax, ay) == (
            HidState { x: ax, y: ay, mouse: AbsMouseReport { buttons: s.mouse.buttons, x: ax, y: ay }, ..s },
            pointer_bytes(s.mouse.buttons, ax, ay, 0, 0),
        ),
        s.mouse_scroll_step(dx, dy) == (
            s,
            pointer_bytes(
                s.mouse.buttons,
                s.mouse.x,
                s.mouse.y,
                if s.flip_mouse_wheel { (0 - dy) as u8 } else { dy as u8 },
                dx as u8,
            ),
        ),
        s.clear_step(ReportType::Mouse) == (
            HidState { mouse: AbsMouseReport { buttons: 0, x: s.mouse.x, y: s.mouse.y }, ..s },
            pointer_bytes(0, s.mouse.x, s.mouse.y, 0, 0),
        ),
{
    assert(((dy as i8) as u8) == dy as u8) by (bit_vector);
    assert(((dx as i8) as u8) == dx as u8) by (bit_vector);
    assert((((0 - (dy as i8)) as i8) as u8) == (0 - dy) as u8) by (bit_vector);
    let bit = spec_synergy_mouse_button(b);
    assert(s.mouse_down_step(b).1 =~= pointer_bytes(s.mouse.buttons | bit, s.mouse.x, s.mouse.y, 0, 0));
    assert(s.mouse_up_step(b).1 =~= pointer_bytes(s.mouse.buttons & !bit, s.mouse.x, s.mouse.y, 0, 0));
    assert(s.set_pointer_step(ax, ay).1 =~= pointer_bytes(s.mouse.buttons, ax, ay, 0, 0));
    assert(s.mouse_scroll_step(dx, dy).1 =~= pointer_bytes(
        s.mouse.buttons,
        s.mouse.x,
        s.mouse.y,
        if s.flip_mouse_wheel { (0 - dy) as u8 } else { dy as u8 },
        dx as u8,
    ));
    assert(s.clear_step(ReportType::Mouse).1 =~= pointer_bytes(0, s.mouse.x, s.mouse.y, 0, 0));
}

/// Key events. A key going down is recorded on its slot; a keyboard key is
/// pressed into the keyboard report, a media key becomes the consumer usage,
/// a key with no HID counterpart clears the keyboard. A key going up empties
/// its slot and releases the key recorded there (clearing the keyboard when
/// none was). Clearing the keyboard or the consumer control lets go of all
/// of it. Every report written is the report as it is after the event, and
/// no other part of the state changes.
pub proof fn lemma_key_events(s: HidState, key: u16, button: u16)
    requires
        button < s.server_buttons.len(),
    ensures
        ({
            let t = HidState { server_buttons: s.server_buttons.update(button as int, key), ..s };
            s.key_down_step(key, button) == match spec_synergy_to_hid(key) {
                KeyCode::Key(k) => (
                    HidState { keyboard: s.keyboard.press(k), ..t },
                    keyboard_bytes(s.keyboard.press(k)),
                ),
                KeyCode::Consumer(c) => (
                    HidState { consumer: crate::reports::ConsumerReport { usage: c }, ..t },
                    consumer_bytes(c),
                ),
                KeyCode::NoKey => (
                    HidState { keyboard: KeyboardModel::cleared(), ..t },
                    keyboard_bytes(KeyboardModel::cleared()),
                ),
            }
        }),
        ({
            let held = s.server_buttons[button as int];
            let t = HidState { server_buttons: s.server_buttons.update(button as int, 0), ..s };
            s.key_up_step(button) == if held == 0 {
                (HidState { keyboard: KeyboardModel::cleared(), ..s }, keyboard_bytes(KeyboardModel::cleared()))
            } else {
                match spec_synergy_to_hid(held) {
                    KeyCode::Key(k) => (
                        HidState { keyboard: s.keyboard.release(k), ..t },
                        keyboard_bytes(s.keyboard.release(k)),
                    ),
                    KeyCode::Consumer(_) => (
                        HidState { consumer: crate::reports::ConsumerReport { usage: 0 }, ..t },
                        consumer_bytes(0),
                    ),
                    KeyCode::NoKey => (
                        HidState { keyboard: KeyboardModel::cleared(), ..t },
                        keyboard_bytes(KeyboardModel::cleared()),
                    ),
                }
            }
        }),
        s.clear_step(ReportType::Keyboard) == (
            HidState { keyboard: KeyboardModel::cleared(), ..s },
            keyboard_bytes(KeyboardModel::cleared()),
        ),
        s.clear_step(ReportType::Consumer) == (
            HidState { consumer: crate::reports::ConsumerReport { usage: 0 }, ..s },
            consumer_bytes(0),
        ),
{
    let held = s.server_buttons[button as int];
    match spec_synergy_to_hid(key) {
        KeyCode::Key(k) => {
            assert(s.key_down_step(key, button).1 =~= keyboard_bytes(s.keyboard.press(k)));
        },
        KeyCode::Consumer(c) => {
            assert(s.key_down_step(key, button).1 =~= consumer_bytes(c));
        },
        KeyCode::NoKey => {
            assert(s.key_down_step(key, button).1 =~= keyboard_bytes(KeyboardModel::cleared()));
        },
    }
    if held == 0 {
        assert(s.key_up_step(button).1 =~= keyboard_bytes(KeyboardModel::cleared()));
    } else {
        match spec_synergy_to_hid(held) {
            KeyCode::Key(k) => {
                assert(s.key_up_step(button).1 =~= keyboard_bytes(s.keyboard.release(k)));
            },
            KeyCode::Consumer(_) => {
                assert(s.key_up_step(button).1 =~= consumer_bytes(0));
            },
            KeyCode::NoKey => {
                assert(s.key_up_step(button).1 =~= keyboard_bytes(KeyboardModel::cleared()));
            },
        }
    }
    assert(s.clear_step(ReportType::Keyboard).1 =~= keyboard_bytes(KeyboardModel::cleared()));
    assert(s.clear_step(ReportType::Consumer).1 =~= consumer_bytes(0));
}

/// The keyboard report. Cleared, it holds no modifier and six empty slots.
/// A modifier key (0xE0..=0xE7) sets or clears bit `key - 0xE0` of the
/// modifier byte and leaves the slots. Another key, pressed, is left alone
/// when some slot holds it already, else goes into the first empty slot, or
/// is dropped when no slot is empty; released, every slot holding it is
/// emptied. The slots a key press or release does not name keep their keys.
pub proof fn lemma_keyboard_report(kb: KeyboardModel, key: u8)
    ensures
        KeyboardModel::cleared().modifier == 0,
        KeyboardModel::cleared().keys == seq![0u8, 0, 0, 0, 0, 0],
        0xE0 <= key <= 0xE7 ==> kb.press(key) == (KeyboardModel {
            modifier: kb.modifier | (1u8 << ((key - 0xE0) as u8)),
            keys: kb.keys,
        }),
        0xE0 <= key <= 0xE7 ==> kb.release(key) == (KeyboardModel {
            modifier: kb.modifier & !(1u8 << ((key - 0xE0) as u8)),
            keys: kb.keys,
        }),
        !(0xE0 <= key <= 0xE7) && kb.keys.contains(key) ==> kb.press(key) == kb,
        !(0xE0 <= key <= 0xE7) && !kb.keys.contains(key) && (forall|j: int| 0 <= j < kb.keys.len() ==> kb.keys[j] != 0)
            ==> kb.press(key) == kb,
        !(0xE0 <= key <= 0xE7) && !kb.keys.contains(key) ==> forall|i: int|
            0 <= i < kb.keys.len() && kb.keys[i] == 0 && (forall|j: int| 0 <= j < i ==> kb.keys[j] != 0)
                ==> kb.press(key) == (KeyboardModel { modifier: kb.modifier, keys: kb.keys.update(i, key) }),
        !(0xE0 <= key <= 0xE7) ==> kb.release(key).modifier == kb.modifier,
        !(0xE0 <= key <= 0xE7) ==> kb.release(key).keys.len() == kb.keys.len(),
        !(0xE0 <= key <= 0xE7) ==> forall|j: int| 0 <= j < kb.keys.len() ==>
            #[trigger] kb.release(key).keys[j] == (if kb.keys[j] == key { 0u8 } else { kb.keys[j] }),
{
    assert(KeyboardModel::cleared().keys =~= seq![0u8, 0, 0, 0, 0, 0]);
    if !(0xE0 <= key <= 0xE7) && !kb.keys.contains(key) {
        lemma_free_slot_first(kb.keys, 0);
    }
}

/// The HID button bit of each Synergy mouse button: left (1) bit 0, middle
/// (2) bit 2, right (3) bit 1, back (4) bit 3, forward (5) bit 4; any other
/// button has none.
pub proof fn lemma_mouse_button_bits(b: i8)
    ensures
        spec_synergy_mouse_button(1) == 0x01,
        spec_synergy_mouse_button(2) == 0x04,
        spec_synergy_mouse_button(3) == 0x02,
        spec_synergy_mouse_button(4) == 0x08,
        spec_synergy_mouse_button(5) == 0x10,
        !(1 <= b <= 5) ==> spec_synergy_mouse_button(b) == 0,
{
}

/// A fresh report builder remembers its screen and wheel setting, holds no
/// key in any of its 512 Synergy slots, has six empty key slots and no
/// modifier, no button, no media key, and the pointer at the origin.
pub proof fn lemma_initial_state(width: u16, height: u16, flip: bool)
    ensures
        ({
            let s = HidState::initial(width, height, flip);
            &&& s.width == width && s.height == height && s.flip_mouse_wheel == flip
            &&& s.x == 0 && s.y == 0
            &&& s.server_buttons.len() == 512
            &&& forall|i: int| 0 <= i < 512 ==> #[trigger] s.server_buttons[i] == 0
            &&& s.keyboard.modifier == 0
            &&& s.keyboard.keys == seq![0u8, 0, 0, 0, 0, 0]
            &&& s.mouse.buttons == 0 && s.mouse.x == 0 && s.mouse.y == 0
            &&& s.consumer.usage == 0
            &&& s.wf()
        }),
{
    assert(HidState::initial(width, height, flip).keyboard.keys =~= seq![0u8, 0, 0, 0, 0, 0]);
}

/// A relative move lands at the last position plus the motion, modulo 65536
/// on each axis.
pub proof fn lemma_moved_position(s: HidState, dx: i16, dy: i16)
    ensures
        s.moved_position(dx, dy).0 == (s.x + dx + 0x10000) % 0x10000,
        s.moved_position(dx, dy).1 == (s.y + dy + 0x10000) % 0x10000,
{
    let a = s.x;
    let b = s.y;
    assert(((a + dx) as u16) == (a + dx + 0x10000) % 0x10000) by (bit_vector);
    assert(((b + dy) as u16) == (b + dy + 0x10000) % 0x10000) by (bit_vector);
}

/// The descriptors announce a boot keyboard (generic desktop page, usage
/// keyboard) of 8-byte reports, a pointer (generic desktop, mouse) of 7-byte
/// reports whose axes span 0..=0x7fff, and a consumer control (consumer
/// page, usage consumer control) of 2-byte reports; each closes its
/// collection last.
pub proof fn lemma_descriptors()
    ensures
        report_length(ReportType::Keyboard) == 8,
        report_length(ReportType::Mouse) == 7,
        report_length(ReportType::Consumer) == 2,
        report_descriptor(ReportType::Keyboard).take(4) == seq![0x05u8, 0x01, 0x09, 0x06],
        report_descriptor(ReportType::Mouse).take(4) == seq![0x05u8, 0x01, 0x09, 0x02],
        report_descriptor(ReportType::Consumer).take(4) == seq![0x05u8, 0x0C, 0x09, 0x01],
        report_descriptor(ReportType::Keyboard).last() == 0xC0,
        report_descriptor(ReportType::Mouse).last() == 0xC0,
        report_descriptor(ReportType::Consumer).last() == 0xC0,
        report_descriptor(ReportType::Mouse).subrange(38, 43) == seq![0x15u8, 0x00, 0x26, 0xFF, 0x7F],
{
    assert(report_descriptor(ReportType::Keyboard).take(4) =~= seq![0x05u8, 0x01, 0x09, 0x06]);
    assert(report_descriptor(ReportType::Mouse).take(4) =~= seq![0x05u8, 0x01, 0x09, 0x02]);
    assert(report_descriptor(ReportType::Consumer).take(4) =~= seq![0x05u8, 0x0C, 0x09, 0x01]);
    assert(report_descriptor(ReportType::Mouse).subrange(38, 43) =~= seq![0x15u8, 0x00, 0x26, 0xFF, 0x7F]);
}

} // verus!
