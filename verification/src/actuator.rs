//! Requests to the actuator: the side of a client that acts on the screen.
use vstd::prelude::*;

use crate::packet::{options_view, DeviceOption};

verus! {

/// A request to the actuator.
#[derive(Debug)]
#[allow(inconsistent_fields)]
pub enum ActuatorMessage {
    Connected,
    Disconnected,
    SetCursorPosition { x: u16, y: u16 },
    MoveCursor { x: i16, y: i16 },
    MouseDown { button: i8 },
    MouseUp { button: i8 },
    MouseWheel { x: i16, y: i16 },
    KeyDown { key: u16, mask: u16, button: u16 },
    KeyRepeat { key: u16, mask: u16, button: u16, count: u16 },
    KeyUp { key: u16, mask: u16, button: u16 },
    Enter,
    Leave,
    /// Options by name, each name once, in the order the names first came; a
    /// later value for a name has replaced the earlier one in place.
    SetOptions { opts: Vec<DeviceOption> },
    ResetOptions,
    SetClipboardText { data: String },
    SetClipboardHtml { data: String },
    SetClipboardBitmap { data: Vec<u8> },
}

/// The abstract value of an [`ActuatorMessage`].
#[allow(inconsistent_fields)]
pub enum MessageModel {
    Connected,
    Disconnected,
    SetCursorPosition { x: u16, y: u16 },
    MoveCursor { x: i16, y: i16 },
    MouseDown { button: i8 },
    MouseUp { button: i8 },
    MouseWheel { x: i16, y: i16 },
    KeyDown { key: u16, mask: u16, button: u16 },
    KeyRepeat { key: u16, mask: u16, button: u16, count: u16 },
    KeyUp { key: u16, mask: u16, button: u16 },
    Enter,
    Leave,
    SetOptions { opts: Seq<(Seq<char>, u32)> },
    ResetOptions,
    SetClipboardText { data: Seq<char> },
    SetClipboardHtml { data: Seq<char> },
    SetClipboardBitmap { data: Seq<u8> },
}

impl View for ActuatorMessage {
    type V = MessageModel;

    open spec fn view(&self) -> MessageModel {
        match self {
            ActuatorMessage::Connected => MessageModel::Connected,
            ActuatorMessage::Disconnected => MessageModel::Disconnected,
            ActuatorMessage::SetCursorPosition { x, y } => MessageModel::SetCursorPosition { x: *x, y: *y },
            ActuatorMessage::MoveCursor { x, y } => MessageModel::MoveCursor { x: *x, y: *y },
            ActuatorMessage::MouseDown { button } => MessageModel::MouseDown { button: *button },
            ActuatorMessage::MouseUp { button } => MessageModel::MouseUp { button: *button },
            ActuatorMessage::MouseWheel { x, y } => MessageModel::MouseWheel { x: *x, y: *y },
            ActuatorMessage::KeyDown { key, mask, button } => MessageModel::KeyDown {
                key: *key,
                mask: *mask,
                button: *button,
            },
            ActuatorMessage::KeyRepeat { key, mask, button, count } => MessageModel::KeyRepeat {
                key: *key,
                mask: *mask,
                button: *button,
                count: *count,
            },
            ActuatorMessage::KeyUp { key, mask, button } => MessageModel::KeyUp {
                key: *key,
                mask: *mask,
                button: *button,
            },
            ActuatorMessage::Enter => MessageModel::Enter,
            ActuatorMessage::Leave => MessageModel::Leave,
            ActuatorMessage::SetOptions { opts } => MessageModel::SetOptions { opts: options_view(opts@) },
            ActuatorMessage::ResetOptions => MessageModel::ResetOptions,
            ActuatorMessage::SetClipboardText { data } => MessageModel::SetClipboardText { data: data@ },
            ActuatorMessage::SetClipboardHtml { data } => MessageModel::SetClipboardHtml { data: data@ },
            ActuatorMessage::SetClipboardBitmap { data } => MessageModel::SetClipboardBitmap { data: data@ },
        }
    }
}

/// Each request's abstract value carries its fields unchanged.
pub proof fn lemma_message_fields(x: u16, y: u16, dx: i16, dy: i16, b: i8, key: u16, mask: u16, button: u16, count: u16)
    ensures
        (ActuatorMessage::SetCursorPosition { x, y })@ == (MessageModel::SetCursorPosition { x, y }),
        (ActuatorMessage::MoveCursor { x: dx, y: dy })@ == (MessageModel::MoveCursor { x: dx, y: dy }),
        (ActuatorMessage::MouseDown { button: b })@ == (MessageModel::MouseDown { button: b }),
        (ActuatorMessage::MouseUp { button: b })@ == (MessageModel::MouseUp { button: b }),
        (ActuatorMessage::MouseWheel { x: dx, y: dy })@ == (MessageModel::MouseWheel { x: dx, y: dy }),
        (ActuatorMessage::KeyDown { key, mask, button })@ == (MessageModel::KeyDown { key, mask, button }),
        (ActuatorMessage::KeyUp { key, mask, button })@ == (MessageModel::KeyUp { key, mask, button }),
        (ActuatorMessage::KeyRepeat { key, mask, button, count })@ == (MessageModel::KeyRepeat { key, mask, button, count }),
        ActuatorMessage::Connected@ == MessageModel::Connected,
        ActuatorMessage::Disconnected@ == MessageModel::Disconnected,
        ActuatorMessage::Enter@ == MessageModel::Enter,
        ActuatorMessage::Leave@ == MessageModel::Leave,
        ActuatorMessage::ResetOptions@ == MessageModel::ResetOptions,
{
}

} // verus!
