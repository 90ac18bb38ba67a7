//! The decisions of a client session: the greeting exchanged with the server,
//! and what the client does for each packet the server sends.
use vstd::prelude::*;
use vstd::string::StringSliceAdditionalSpecFns;

use crate::actuator::{ActuatorMessage, MessageModel};
use crate::clipboard::{ClipboardContents, ClipboardData};
use crate::error::{ConnectionError, PacketError};
use crate::packet::{Packet, PacketModel};
use crate::packet_stream::{frame_str, spec_frame_str};
use crate::wire::{be_u16_bytes, be_u32_bytes, push_bytes, push_u16, push_u32};

verus! {

/// The protocol name that opens the greeting: "Barrier" in ASCII.
pub open spec fn hello_magic() -> Seq<u8> {
    seq![0x42u8, 0x61u8, 0x72u8, 0x72u8, 0x69u8, 0x65u8, 0x72u8]
}

/// The protocol version a client announces: 1.6.
pub const CLIENT_MAJOR: u16 = 1;

pub const CLIENT_MINOR: u16 = 6;

/// Whether the server's greeting starts with the protocol name.
pub fn is_hello_magic(bytes: &[u8]) -> (r: bool)
    ensures
        r == (bytes@ == hello_magic()),
{
    let r = bytes.len() == 7 && bytes[0] == 0x42 && bytes[1] == 0x61 && bytes[2] == 0x72 && bytes[3]
        == 0x72 && bytes[4] == 0x69 && bytes[5] == 0x65 && bytes[6] == 0x72;
    if r {
        assert(bytes@ =~= hello_magic());
    }
    r
}

/// The greeting check: the server's greeting must start with the protocol
/// name; any other start is a protocol error, which ends the session.
pub fn check_hello(bytes: &[u8]) -> (r: Result<(), ConnectionError>)
    ensures
        r == (if bytes@ == hello_magic() {
            Ok(())
        } else {
            Err(ConnectionError::ProtocolError(PacketError::FormatError))
        }),
{
    if is_hello_magic(bytes) {
        Ok(())
    } else {
        Err(ConnectionError::ProtocolError(PacketError::FormatError))
    }
}

/// How a session ends once the server's packets stop: the actuator is told
/// that the client disconnected, and the session ends with `Disconnected`.
pub fn stream_ended() -> (r: (ActuatorMessage, ConnectionError))
    ensures
        r.0@ == MessageModel::Disconnected,
        r.1 == ConnectionError::Disconnected,
{
    (ActuatorMessage::Disconnected, ConnectionError::Disconnected)
}

/// How a session ends when a reply to the server cannot be written: the
/// actuator is told that the client disconnected, and the session ends with
/// the write's error.
pub fn reply_failed(e: PacketError) -> (r: (ActuatorMessage, ConnectionError))
    ensures
        r.0@ == MessageModel::Disconnected,
        r.1 == ConnectionError::ProtocolError(e),
{
    (ActuatorMessage::Disconnected, ConnectionError::ProtocolError(e))
}

/// The client's greeting: the length of the rest (counting the name's
/// length truncated to 32 bits), the protocol name, the client version, and
/// the screen name as a protocol string.
pub open spec fn spec_hello_reply(name: Seq<u8>) -> Seq<u8> {
    be_u32_bytes((15 + (name.len() as u32)) as u32) + hello_magic() + be_u16_bytes(CLIENT_MAJOR)
        + be_u16_bytes(CLIENT_MINOR) + spec_frame_str(name)
}

/// The bytes of the client's greeting for screen `name`.
pub fn hello_reply(name: &str) -> (r: Vec<u8>)
    requires
        (name.spec_bytes().len() as u32) + 15 <= u32::MAX,
    ensures
        r@ == spec_hello_reply(name.spec_bytes()),
{
    let len = name.as_bytes().len() as u32;
    let mut out: Vec<u8> = Vec::new();
    push_u32(&mut out, 7 + 2 + 2 + 4 + len);
    let magic: [u8; 7] = [0x42, 0x61, 0x72, 0x72, 0x69, 0x65, 0x72];
    assert(magic@ =~= hello_magic());
    push_bytes(&mut out, vstd::array::array_as_slice(&magic));
    push_u16(&mut out, CLIENT_MAJOR);
    push_u16(&mut out, CLIENT_MINOR);
    let framed = frame_str(name);
    push_bytes(&mut out, framed.as_slice());
    assert(out@ =~= spec_hello_reply(name.spec_bytes()));
    out
}

/// What the client does for a server packet.
pub enum ClientAction {
    /// Nothing.
    Nothing,
    /// Write this packet back to the server.
    Reply(Packet),
    /// Pass this request to the actuator.
    Actuate(ActuatorMessage),
    /// Hand this clipboard to the actuator.
    SetClipboard(ClipboardData),
    /// Move the cursor to screen position (`x`, `y`): the caller maps it onto
    /// the pointer's range 0..=0x7fff for the screen's size and passes the
    /// result to the actuator as a cursor position.
    PlaceCursor { x: u16, y: u16 },
    /// The cursor leaves the screen: ask the actuator for its clipboard
    /// (see [`ClientSession::clipboard_to_send`]), then tell it to leave.
    Leave,
}

/// The abstract value of a [`ClientAction`].
pub enum ActionModel {
    Nothing,
    Reply(PacketModel),
    Actuate(MessageModel),
    SetClipboard(ClipboardContents),
    PlaceCursor { x: u16, y: u16 },
    Leave,
}

impl View for ClientAction {
    type V = ActionModel;

    open spec fn view(&self) -> ActionModel {
        match self {
            ClientAction::Nothing => ActionModel::Nothing,
            ClientAction::Reply(p) => ActionModel::Reply(p@),
            ClientAction::Actuate(m) => ActionModel::Actuate(m@),
            ClientAction::SetClipboard(d) => ActionModel::SetClipboard(d@),
            ClientAction::PlaceCursor { x, y } => ActionModel::PlaceCursor { x: *x, y: *y },
            ClientAction::Leave => ActionModel::Leave,
        }
    }
}

/// What a client session remembers between packets.
#[derive(Debug, Clone, Copy)]
pub struct ClientSession {
    pub screen_width: u16,
    pub screen_height: u16,
    /// Sequence number of the last cursor entry, advanced for each clipboard
    /// the client sends.
    pub last_seq_num: u32,
}

impl ClientSession {
    /// The action for packet `p` and the session after it.
    pub open spec fn step(self, p: PacketModel) -> (ClientSession, ActionModel) {
        match p {
            PacketModel::QueryInfo => (
                self,
                ActionModel::Reply(
                    PacketModel::DeviceInfo {
                        x: 0,
                        y: 0,
                        w: self.screen_width,
                        h: self.screen_height,
                        dummy: 0,
                        mx: 0,
                        my: 0,
                    },
                ),
            ),
            PacketModel::KeepAlive => (self, ActionModel::Reply(PacketModel::KeepAlive)),
            PacketModel::MouseMoveAbs { x, y } => (self, ActionModel::PlaceCursor { x, y }),
            PacketModel::MouseMove { x, y } => (self, ActionModel::Actuate(MessageModel::MoveCursor { x, y })),
            PacketModel::KeyUp { id, mask, button } => (
                self,
                ActionModel::Actuate(MessageModel::KeyUp { key: id, mask, button }),
            ),
            PacketModel::KeyDown { id, mask, button } => (
                self,
                ActionModel::Actuate(MessageModel::KeyDown { key: id, mask, button }),
            ),
            PacketModel::KeyRepeat { id, mask, button, count } => (
                self,
                ActionModel::Actuate(MessageModel::KeyRepeat { key: id, mask, button, count }),
            ),
            PacketModel::MouseDown { id } => (self, ActionModel::Actuate(MessageModel::MouseDown { button: id })),
            PacketModel::MouseUp { id } => (self, ActionModel::Actuate(MessageModel::MouseUp { button: id })),
            PacketModel::MouseWheel { x_delta, y_delta } => (
                self,
                ActionModel::Actuate(MessageModel::MouseWheel { x: x_delta, y: y_delta }),
            ),
            PacketModel::ResetOptions => (self, ActionModel::Actuate(MessageModel::ResetOptions)),
            PacketModel::SetDeviceOptions(opts) => (
                self,
                ActionModel::Actuate(MessageModel::SetOptions { opts }),
            ),
            PacketModel::CursorEnter { seq_num, .. } => (
                ClientSession { last_seq_num: seq_num, ..self },
                ActionModel::Actuate(MessageModel::Enter),
            ),
            PacketModel::CursorLeave => (self, ActionModel::Leave),
            PacketModel::SetClipboard { data, .. } => (
                self,
                if data.is_empty() { ActionModel::Nothing } else { ActionModel::SetClipboard(data) },
            ),
            _ => (self, ActionModel::Nothing),
        }
    }

    /// A session with a screen of `screen_width` x `screen_height` pixels,
    /// before any cursor entry.
    pub fn new(screen_width: u16, screen_height: u16) -> (r: ClientSession)
        ensures
            r == (ClientSession { screen_width, screen_height, last_seq_num: 0 }),
    {
        ClientSession { screen_width, screen_height, last_seq_num: 0 }
    }

    /// Decides what to do for packet `p` from the server.
    pub fn handle(&mut self, p: Packet) -> (a: ClientAction)
        ensures
            (*final(self), a@) == old(self).step(p@),
    {
        match p {
            Packet::QueryInfo => ClientAction::Reply(
                Packet::DeviceInfo {
                    x: 0,
                    y: 0,
                    w: self.screen_width,
                    h: self.screen_height,
                    _dummy: 0,
                    mx: 0,
                    my: 0,
                },
            ),
            Packet::KeepAlive => ClientAction::Reply(Packet::KeepAlive),
            Packet::MouseMoveAbs { x, y } => ClientAction::PlaceCursor { x, y },
            Packet::MouseMove { x, y } => ClientAction::Actuate(ActuatorMessage::MoveCursor { x, y }),
            Packet::KeyUp { id, mask, button } => ClientAction::Actuate(
                ActuatorMessage::KeyUp { key: id, mask, button },
            ),
            Packet::KeyDown { id, mask, button } => ClientAction::Actuate(
                ActuatorMessage::KeyDown { key: id, mask, button },
            ),
            Packet::KeyRepeat { id, mask, button, count } => ClientAction::Actuate(
                ActuatorMessage::KeyRepeat { key: id, mask, button, count },
            ),
            Packet::MouseDown { id } => ClientAction::Actuate(ActuatorMessage::MouseDown { button: id }),
            Packet::MouseUp { id } => ClientAction::Actuate(ActuatorMessage::MouseUp { button: id }),
            Packet::MouseWheel { x_delta, y_delta } => ClientAction::Actuate(
                ActuatorMessage::MouseWheel { x: x_delta, y: y_delta },
            ),
            Packet::ResetOptions => ClientAction::Actuate(ActuatorMessage::ResetOptions),
            Packet::SetDeviceOptions(opts) => ClientAction::Actuate(ActuatorMessage::SetOptions { opts }),
            Packet::CursorEnter { seq_num, .. } => {
                self.last_seq_num = seq_num;
                ClientAction::Actuate(ActuatorMessage::Enter)
            },
            Packet::CursorLeave => ClientAction::Leave,
            Packet::SetClipboard { data, .. } => {
                if data.is_empty() {
                    ClientAction::Nothing
                } else {
                    ClientAction::SetClipboard(data)
                }
            },
            _ => ClientAction::Nothing,
        }
    }

    /// When the cursor leaves: the clipboard packet to send for the
    /// actuator's clipboard, if it has one, under the next sequence number.
    pub fn clipboard_to_send(&mut self, data: Option<ClipboardData>) -> (r: Option<Packet>)
        requires
            data is Some ==> old(self).last_seq_num < u32::MAX,
        ensures
            match data {
                None => r is None && *final(self) == *old(self),
                Some(d) => {
                    &&& final(self).last_seq_num == old(self).last_seq_num + 1
                    &&& final(self).screen_width == old(self).screen_width
                    &&& final(self).screen_height == old(self).screen_height
                    &&& r matches Some(p) && p@ == (PacketModel::SetClipboard {
                        id: 0,
                        seq_num: final(self).last_seq_num,
                        data: d@,
                    })
                },
            },
    {
        match data {
            None => None,
            Some(d) => {
                self.last_seq_num = self.last_seq_num + 1;
                Some(Packet::SetClipboard { id: 0, seq_num: self.last_seq_num, data: d })
            },
        }
    }
}

/// Every packet the client writes back is one a client can write.
pub proof fn lemma_replies_encodable(s: ClientSession, p: PacketModel)
    ensures
        s.step(p).1 matches ActionModel::Reply(q) ==> q.is_encodable(),
{
}

/// The client answers a query for screen info with its screen size, and
/// echoes keep-alives.
pub proof fn lemma_query_and_keepalive(s: ClientSession)
    ensures
        s.step(PacketModel::QueryInfo).1 == ActionModel::Reply(
            PacketModel::DeviceInfo {
                x: 0,
                y: 0,
                w: s.screen_width,
                h: s.screen_height,
                dummy: 0,
                mx: 0,
                my: 0,
            },
        ),
        s.step(PacketModel::KeepAlive).1 == ActionModel::Reply(PacketModel::KeepAlive),
{
}

/// A cursor entry records its sequence number; no other packet changes the
/// session.
pub proof fn lemma_session_only_tracks_entries(s: ClientSession, p: PacketModel)
    ensures
        p matches PacketModel::CursorEnter { seq_num, .. } ==> s.step(p).0 == (ClientSession {
            last_seq_num: seq_num,
            ..s
        }),
        !(p is CursorEnter) ==> s.step(p).0 == s,
{
}

/// What the client does for each server packet. Input events go to the
/// actuator with their fields as they came (an absolute move as a screen
/// position to place the cursor at); queries and keep-alives are answered; a
/// cursor entry records its sequence number; a clipboard holding anything in
/// any of its formats is handed over, an empty one dropped; the packets a
/// client does not act on change nothing.
#[verifier::rlimit(30)]
pub proof fn lemma_actions_per_packet(
    s: ClientSession,
    x: u16,
    y: u16,
    dx: i16,
    dy: i16,
    id: u16,
    mask: u16,
    button: u16,
    count: u16,
    b: i8,
    cid: u8,
    seq_num: u32,
    opts: Seq<(Seq<char>, u32)>,
    data: ClipboardContents,
    code: Seq<u8>,
)
    ensures
        s.step(PacketModel::QueryInfo) == (s, ActionModel::Reply(
            PacketModel::DeviceInfo { x: 0, y: 0, w: s.screen_width, h: s.screen_height, dummy: 0, mx: 0, my: 0 },
        )),
        s.step(PacketModel::KeepAlive) == (s, ActionModel::Reply(PacketModel::KeepAlive)),
        s.step(PacketModel::MouseMoveAbs { x, y }) == (s, ActionModel::PlaceCursor { x, y }),
        s.step(PacketModel::MouseMove { x: dx, y: dy }) == (s, ActionModel::Actuate(
            MessageModel::MoveCursor { x: dx, y: dy },
        )),
        s.step(PacketModel::KeyUp { id, mask, button }) == (s, ActionModel::Actuate(
            MessageModel::KeyUp { key: id, mask, button },
        )),
        s.step(PacketModel::KeyDown { id, mask, button }) == (s, ActionModel::Actuate(
            MessageModel::KeyDown { key: id, mask, button },
        )),
        s.step(PacketModel::KeyRepeat { id, mask, button, count }) == (s, ActionModel::Actuate(
            MessageModel::KeyRepeat { key: id, mask, button, count },
        )),
        s.step(PacketModel::MouseDown { id: b }) == (s, ActionModel::Actuate(MessageModel::MouseDown { button: b })),
        s.step(PacketModel::MouseUp { id: b }) == (s, ActionModel::Actuate(MessageModel::MouseUp { button: b })),
        s.step(PacketModel::MouseWheel { x_delta: dx, y_delta: dy }) == (s, ActionModel::Actuate(
            MessageModel::MouseWheel { x: dx, y: dy },
        )),
        s.step(PacketModel::ResetOptions) == (s, ActionModel::Actuate(MessageModel::ResetOptions)),
        s.step(PacketModel::SetDeviceOptions(opts)) == (s, ActionModel::Actuate(MessageModel::SetOptions { opts })),
        s.step(PacketModel::CursorEnter { x, y, seq_num, mask }) == (
            ClientSession { screen_width: s.screen_width, screen_height: s.screen_height, last_seq_num: seq_num },
            ActionModel::Actuate(MessageModel::Enter),
        ),
        s.step(PacketModel::CursorLeave) == (s, ActionModel::Leave),
        data.text.len() + data.html.len() + data.bitmap.len() > 0 ==> s.step(
            PacketModel::SetClipboard { id: cid, seq_num, data },
        ) == (s, ActionModel::SetClipboard(data)),
        data.text.len() + data.html.len() + data.bitmap.len() == 0 ==> s.step(
            PacketModel::SetClipboard { id: cid, seq_num, data },
        ) == (s, ActionModel::Nothing),
        s.step(PacketModel::InfoAck) == (s, ActionModel::Nothing),
        s.step(PacketModel::ClientNoOp) == (s, ActionModel::Nothing),
        s.step(PacketModel::ErrorUnknownDevice) == (s, ActionModel::Nothing),
        s.step(PacketModel::GrabClipboard { id: cid, seq_num }) == (s, ActionModel::Nothing),
        s.step(PacketModel::Unknown(code)) == (s, ActionModel::Nothing),
        s.step(PacketModel::DeviceInfo { x, y, w: x, h: y, dummy: id, mx: mask, my: button }) == (
            s,
            ActionModel::Nothing,
        ),
{
}

/// The greeting check accepts exactly the seven bytes "Barrier".
pub proof fn lemma_hello_magic_bytes(bytes: Seq<u8>)
    ensures
        (bytes == hello_magic()) <==> (bytes.len() == 7 && bytes[0] == 0x42 && bytes[1] == 0x61
            && bytes[2] == 0x72 && bytes[3] == 0x72 && bytes[4] == 0x69 && bytes[5] == 0x65
            && bytes[6] == 0x72),
{
    if bytes.len() == 7 && bytes[0] == 0x42 && bytes[1] == 0x61 && bytes[2] == 0x72 && bytes[3] == 0x72
        && bytes[4] == 0x69 && bytes[5] == 0x65 && bytes[6] == 0x72 {
        assert(bytes =~= hello_magic());
    }
}

/// Four bytes of a length, most significant first.
pub open spec fn length_bytes(n: int) -> Seq<u8> {
    seq![(n / 0x100_0000) as u8, ((n / 0x1_0000) % 256) as u8, ((n / 256) % 256) as u8, (n % 256) as u8]
}

/// The client's greeting is: the number of bytes that follow (15 plus the
/// name's length), "Barrier", version 1.6 as two 16-bit numbers, the name's
/// length, and the name's bytes.
pub proof fn lemma_hello_reply_bytes(name: Seq<u8>)
    requires
        name.len() + 15 <= u32::MAX,
    ensures
        spec_hello_reply(name) == length_bytes(name.len() + 15int) + seq![
            0x42u8, 0x61, 0x72, 0x72, 0x69, 0x65, 0x72, 0x00, 0x01, 0x00, 0x06
        ] + length_bytes(name.len() as int) + name,
{
    let n = name.len() as u32;
    crate::wire::lemma_be_u32_arith((15 + n) as u32, seq![0u8, 0, 0, 0], 0);
    crate::wire::lemma_be_u32_arith(n, seq![0u8, 0, 0, 0], 0);
    crate::wire::lemma_be_u16_arith(CLIENT_MAJOR, seq![0u8, 0], 0);
    crate::wire::lemma_be_u16_arith(CLIENT_MINOR, seq![0u8, 0], 0);
    assert(spec_hello_reply(name) =~= length_bytes(name.len() + 15int) + seq![
        0x42u8, 0x61, 0x72, 0x72, 0x69, 0x65, 0x72, 0x00, 0x01, 0x00, 0x06
    ] + length_bytes(name.len() as int) + name);
}

/// Placing the cursor keeps its screen position in the abstract value.
pub proof fn lemma_action_fields(x: u16, y: u16)
    ensures
        (ClientAction::PlaceCursor { x, y })@ == (ActionModel::PlaceCursor { x, y }),
        ClientAction::Nothing@ == ActionModel::Nothing,
        ClientAction::Leave@ == ActionModel::Leave,
{
}

} // verus!
