//! Protocol packets and the bytes a client writes for them.
use vstd::prelude::*;

use crate::clipboard::{ClipboardContents, ClipboardData};
use crate::wire::{be_u16_bytes, be_u32_bytes, push_u16, push_u32};

verus! {

/// Packet codes: the four ASCII letters of each code read as a big-endian
/// integer.
pub const CODE_QINF: u32 = 0x5149_4e46;  // "QINF" query screen info

pub const CODE_DINF: u32 = 0x4449_4e46;  // "DINF" screen info

pub const CODE_CIAK: u32 = 0x4349_414b;  // "CIAK" info acknowledged

pub const CODE_CALV: u32 = 0x4341_4c56;  // "CALV" keep alive

pub const CODE_CNOP: u32 = 0x434e_4f50;  // "CNOP" no operation

pub const CODE_CROP: u32 = 0x4352_4f50;  // "CROP" reset options

pub const CODE_DSOP: u32 = 0x4453_4f50;  // "DSOP" set options

pub const CODE_EUNK: u32 = 0x4555_4e4b;  // "EUNK" unknown screen

pub const CODE_DMMV: u32 = 0x444d_4d56;  // "DMMV" mouse move, absolute

pub const CODE_DMRM: u32 = 0x444d_524d;  // "DMRM" mouse move, relative

pub const CODE_CINN: u32 = 0x4349_4e4e;  // "CINN" cursor enters

pub const CODE_COUT: u32 = 0x434f_5554;  // "COUT" cursor leaves

pub const CODE_CCLP: u32 = 0x4343_4c50;  // "CCLP" clipboard grabbed

pub const CODE_DCLP: u32 = 0x4443_4c50;  // "DCLP" clipboard data

pub const CODE_DMUP: u32 = 0x444d_5550;  // "DMUP" mouse button up

pub const CODE_DMDN: u32 = 0x444d_444e;  // "DMDN" mouse button down

pub const CODE_DKUP: u32 = 0x444b_5550;  // "DKUP" key up

pub const CODE_DKDN: u32 = 0x444b_444e;  // "DKDN" key down

pub const CODE_DKRP: u32 = 0x444b_5250;  // "DKRP" key repeat

pub const CODE_DMWM: u32 = 0x444d_574d;  // "DMWM" mouse wheel

/// One screen option set by the server: its name (the option's 4 bytes
/// read as UTF-8, ill-formed bytes repaired) and its value.
#[derive(Debug, Clone)]
pub struct DeviceOption {
    pub name: String,
    pub value: u32,
}

/// A packet of the protocol.
#[derive(Debug)]
#[allow(inconsistent_fields)]
pub enum Packet {
    QueryInfo,
    DeviceInfo {
        x: u16,
        y: u16,
        w: u16,
        h: u16,
        _dummy: u16,
        /// x position of the mouse on the secondary screen
        mx: u16,
        /// y position of the mouse on the secondary screen
        my: u16,
    },
    InfoAck,
    KeepAlive,
    ClientNoOp,
    ResetOptions,
    /// Options by name, each name once, in the order the names first came; a
    /// later value for a name has replaced the earlier one in place.
    SetDeviceOptions(Vec<DeviceOption>),
    ErrorUnknownDevice,
    GrabClipboard { id: u8, seq_num: u32 },
    SetClipboard { id: u8, seq_num: u32, data: ClipboardData },
    CursorEnter { x: u16, y: u16, seq_num: u32, mask: u16 },
    MouseUp { id: i8 },
    MouseDown { id: i8 },
    KeyUp { id: u16, mask: u16, button: u16 },
    KeyDown { id: u16, mask: u16, button: u16 },
    KeyRepeat { id: u16, mask: u16, button: u16, count: u16 },
    MouseWheel { x_delta: i16, y_delta: i16 },
    CursorLeave,
    MouseMoveAbs { x: u16, y: u16 },
    MouseMove { x: i16, y: i16 },
    Unknown([u8; 4]),
}

/// The abstract value of a [`Packet`].
#[allow(inconsistent_fields)]
pub enum PacketModel {
    QueryInfo,
    DeviceInfo { x: u16, y: u16, w: u16, h: u16, dummy: u16, mx: u16, my: u16 },
    InfoAck,
    KeepAlive,
    ClientNoOp,
    ResetOptions,
    SetDeviceOptions(Seq<(Seq<char>, u32)>),
    ErrorUnknownDevice,
    GrabClipboard { id: u8, seq_num: u32 },
    SetClipboard { id: u8, seq_num: u32, data: ClipboardContents },
    CursorEnter { x: u16, y: u16, seq_num: u32, mask: u16 },
    MouseUp { id: i8 },
    MouseDown { id: i8 },
    KeyUp { id: u16, mask: u16, button: u16 },
    KeyDown { id: u16, mask: u16, button: u16 },
    KeyRepeat { id: u16, mask: u16, button: u16, count: u16 },
    MouseWheel { x_delta: i16, y_delta: i16 },
    CursorLeave,
    MouseMoveAbs { x: u16, y: u16 },
    MouseMove { x: i16, y: i16 },
    Unknown(Seq<u8>),
}

/// The abstract value of a list of options: each name's bytes and value.
pub open spec fn options_view(opts: Seq<DeviceOption>) -> Seq<(Seq<char>, u32)> {
    opts.map_values(|o: DeviceOption| (o.name@, o.value))
}

impl View for Packet {
    type V = PacketModel;

    open spec fn view(&self) -> PacketModel {
        match self {
            Packet::QueryInfo => PacketModel::QueryInfo,
            Packet::DeviceInfo { x, y, w, h, _dummy, mx, my } => PacketModel::DeviceInfo {
                x: *x,
                y: *y,
                w: *w,
                h: *h,
                dummy: *_dummy,
                mx: *mx,
                my: *my,
            },
            Packet::InfoAck => PacketModel::InfoAck,
            Packet::KeepAlive => PacketModel::KeepAlive,
            Packet::ClientNoOp => PacketModel::ClientNoOp,
            Packet::ResetOptions => PacketModel::ResetOptions,
            Packet::SetDeviceOptions(opts) => PacketModel::SetDeviceOptions(options_view(opts@)),
            Packet::ErrorUnknownDevice => PacketModel::ErrorUnknownDevice,
            Packet::GrabClipboard { id, seq_num } => PacketModel::GrabClipboard {
                id: *id,
                seq_num: *seq_num,
            },
            Packet::SetClipboard { id, seq_num, data } => PacketModel::SetClipboard {
                id: *id,
                seq_num: *seq_num,
                data: data@,
            },
            Packet::CursorEnter { x, y, seq_num, mask } => PacketModel::CursorEnter {
                x: *x,
                y: *y,
                seq_num: *seq_num,
                mask: *mask,
            },
            Packet::MouseUp { id } => PacketModel::MouseUp { id: *id },
            Packet::MouseDown { id } => PacketModel::MouseDown { id: *id },
            Packet::KeyUp { id, mask, button } => PacketModel::KeyUp {
                id: *id,
                mask: *mask,
                button: *button,
            },
            Packet::KeyDown { id, mask, button } => PacketModel::KeyDown {
                id: *id,
                mask: *mask,
                button: *button,
            },
            Packet::KeyRepeat { id, mask, button, count } => PacketModel::KeyRepeat {
                id: *id,
                mask: *mask,
                button: *button,
                count: *count,
            },
            Packet::MouseWheel { x_delta, y_delta } => PacketModel::MouseWheel {
                x_delta: *x_delta,
                y_delta: *y_delta,
            },
            Packet::CursorLeave => PacketModel::CursorLeave,
            Packet::MouseMoveAbs { x, y } => PacketModel::MouseMoveAbs { x: *x, y: *y },
            Packet::MouseMove { x, y } => PacketModel::MouseMove { x: *x, y: *y },
            Packet::Unknown(code) => PacketModel::Unknown(code@),
        }
    }
}

/// A packet made of a code alone, as written: the length 4, then the code.
pub open spec fn code_frame(code: u32) -> Seq<u8> {
    be_u32_bytes(4) + be_u32_bytes(code)
}

impl PacketModel {
    /// The packets a client writes: the others are never sent by a client.
    pub open spec fn is_encodable(self) -> bool {
        match self {
            PacketModel::QueryInfo | PacketModel::DeviceInfo { .. } | PacketModel::ClientNoOp
            | PacketModel::InfoAck | PacketModel::KeepAlive | PacketModel::ErrorUnknownDevice
            | PacketModel::MouseMoveAbs { .. } => true,
            _ => false,
        }
    }

    /// The bytes of an encodable packet: a 4-byte big-endian length, then
    /// the code and the fields, all big endian. The screen info writes 0 for
    /// its unused field.
    pub open spec fn wire(self) -> Seq<u8> {
        match self {
            PacketModel::QueryInfo => code_frame(CODE_QINF),
            PacketModel::ClientNoOp => code_frame(CODE_CNOP),
            PacketModel::InfoAck => code_frame(CODE_CIAK),
            PacketModel::KeepAlive => code_frame(CODE_CALV),
            PacketModel::ErrorUnknownDevice => code_frame(CODE_EUNK),
            PacketModel::DeviceInfo { x, y, w, h, dummy, mx, my } => be_u32_bytes(18) + be_u32_bytes(
                CODE_DINF,
            ) + be_u16_bytes(x) + be_u16_bytes(y) + be_u16_bytes(w) + be_u16_bytes(h) + be_u16_bytes(
                0,
            ) + be_u16_bytes(mx) + be_u16_bytes(my),
            PacketModel::MouseMoveAbs { x, y } => be_u32_bytes(8) + be_u32_bytes(CODE_DMMV)
                + be_u16_bytes(x) + be_u16_bytes(y),
            _ => Seq::empty(),
        }
    }
}

fn push_code_frame(out: &mut Vec<u8>, code: u32)
    ensures
        final(out)@ == old(out)@ + code_frame(code),
{
    push_u32(out, 4);
    push_u32(out, code);
    assert(out@ =~= old(out)@ + code_frame(code));
}

impl Packet {
    /// Whether a client writes this kind of packet.
    pub fn is_encodable(&self) -> (r: bool)
        ensures
            r == self@.is_encodable(),
    {
        match self {
            Packet::QueryInfo | Packet::DeviceInfo { .. } | Packet::ClientNoOp | Packet::InfoAck
            | Packet::KeepAlive | Packet::ErrorUnknownDevice | Packet::MouseMoveAbs { .. } => true,
            _ => false,
        }
    }

    /// The bytes that go on the wire for a packet a client writes.
    pub fn wire_bytes(&self) -> (r: Vec<u8>)
        requires
            self@.is_encodable(),
        ensures
            r@ == self@.wire(),
    {
        let mut out: Vec<u8> = Vec::new();
        match self {
            Packet::QueryInfo => push_code_frame(&mut out, CODE_QINF),
            Packet::ClientNoOp => push_code_frame(&mut out, CODE_CNOP),
            Packet::InfoAck => push_code_frame(&mut out, CODE_CIAK),
            Packet::KeepAlive => push_code_frame(&mut out, CODE_CALV),
            Packet::ErrorUnknownDevice => push_code_frame(&mut out, CODE_EUNK),
            Packet::DeviceInfo { x, y, w, h, _dummy, mx, my } => {
                push_u32(&mut out, 18);
                push_u32(&mut out, CODE_DINF);
                push_u16(&mut out, *x);
                push_u16(&mut out, *y);
                push_u16(&mut out, *w);
                push_u16(&mut out, *h);
                push_u16(&mut out, 0);
                push_u16(&mut out, *mx);
                push_u16(&mut out, *my);
            },
            Packet::MouseMoveAbs { x, y } => {
                push_u32(&mut out, 8);
                push_u32(&mut out, CODE_DMMV);
                push_u16(&mut out, *x);
                push_u16(&mut out, *y);
            },
            _ => {},
        }
        assert(out@ =~= self@.wire());
        out
    }
}

/// Each packet's abstract value carries its fields unchanged.
pub proof fn lemma_packet_fields(
    x: u16,
    y: u16,
    w: u16,
    h: u16,
    dx: i16,
    dy: i16,
    b: i8,
    id: u8,
    key: u16,
    mask: u16,
    button: u16,
    count: u16,
    seq_num: u32,
)
    ensures
        (Packet::DeviceInfo { x, y, w, h, _dummy: mask, mx: dx as u16, my: dy as u16 })@
            == (PacketModel::DeviceInfo { x, y, w, h, dummy: mask, mx: dx as u16, my: dy as u16 }),
        (Packet::GrabClipboard { id, seq_num })@ == (PacketModel::GrabClipboard { id, seq_num }),
        (Packet::CursorEnter { x, y, seq_num, mask })@ == (PacketModel::CursorEnter { x, y, seq_num, mask }),
        (Packet::MouseUp { id: b })@ == (PacketModel::MouseUp { id: b }),
        (Packet::MouseDown { id: b })@ == (PacketModel::MouseDown { id: b }),
        (Packet::KeyUp { id: key, mask, button })@ == (PacketModel::KeyUp { id: key, mask, button }),
        (Packet::KeyDown { id: key, mask, button })@ == (PacketModel::KeyDown { id: key, mask, button }),
        (Packet::KeyRepeat { id: key, mask, button, count })@ == (PacketModel::KeyRepeat { id: key, mask, button, count }),
        (Packet::MouseWheel { x_delta: dx, y_delta: dy })@ == (PacketModel::MouseWheel { x_delta: dx, y_delta: dy }),
        (Packet::MouseMoveAbs { x, y })@ == (PacketModel::MouseMoveAbs { x, y }),
        (Packet::MouseMove { x: dx, y: dy })@ == (PacketModel::MouseMove { x: dx, y: dy }),
        Packet::QueryInfo@ == PacketModel::QueryInfo,
        Packet::InfoAck@ == PacketModel::InfoAck,
        Packet::KeepAlive@ == PacketModel::KeepAlive,
        Packet::ClientNoOp@ == PacketModel::ClientNoOp,
        Packet::ResetOptions@ == PacketModel::ResetOptions,
        Packet::ErrorUnknownDevice@ == PacketModel::ErrorUnknownDevice,
        Packet::CursorLeave@ == PacketModel::CursorLeave,
{
}

} // verus!
