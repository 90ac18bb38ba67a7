//! What reading gives back of what the client writes.
use vstd::prelude::*;

use crate::clipboard::{spec_parse_clipboard, spec_parse_decimal_u32, StageModel};
use crate::error::PacketError;
use crate::packet::{code_frame, PacketModel, CODE_DCLP};
use crate::clipboard::utf8_lossy;
use crate::options::collect_options;
use crate::packet_stream::spec_decode;
use crate::wire::{
    be_u16_at, be_u16_bytes, be_u32_at, be_u32_bytes, lemma_be_u16_roundtrip, lemma_be_u32_roundtrip,
};

verus! {

proof fn lemma_u16_inside(pre: Seq<u8>, v: u16, post: Seq<u8>)
    ensures
        be_u16_at(pre + be_u16_bytes(v) + post, pre.len() as int) == v,
{
    lemma_be_u16_roundtrip(v);
    let s = pre + be_u16_bytes(v) + post;
    assert(s[pre.len() as int] == be_u16_bytes(v)[0]);
    assert(s[pre.len() as int + 1] == be_u16_bytes(v)[1]);
}

proof fn lemma_u32_inside(pre: Seq<u8>, v: u32, post: Seq<u8>)
    ensures
        be_u32_at(pre + be_u32_bytes(v) + post, pre.len() as int) == v,
{
    lemma_be_u32_roundtrip(v);
    let s = pre + be_u32_bytes(v) + post;
    assert(s[pre.len() as int] == be_u32_bytes(v)[0]);
    assert(s[pre.len() as int + 1] == be_u32_bytes(v)[1]);
    assert(s[pre.len() as int + 2] == be_u32_bytes(v)[2]);
    assert(s[pre.len() as int + 3] == be_u32_bytes(v)[3]);
}

proof fn lemma_code_frame_body(code: u32)
    ensures
        code_frame(code).skip(4) == be_u32_bytes(code),
        be_u32_at(code_frame(code).skip(4), 0) == code,
{
    lemma_be_u32_roundtrip(4);
    lemma_be_u32_roundtrip(code);
    assert(code_frame(code).skip(4) =~= be_u32_bytes(code));
}

/// Every packet a client writes starts with a big-endian length that counts
/// exactly the bytes after it.
pub proof fn lemma_wire_length_prefix(p: PacketModel)
    requires
        p.is_encodable(),
    ensures
        p.wire().len() >= 4,
        be_u32_at(p.wire(), 0) == p.wire().len() - 4,
{
    lemma_be_u16_roundtrip(0);
    lemma_be_u32_roundtrip(4);
    let w = p.wire();
    match p {
        PacketModel::DeviceInfo { .. } => {
            lemma_be_u32_roundtrip(18);
            lemma_u32_inside(Seq::empty(), 18, w.skip(4));
            assert(w =~= Seq::empty() + be_u32_bytes(18) + w.skip(4));
        },
        PacketModel::MouseMoveAbs { .. } => {
            lemma_be_u32_roundtrip(8);
            lemma_u32_inside(Seq::empty(), 8, w.skip(4));
            assert(w =~= Seq::empty() + be_u32_bytes(8) + w.skip(4));
        },
        _ => {
            lemma_u32_inside(Seq::empty(), 4, w.skip(4));
            assert(w =~= Seq::empty() + be_u32_bytes(4) + w.skip(4));
        },
    }
}

/// Reading the body of what the client writes for a query, an info
/// acknowledgement, a keep-alive, an unknown-screen error or an absolute
/// mouse move gives back that packet, and leaves any clipboard transfer as it
/// was.
pub proof fn lemma_wire_read_roundtrip(p: PacketModel, stage: StageModel)
    requires
        p is QueryInfo || p is InfoAck || p is KeepAlive || p is ErrorUnknownDevice
            || p is MouseMoveAbs,
    ensures
        spec_decode(p.wire().skip(4), stage) == (Ok::<PacketModel, PacketError>(p), stage),
{
    let body = p.wire().skip(4);
    match p {
        PacketModel::MouseMoveAbs { x, y } => {
            let c = be_u32_bytes(crate::packet::CODE_DMMV);
            assert(body =~= Seq::empty() + c + (be_u16_bytes(x) + be_u16_bytes(y)));
            lemma_u32_inside(Seq::empty(), crate::packet::CODE_DMMV, be_u16_bytes(x) + be_u16_bytes(y));
            assert(body =~= c + be_u16_bytes(x) + be_u16_bytes(y));
            lemma_u16_inside(c, x, be_u16_bytes(y));
            assert(body =~= c + be_u16_bytes(x) + be_u16_bytes(y) + Seq::empty());
            lemma_u16_inside(c + be_u16_bytes(x), y, Seq::empty());
        },
        PacketModel::QueryInfo => lemma_code_frame_body(crate::packet::CODE_QINF),
        PacketModel::InfoAck => lemma_code_frame_body(crate::packet::CODE_CIAK),
        PacketModel::KeepAlive => lemma_code_frame_body(crate::packet::CODE_CALV),
        _ => lemma_code_frame_body(crate::packet::CODE_EUNK),
    }
}

/// The body of a clipboard data chunk: code, clipboard id, sequence
/// number, mark, payload.
pub open spec fn clipboard_chunk(id: u8, seq_num: u32, mark: u8, payload: Seq<u8>) -> Seq<u8> {
    be_u32_bytes(CODE_DCLP) + seq![id] + be_u32_bytes(seq_num) + seq![mark] + payload
}

proof fn lemma_chunk_fields(id: u8, seq_num: u32, mark: u8, payload: Seq<u8>)
    ensures
        ({
            let b = clipboard_chunk(id, seq_num, mark, payload);
            &&& b.len() >= 10
            &&& be_u32_at(b, 0) == CODE_DCLP
            &&& b[4] == id
            &&& be_u32_at(b, 5) == seq_num
            &&& b[9] == mark
            &&& b.skip(10) == payload
        }),
{
    let b = clipboard_chunk(id, seq_num, mark, payload);
    let rest = seq![id] + be_u32_bytes(seq_num) + seq![mark] + payload;
    assert(b =~= Seq::empty() + be_u32_bytes(CODE_DCLP) + rest);
    lemma_u32_inside(Seq::empty(), CODE_DCLP, rest);
    let pre = be_u32_bytes(CODE_DCLP) + seq![id];
    let post = seq![mark] + payload;
    assert(b =~= pre + be_u32_bytes(seq_num) + post);
    lemma_u32_inside(pre, seq_num, post);
    lemma_be_u32_roundtrip(CODE_DCLP);
    lemma_be_u32_roundtrip(seq_num);
    assert(b.skip(10) =~= payload);
}

/// A clipboard transfer in three chunks (mark 1 with a valid length header,
/// mark 2 with `p`, mark 3 with `q`) read from an idle stage gives two no-ops
/// and then, from the last chunk, the clipboard that `p + q` holds, for the
/// clipboard named by the first chunk and under the last chunk's sequence
/// number, or the error that parsing `p + q` gives; either way the transfer
/// ends at mark 3 holding `p + q`. The clipboard ids of the later chunks do
/// not matter.
pub proof fn lemma_clipboard_transfer(
    id1: u8,
    id2: u8,
    id3: u8,
    s1: u32,
    s2: u32,
    s3: u32,
    header: Seq<u8>,
    p: Seq<u8>,
    q: Seq<u8>,
)
    requires
        header.len() >= 4,
        spec_parse_decimal_u32(header.skip(4)) is Some,
    ensures
        ({
            let (r1, st1) = spec_decode(clipboard_chunk(id1, s1, 1, header), StageModel::Idle);
            let (r2, st2) = spec_decode(clipboard_chunk(id2, s2, 2, p), st1);
            let (r3, st3) = spec_decode(clipboard_chunk(id3, s3, 3, q), st2);
            &&& r1 == Ok::<PacketModel, PacketError>(PacketModel::ClientNoOp)
            &&& r2 == Ok::<PacketModel, PacketError>(PacketModel::ClientNoOp)
            &&& r3 == match spec_parse_clipboard(p + q) {
                Ok(c) => Ok::<PacketModel, PacketError>(PacketModel::SetClipboard { id: id1, seq_num: s3, data: c }),
                Err(e) => Err(e),
            }
            &&& st3 == StageModel::Mark3 { id: id1, data: p + q }
        }),
{
    lemma_chunk_fields(id1, s1, 1, header);
    lemma_chunk_fields(id2, s2, 2, p);
    lemma_chunk_fields(id3, s3, 3, q);
    assert(Seq::<u8>::empty() + p =~= p);
}

/// A clipboard data chunk shorter than its code, clipboard id, sequence
/// number and mark is refused with `IoError`, the transfer left as it was.
pub proof fn lemma_decode_short_chunk(part: Seq<u8>, stage: StageModel)
    requires
        part.len() < 6,
    ensures
        spec_decode(seq![0x44u8, 0x43, 0x4c, 0x50] + part, stage) == (Err::<PacketModel, PacketError>(PacketError::IoError), stage),
{
    lemma_code_at(seq![0x44u8, 0x43, 0x4c, 0x50] + part, 0x44, 0x43, 0x4c, 0x50);
}

proof fn lemma_at16(s: Seq<u8>, i: int, v: u16)
    requires
        0 <= i,
        i + 2 <= s.len(),
        s.subrange(i, i + 2) == be_u16_bytes(v),
    ensures
        be_u16_at(s, i) == v,
{
    lemma_be_u16_roundtrip(v);
    assert(s[i] == s.subrange(i, i + 2)[0]);
    assert(s[i + 1] == s.subrange(i, i + 2)[1]);
}

proof fn lemma_at32(s: Seq<u8>, i: int, v: u32)
    requires
        0 <= i,
        i + 4 <= s.len(),
        s.subrange(i, i + 4) == be_u32_bytes(v),
    ensures
        be_u32_at(s, i) == v,
{
    lemma_be_u32_roundtrip(v);
    assert(s[i] == s.subrange(i, i + 4)[0]);
    assert(s[i + 1] == s.subrange(i, i + 4)[1]);
    assert(s[i + 2] == s.subrange(i, i + 4)[2]);
    assert(s[i + 3] == s.subrange(i, i + 4)[3]);
}

proof fn lemma_code_at(s: Seq<u8>, a: u8, b: u8, c: u8, d: u8)
    requires
        s.len() >= 4,
        s[0] == a && s[1] == b && s[2] == c && s[3] == d,
    ensures
        be_u32_at(s, 0) == a * 0x100_0000 + b * 0x1_0000 + c * 256 + d,
{
    crate::wire::lemma_be_u32_arith(0, s, 0);
}

proof fn lemma_i16_cast(v: i16)
    ensures
        ((v as u16) as i16) == v,
{
    assert(((v as u16) as i16) == v) by (bit_vector);
}

/// A server packet made of its code alone decodes to that packet whatever
/// bytes follow the code: "QINF" a query, "CIAK" an info acknowledgement,
/// "CALV" a keep-alive, "CROP" an options reset, "EUNK" an unknown-screen
/// error, "COUT" the cursor leaving; the clipboard transfer is left as it was.
pub proof fn lemma_decode_code_only(rest: Seq<u8>, stage: StageModel)
    ensures
        spec_decode(seq![0x51u8, 0x49, 0x4e, 0x46] + rest, stage) == (Ok::<PacketModel, PacketError>(PacketModel::QueryInfo), stage),
        spec_decode(seq![0x43u8, 0x49, 0x41, 0x4b] + rest, stage) == (Ok::<PacketModel, PacketError>(PacketModel::InfoAck), stage),
        spec_decode(seq![0x43u8, 0x41, 0x4c, 0x56] + rest, stage) == (Ok::<PacketModel, PacketError>(PacketModel::KeepAlive), stage),
        spec_decode(seq![0x43u8, 0x52, 0x4f, 0x50] + rest, stage) == (Ok::<PacketModel, PacketError>(PacketModel::ResetOptions), stage),
        spec_decode(seq![0x45u8, 0x55, 0x4e, 0x4b] + rest, stage) == (Ok::<PacketModel, PacketError>(PacketModel::ErrorUnknownDevice), stage),
        spec_decode(seq![0x43u8, 0x4f, 0x55, 0x54] + rest, stage) == (Ok::<PacketModel, PacketError>(PacketModel::CursorLeave), stage),
{
    lemma_code_at(seq![0x51u8, 0x49, 0x4e, 0x46] + rest, 0x51, 0x49, 0x4e, 0x46);
    lemma_code_at(seq![0x43u8, 0x49, 0x41, 0x4b] + rest, 0x43, 0x49, 0x41, 0x4b);
    lemma_code_at(seq![0x43u8, 0x41, 0x4c, 0x56] + rest, 0x43, 0x41, 0x4c, 0x56);
    lemma_code_at(seq![0x43u8, 0x52, 0x4f, 0x50] + rest, 0x43, 0x52, 0x4f, 0x50);
    lemma_code_at(seq![0x45u8, 0x55, 0x4e, 0x4b] + rest, 0x45, 0x55, 0x4e, 0x4b);
    lemma_code_at(seq![0x43u8, 0x4f, 0x55, 0x54] + rest, 0x43, 0x4f, 0x55, 0x54);
}

/// Pointer packets from the server decode field by field, each field big
/// endian right after the code, whatever bytes follow: "DMMV" an absolute
/// move to (`x`, `y`), "DMRM" a relative move by (`dx`, `dy`), "DMWM" a wheel
/// scroll of `dx` horizontally and `dy` vertically, "DMDN" and "DMUP" the
/// button `b` going down and up.
pub proof fn lemma_decode_pointer_packets(x: u16, y: u16, dx: i16, dy: i16, b: i8, rest: Seq<u8>, stage: StageModel)
    ensures
        spec_decode(seq![0x44u8, 0x4d, 0x4d, 0x56] + be_u16_bytes(x) + be_u16_bytes(y) + rest, stage)
            == (Ok::<PacketModel, PacketError>(PacketModel::MouseMoveAbs { x, y }), stage),
        spec_decode(seq![0x44u8, 0x4d, 0x52, 0x4d] + be_u16_bytes(dx as u16) + be_u16_bytes(dy as u16) + rest, stage)
            == (Ok::<PacketModel, PacketError>(PacketModel::MouseMove { x: dx, y: dy }), stage),
        spec_decode(seq![0x44u8, 0x4d, 0x57, 0x4d] + be_u16_bytes(dx as u16) + be_u16_bytes(dy as u16) + rest, stage)
            == (Ok::<PacketModel, PacketError>(PacketModel::MouseWheel { x_delta: dx, y_delta: dy }), stage),
        spec_decode(seq![0x44u8, 0x4d, 0x44, 0x4e] + seq![b as u8] + rest, stage)
            == (Ok::<PacketModel, PacketError>(PacketModel::MouseDown { id: b }), stage),
        spec_decode(seq![0x44u8, 0x4d, 0x55, 0x50] + seq![b as u8] + rest, stage)
            == (Ok::<PacketModel, PacketError>(PacketModel::MouseUp { id: b }), stage),
{
    lemma_i16_cast(dx);
    lemma_i16_cast(dy);
    assert(((b as u8) as i8) == b) by (bit_vector);
    let mv = seq![0x44u8, 0x4d, 0x4d, 0x56] + be_u16_bytes(x) + be_u16_bytes(y) + rest;
    lemma_code_at(mv, 0x44, 0x4d, 0x4d, 0x56);
    assert(mv.subrange(4, 6) =~= be_u16_bytes(x));
    assert(mv.subrange(6, 8) =~= be_u16_bytes(y));
    lemma_at16(mv, 4, x);
    lemma_at16(mv, 6, y);
    let rm = seq![0x44u8, 0x4d, 0x52, 0x4d] + be_u16_bytes(dx as u16) + be_u16_bytes(dy as u16) + rest;
    lemma_code_at(rm, 0x44, 0x4d, 0x52, 0x4d);
    assert(rm.subrange(4, 6) =~= be_u16_bytes(dx as u16));
    assert(rm.subrange(6, 8) =~= be_u16_bytes(dy as u16));
    lemma_at16(rm, 4, dx as u16);
    lemma_at16(rm, 6, dy as u16);
    let wm = seq![0x44u8, 0x4d, 0x57, 0x4d] + be_u16_bytes(dx as u16) + be_u16_bytes(dy as u16) + rest;
    lemma_code_at(wm, 0x44, 0x4d, 0x57, 0x4d);
    assert(wm.subrange(4, 6) =~= be_u16_bytes(dx as u16));
    assert(wm.subrange(6, 8) =~= be_u16_bytes(dy as u16));
    lemma_at16(wm, 4, dx as u16);
    lemma_at16(wm, 6, dy as u16);
    let dn = seq![0x44u8, 0x4d, 0x44, 0x4e] + seq![b as u8] + rest;
    lemma_code_at(dn, 0x44, 0x4d, 0x44, 0x4e);
    let up = seq![0x44u8, 0x4d, 0x55, 0x50] + seq![b as u8] + rest;
    lemma_code_at(up, 0x44, 0x4d, 0x55, 0x50);
}

/// Key packets from the server decode field by field, big endian, whatever
/// bytes follow: "DKDN" and "DKUP" carry key `id`, modifier `mask` and
/// button `button`; "DKRP" carries key, mask, then the repeat `count`, then
/// the button.
pub proof fn lemma_decode_key_packets(id: u16, mask: u16, button: u16, count: u16, rest: Seq<u8>, stage: StageModel)
    ensures
        spec_decode(seq![0x44u8, 0x4b, 0x44, 0x4e] + be_u16_bytes(id) + be_u16_bytes(mask) + be_u16_bytes(button) + rest, stage)
            == (Ok::<PacketModel, PacketError>(PacketModel::KeyDown { id, mask, button }), stage),
        spec_decode(seq![0x44u8, 0x4b, 0x55, 0x50] + be_u16_bytes(id) + be_u16_bytes(mask) + be_u16_bytes(button) + rest, stage)
            == (Ok::<PacketModel, PacketError>(PacketModel::KeyUp { id, mask, button }), stage),
        spec_decode(
            seq![0x44u8, 0x4b, 0x52, 0x50] + be_u16_bytes(id) + be_u16_bytes(mask) + be_u16_bytes(count) + be_u16_bytes(button) + rest,
            stage,
        ) == (Ok::<PacketModel, PacketError>(PacketModel::KeyRepeat { id, mask, button, count }), stage),
{
    let dn = seq![0x44u8, 0x4b, 0x44, 0x4e] + be_u16_bytes(id) + be_u16_bytes(mask) + be_u16_bytes(button) + rest;
    lemma_code_at(dn, 0x44, 0x4b, 0x44, 0x4e);
    assert(dn.subrange(4, 6) =~= be_u16_bytes(id));
    assert(dn.subrange(6, 8) =~= be_u16_bytes(mask));
    assert(dn.subrange(8, 10) =~= be_u16_bytes(button));
    lemma_at16(dn, 4, id);
    lemma_at16(dn, 6, mask);
    lemma_at16(dn, 8, button);
    let up = seq![0x44u8, 0x4b, 0x55, 0x50] + be_u16_bytes(id) + be_u16_bytes(mask) + be_u16_bytes(button) + rest;
    lemma_code_at(up, 0x44, 0x4b, 0x55, 0x50);
    assert(up.subrange(4, 6) =~= be_u16_bytes(id));
    assert(up.subrange(6, 8) =~= be_u16_bytes(mask));
    assert(up.subrange(8, 10) =~= be_u16_bytes(button));
    lemma_at16(up, 4, id);
    lemma_at16(up, 6, mask);
    lemma_at16(up, 8, button);
    let rp = seq![0x44u8, 0x4b, 0x52, 0x50] + be_u16_bytes(id) + be_u16_bytes(mask) + be_u16_bytes(count) + be_u16_bytes(button) + rest;
    lemma_code_at(rp, 0x44, 0x4b, 0x52, 0x50);
    assert(rp.subrange(4, 6) =~= be_u16_bytes(id));
    assert(rp.subrange(6, 8) =~= be_u16_bytes(mask));
    assert(rp.subrange(8, 10) =~= be_u16_bytes(count));
    assert(rp.subrange(10, 12) =~= be_u16_bytes(button));
    lemma_at16(rp, 4, id);
    lemma_at16(rp, 6, mask);
    lemma_at16(rp, 8, count);
    lemma_at16(rp, 10, button);
}

/// Screen packets from the server decode field by field, big endian,
/// whatever bytes follow: "CINN" the cursor entering at (`x`, `y`) with
/// sequence number `seq_num` and modifier `mask`; "CCLP" clipboard `id`
/// grabbed under `seq_num`.
pub proof fn lemma_decode_screen_packets(x: u16, y: u16, seq_num: u32, mask: u16, id: u8, rest: Seq<u8>, stage: StageModel)
    ensures
        spec_decode(seq![0x43u8, 0x49, 0x4e, 0x4e] + be_u16_bytes(x) + be_u16_bytes(y) + be_u32_bytes(seq_num) + be_u16_bytes(mask) + rest, stage)
            == (Ok::<PacketModel, PacketError>(PacketModel::CursorEnter { x, y, seq_num, mask }), stage),
        spec_decode(seq![0x43u8, 0x43, 0x4c, 0x50] + seq![id] + be_u32_bytes(seq_num) + rest, stage)
            == (Ok::<PacketModel, PacketError>(PacketModel::GrabClipboard { id, seq_num }), stage),
{
    let cin = seq![0x43u8, 0x49, 0x4e, 0x4e] + be_u16_bytes(x) + be_u16_bytes(y) + be_u32_bytes(seq_num) + be_u16_bytes(mask) + rest;
    lemma_code_at(cin, 0x43, 0x49, 0x4e, 0x4e);
    assert(cin.subrange(4, 6) =~= be_u16_bytes(x));
    assert(cin.subrange(6, 8) =~= be_u16_bytes(y));
    assert(cin.subrange(8, 12) =~= be_u32_bytes(seq_num));
    assert(cin.subrange(12, 14) =~= be_u16_bytes(mask));
    lemma_at16(cin, 4, x);
    lemma_at16(cin, 6, y);
    lemma_at32(cin, 8, seq_num);
    lemma_at16(cin, 12, mask);
    let cc = seq![0x43u8, 0x43, 0x4c, 0x50] + seq![id] + be_u32_bytes(seq_num) + rest;
    lemma_code_at(cc, 0x43, 0x43, 0x4c, 0x50);
    assert(cc.subrange(5, 9) =~= be_u32_bytes(seq_num));
    lemma_at32(cc, 5, seq_num);
}

/// The codes of the packets a server sends that the client reads: "QINF",
/// "CIAK", "CALV", "CROP", "DSOP", "EUNK", "DMMV", "DMRM", "CINN", "COUT",
/// "CCLP", "DCLP", "DMUP", "DMDN", "DKUP", "DKDN", "DKRP", "DMWM".
pub open spec fn is_known_code(c: Seq<u8>) -> bool {
    c == seq![0x51u8, 0x49, 0x4e, 0x46]
        || c == seq![0x43u8, 0x49, 0x41, 0x4b]
        || c == seq![0x43u8, 0x41, 0x4c, 0x56]
        || c == seq![0x43u8, 0x52, 0x4f, 0x50]
        || c == seq![0x44u8, 0x53, 0x4f, 0x50]
        || c == seq![0x45u8, 0x55, 0x4e, 0x4b]
        || c == seq![0x44u8, 0x4d, 0x4d, 0x56]
        || c == seq![0x44u8, 0x4d, 0x52, 0x4d]
        || c == seq![0x43u8, 0x49, 0x4e, 0x4e]
        || c == seq![0x43u8, 0x4f, 0x55, 0x54]
        || c == seq![0x43u8, 0x43, 0x4c, 0x50]
        || c == seq![0x44u8, 0x43, 0x4c, 0x50]
        || c == seq![0x44u8, 0x4d, 0x55, 0x50]
        || c == seq![0x44u8, 0x4d, 0x44, 0x4e]
        || c == seq![0x44u8, 0x4b, 0x55, 0x50]
        || c == seq![0x44u8, 0x4b, 0x44, 0x4e]
        || c == seq![0x44u8, 0x4b, 0x52, 0x50]
        || c == seq![0x44u8, 0x4d, 0x57, 0x4d]
}

/// A body whose code is none the client reads decodes to an unknown packet
/// that keeps the code, and leaves the clipboard transfer as it was.
#[verifier::rlimit(40)]
pub proof fn lemma_decode_unknown(body: Seq<u8>, stage: StageModel)
    requires
        body.len() >= 4,
        !is_known_code(body.take(4)),
    ensures
        spec_decode(body, stage) == (Ok::<PacketModel, PacketError>(PacketModel::Unknown(body.take(4))), stage),
{
    crate::wire::lemma_be_u32_arith(0, body, 0);
    let c = body.take(4);
    assert(c =~= seq![body[0], body[1], body[2], body[3]]);
}

/// A server packet body too short for its fields is refused with `IoError`,
/// the clipboard transfer left as it was: a pointer move, a relative move or
/// a wheel scroll needs 4 bytes after the code, a button 1, a key down or up
/// 6, a key repeat 8, a cursor entry 10, a clipboard grab 5.
pub proof fn lemma_decode_short_bodies(part: Seq<u8>, stage: StageModel)
    ensures
        part.len() < 4 ==> spec_decode(seq![0x44u8, 0x4d, 0x4d, 0x56] + part, stage) == (Err::<PacketModel, PacketError>(PacketError::IoError), stage),
        part.len() < 4 ==> spec_decode(seq![0x44u8, 0x4d, 0x52, 0x4d] + part, stage) == (Err::<PacketModel, PacketError>(PacketError::IoError), stage),
        part.len() < 4 ==> spec_decode(seq![0x44u8, 0x4d, 0x57, 0x4d] + part, stage) == (Err::<PacketModel, PacketError>(PacketError::IoError), stage),
        part.len() < 1 ==> spec_decode(seq![0x44u8, 0x4d, 0x44, 0x4e] + part, stage) == (Err::<PacketModel, PacketError>(PacketError::IoError), stage),
        part.len() < 1 ==> spec_decode(seq![0x44u8, 0x4d, 0x55, 0x50] + part, stage) == (Err::<PacketModel, PacketError>(PacketError::IoError), stage),
        part.len() < 6 ==> spec_decode(seq![0x44u8, 0x4b, 0x44, 0x4e] + part, stage) == (Err::<PacketModel, PacketError>(PacketError::IoError), stage),
        part.len() < 6 ==> spec_decode(seq![0x44u8, 0x4b, 0x55, 0x50] + part, stage) == (Err::<PacketModel, PacketError>(PacketError::IoError), stage),
        part.len() < 8 ==> spec_decode(seq![0x44u8, 0x4b, 0x52, 0x50] + part, stage) == (Err::<PacketModel, PacketError>(PacketError::IoError), stage),
        part.len() < 10 ==> spec_decode(seq![0x43u8, 0x49, 0x4e, 0x4e] + part, stage) == (Err::<PacketModel, PacketError>(PacketError::IoError), stage),
        part.len() < 5 ==> spec_decode(seq![0x43u8, 0x43, 0x4c, 0x50] + part, stage) == (Err::<PacketModel, PacketError>(PacketError::IoError), stage),
{
    lemma_code_at(seq![0x44u8, 0x4d, 0x4d, 0x56] + part, 0x44, 0x4d, 0x4d, 0x56);
    lemma_code_at(seq![0x44u8, 0x4d, 0x52, 0x4d] + part, 0x44, 0x4d, 0x52, 0x4d);
    lemma_code_at(seq![0x44u8, 0x4d, 0x57, 0x4d] + part, 0x44, 0x4d, 0x57, 0x4d);
    lemma_code_at(seq![0x44u8, 0x4d, 0x44, 0x4e] + part, 0x44, 0x4d, 0x44, 0x4e);
    lemma_code_at(seq![0x44u8, 0x4d, 0x55, 0x50] + part, 0x44, 0x4d, 0x55, 0x50);
    lemma_code_at(seq![0x44u8, 0x4b, 0x44, 0x4e] + part, 0x44, 0x4b, 0x44, 0x4e);
    lemma_code_at(seq![0x44u8, 0x4b, 0x55, 0x50] + part, 0x44, 0x4b, 0x55, 0x50);
    lemma_code_at(seq![0x44u8, 0x4b, 0x52, 0x50] + part, 0x44, 0x4b, 0x52, 0x50);
    lemma_code_at(seq![0x43u8, 0x49, 0x4e, 0x4e] + part, 0x43, 0x49, 0x4e, 0x4e);
    lemma_code_at(seq![0x43u8, 0x43, 0x4c, 0x50] + part, 0x43, 0x43, 0x4c, 0x50);
}

/// The bytes of each packet the client writes: the length of the rest
/// (4 for a bare code, 8 for an absolute move, 18 for screen info), the
/// four-letter code, then the fields, each 16 bits big endian; the screen
/// info writes 0 in its unused field.
pub proof fn lemma_wire_bytes(x: u16, y: u16, w: u16, h: u16, dummy: u16, mx: u16, my: u16)
    ensures
        PacketModel::QueryInfo.is_encodable() && PacketModel::InfoAck.is_encodable()
            && PacketModel::KeepAlive.is_encodable() && PacketModel::ClientNoOp.is_encodable()
            && PacketModel::ErrorUnknownDevice.is_encodable() && (PacketModel::MouseMoveAbs { x, y }).is_encodable()
            && (PacketModel::DeviceInfo { x, y, w, h, dummy, mx, my }).is_encodable(),
        PacketModel::QueryInfo.wire() == seq![0u8, 0, 0, 4, 0x51, 0x49, 0x4e, 0x46],
        PacketModel::InfoAck.wire() == seq![0u8, 0, 0, 4, 0x43, 0x49, 0x41, 0x4b],
        PacketModel::KeepAlive.wire() == seq![0u8, 0, 0, 4, 0x43, 0x41, 0x4c, 0x56],
        PacketModel::ClientNoOp.wire() == seq![0u8, 0, 0, 4, 0x43, 0x4e, 0x4f, 0x50],
        PacketModel::ErrorUnknownDevice.wire() == seq![0u8, 0, 0, 4, 0x45, 0x55, 0x4e, 0x4b],
        (PacketModel::MouseMoveAbs { x, y }).wire() == seq![0u8, 0, 0, 8, 0x44, 0x4d, 0x4d, 0x56]
            + be_u16_bytes(x) + be_u16_bytes(y),
        (PacketModel::DeviceInfo { x, y, w, h, dummy, mx, my }).wire() == seq![0u8, 0, 0, 18, 0x44, 0x49, 0x4e, 0x46]
            + be_u16_bytes(x) + be_u16_bytes(y) + be_u16_bytes(w) + be_u16_bytes(h) + seq![0u8, 0]
            + be_u16_bytes(mx) + be_u16_bytes(my),
{
    let z = seq![0u8, 0, 0, 0];
    crate::wire::lemma_be_u32_arith(4, z, 0);
    crate::wire::lemma_be_u32_arith(8, z, 0);
    crate::wire::lemma_be_u32_arith(18, z, 0);
    crate::wire::lemma_be_u32_arith(crate::packet::CODE_QINF, z, 0);
    crate::wire::lemma_be_u32_arith(crate::packet::CODE_CIAK, z, 0);
    crate::wire::lemma_be_u32_arith(crate::packet::CODE_CALV, z, 0);
    crate::wire::lemma_be_u32_arith(crate::packet::CODE_CNOP, z, 0);
    crate::wire::lemma_be_u32_arith(crate::packet::CODE_EUNK, z, 0);
    crate::wire::lemma_be_u32_arith(crate::packet::CODE_DMMV, z, 0);
    crate::wire::lemma_be_u32_arith(crate::packet::CODE_DINF, z, 0);
    crate::wire::lemma_be_u16_arith(0, z, 0);
    assert(PacketModel::QueryInfo.wire() =~= seq![0u8, 0, 0, 4, 0x51, 0x49, 0x4e, 0x46]);
    assert(PacketModel::InfoAck.wire() =~= seq![0u8, 0, 0, 4, 0x43, 0x49, 0x41, 0x4b]);
    assert(PacketModel::KeepAlive.wire() =~= seq![0u8, 0, 0, 4, 0x43, 0x41, 0x4c, 0x56]);
    assert(PacketModel::ClientNoOp.wire() =~= seq![0u8, 0, 0, 4, 0x43, 0x4e, 0x4f, 0x50]);
    assert(PacketModel::ErrorUnknownDevice.wire() =~= seq![0u8, 0, 0, 4, 0x45, 0x55, 0x4e, 0x4b]);
    assert((PacketModel::MouseMoveAbs { x, y }).wire() =~= seq![0u8, 0, 0, 8, 0x44, 0x4d, 0x4d, 0x56]
        + be_u16_bytes(x) + be_u16_bytes(y));
    assert((PacketModel::DeviceInfo { x, y, w, h, dummy, mx, my }).wire() =~= seq![0u8, 0, 0, 18, 0x44, 0x49, 0x4e, 0x46]
        + be_u16_bytes(x) + be_u16_bytes(y) + be_u16_bytes(w) + be_u16_bytes(h) + seq![0u8, 0]
        + be_u16_bytes(mx) + be_u16_bytes(my));
}

/// A protocol string is its byte length, four bytes most significant first,
/// then its bytes.
pub proof fn lemma_frame_str_bytes(s: Seq<u8>)
    requires
        s.len() <= u32::MAX,
    ensures
        crate::packet_stream::spec_frame_str(s) == crate::session::length_bytes(s.len() as int) + s,
{
    crate::wire::lemma_be_u32_arith(s.len() as u32, seq![0u8, 0, 0, 0], 0);
    assert(crate::packet_stream::spec_frame_str(s) =~= crate::session::length_bytes(s.len() as int) + s);
}

/// The options of a set-options body as the server writes them: each a
/// 4-byte name then a big-endian 32-bit value.
pub open spec fn options_bytes(items: Seq<(Seq<u8>, u32)>) -> Seq<u8>
    decreases items.len(),
{
    if items.len() == 0 {
        Seq::empty()
    } else {
        options_bytes(items.drop_last()) + items.last().0 + be_u32_bytes(items.last().1)
    }
}

proof fn lemma_options_bytes(items: Seq<(Seq<u8>, u32)>)
    requires
        forall|i: int| 0 <= i < items.len() ==> (#[trigger] items[i]).0.len() == 4,
    ensures
        options_bytes(items).len() == 8 * items.len(),
        forall|i: int| 0 <= i < items.len() ==> options_bytes(items).subrange(8 * i, 8 * i + 4) == (#[trigger] items[i]).0
            && options_bytes(items).subrange(8 * i + 4, 8 * i + 8) == be_u32_bytes(items[i].1),
    decreases items.len(),
{
    if items.len() > 0 {
        let d = items.drop_last();
        assert forall|i: int| 0 <= i < d.len() implies (#[trigger] d[i]).0.len() == 4 by {
            assert(d[i] == items[i]);
        }
        lemma_options_bytes(d);
        let head = options_bytes(d);
        let n = items.len() - 1;
        let bytes = options_bytes(items);
        assert forall|i: int| 0 <= i < items.len() implies bytes.subrange(8 * i, 8 * i + 4) == (#[trigger] items[i]).0
            && bytes.subrange(8 * i + 4, 8 * i + 8) == be_u32_bytes(items[i].1) by {
            if i < n {
                assert(d[i] == items[i]);
                assert(bytes.subrange(8 * i, 8 * i + 4) =~= head.subrange(8 * i, 8 * i + 4));
                assert(bytes.subrange(8 * i + 4, 8 * i + 8) =~= head.subrange(8 * i + 4, 8 * i + 8));
            } else {
                assert(bytes.subrange(8 * i, 8 * i + 4) =~= items.last().0);
                assert(bytes.subrange(8 * i + 4, 8 * i + 8) =~= be_u32_bytes(items.last().1));
            }
        }
    }
}

/// A set-options body ("DSOP", the item count, then options of a 4-byte
/// name and a value) decodes, whatever bytes follow, to the options the
/// items set in order, each name read as UTF-8 with ill-formed bytes
/// repaired; the count counts two items per option, and an odd last item is
/// dropped.
pub proof fn lemma_decode_options(items: Seq<(Seq<u8>, u32)>, count: u32, rest: Seq<u8>, stage: StageModel)
    requires
        forall|i: int| 0 <= i < items.len() ==> (#[trigger] items[i]).0.len() == 4,
        count / 2 == items.len(),
    ensures
        spec_decode(seq![0x44u8, 0x53, 0x4f, 0x50] + be_u32_bytes(count) + options_bytes(items) + rest, stage) == (
            Ok::<PacketModel, PacketError>(PacketModel::SetDeviceOptions(
                collect_options(Seq::new(items.len(), |i: int| (utf8_lossy(items[i].0), items[i].1))),
            )),
            stage,
        ),
{
    let body = seq![0x44u8, 0x53, 0x4f, 0x50] + be_u32_bytes(count) + options_bytes(items) + rest;
    lemma_options_bytes(items);
    lemma_code_at(body, 0x44, 0x53, 0x4f, 0x50);
    assert(body.subrange(4, 8) =~= be_u32_bytes(count));
    lemma_at32(body, 4, count);
    let ob = options_bytes(items);
    let raw = Seq::new(items.len(), |i: int| (utf8_lossy(items[i].0), items[i].1));
    let got = Seq::new(items.len(), |i: int| crate::packet_stream::option_at(body, 8 + i * 8));
    assert forall|i: int| 0 <= i < items.len() implies #[trigger] got[i] == raw[i] by {
        let p = 8 + i * 8;
        assert(body.subrange(p, p + 4) =~= ob.subrange(8 * i, 8 * i + 4));
        assert(body.subrange(p + 4, p + 8) =~= ob.subrange(8 * i + 4, 8 * i + 8));
        lemma_at32(body, p + 4, items[i].1);
    }
    assert(got =~= raw);
}

} // verus!
