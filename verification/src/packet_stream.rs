//! Reading packets: the body of each packet (the bytes its length prefix
//! counts) is decoded into a [`Packet`], tracking clipboard transfers.
use vstd::prelude::*;
use vstd::string::StringSliceAdditionalSpecFns;

use crate::clipboard::{
    lossy_string, utf8_lossy, clipboard_step, parse_clipboard, spec_clipboard_step, spec_parse_clipboard, ClipboardStage,
    StageModel,
};
use crate::error::PacketError;
use crate::options::{collect_options, has_name, lemma_set_option, names_distinct, set_option};
use crate::packet::{
    options_view, DeviceOption, Packet, PacketModel, CODE_CALV, CODE_CCLP, CODE_CIAK, CODE_CINN,
    CODE_COUT, CODE_CROP, CODE_DCLP, CODE_DKDN, CODE_DKRP, CODE_DKUP, CODE_DMDN, CODE_DMMV,
    CODE_DMRM, CODE_DMUP, CODE_DMWM, CODE_DSOP, CODE_EUNK, CODE_QINF,
};
use crate::wire::{be_u16_at, be_u32_at, be_u32_bytes, push_bytes, push_u32, read_u16, read_u32};

verus! {

/// A packet read, or the error that stopped the read.
pub open spec fn result_view(r: Result<Packet, PacketError>) -> Result<PacketModel, PacketError> {
    match r {
        Ok(p) => Ok(p@),
        Err(e) => Err(e),
    }
}

/// `p` when the body holds at least `need` bytes, else `IoError`.
pub open spec fn fixed_packet(body: Seq<u8>, need: int, p: PacketModel) -> Result<
    PacketModel,
    PacketError,
> {
    if body.len() < need {
        Err(PacketError::IoError)
    } else {
        Ok(p)
    }
}

/// The option at byte `pos` of a set-options body: 4 name bytes (read as
/// UTF-8, ill-formed bytes repaired), then the value.
pub open spec fn option_at(body: Seq<u8>, pos: int) -> (Seq<char>, u32) {
    (utf8_lossy(body.subrange(pos, pos + 4)), be_u32_at(body, pos + 4))
}

/// A set-options body: after the code, the number of items (two per
/// option), then the options, which set a map from name to value: a later
/// option of a name overrides an earlier one.
pub open spec fn spec_decode_options(body: Seq<u8>) -> Result<PacketModel, PacketError> {
    if body.len() < 8 {
        Err(PacketError::IoError)
    } else {
        let n = (be_u32_at(body, 4) / 2) as int;
        if body.len() < 8 + n * 8 {
            Err(PacketError::IoError)
        } else {
            Ok(
                PacketModel::SetDeviceOptions(
                    collect_options(Seq::new(n as nat, |i: int| option_at(body, 8 + i * 8))),
                ),
            )
        }
    }
}

/// Decoding of every packet but clipboard data. The fields follow the code
/// in order, big endian; a body too short for its fields is an `IoError`;
/// bytes after the fields are ignored; an unknown code is kept as it is.
pub open spec fn spec_decode_stateless(body: Seq<u8>) -> Result<PacketModel, PacketError> {
    let c = be_u32_at(body, 0);
    if c == CODE_QINF {
        Ok(PacketModel::QueryInfo)
    } else if c == CODE_CIAK {
        Ok(PacketModel::InfoAck)
    } else if c == CODE_CALV {
        Ok(PacketModel::KeepAlive)
    } else if c == CODE_CROP {
        Ok(PacketModel::ResetOptions)
    } else if c == CODE_DSOP {
        spec_decode_options(body)
    } else if c == CODE_EUNK {
        Ok(PacketModel::ErrorUnknownDevice)
    } else if c == CODE_DMMV {
        fixed_packet(body, 8, PacketModel::MouseMoveAbs { x: be_u16_at(body, 4), y: be_u16_at(body, 6) })
    } else if c == CODE_DMRM {
        fixed_packet(
            body,
            8,
            PacketModel::MouseMove { x: be_u16_at(body, 4) as i16, y: be_u16_at(body, 6) as i16 },
        )
    } else if c == CODE_CINN {
        fixed_packet(
            body,
            14,
            PacketModel::CursorEnter {
                x: be_u16_at(body, 4),
                y: be_u16_at(body, 6),
                seq_num: be_u32_at(body, 8),
                mask: be_u16_at(body, 12),
            },
        )
    } else if c == CODE_COUT {
        Ok(PacketModel::CursorLeave)
    } else if c == CODE_CCLP {
        fixed_packet(body, 9, PacketModel::GrabClipboard { id: body[4], seq_num: be_u32_at(body, 5) })
    } else if c == CODE_DMUP {
        fixed_packet(body, 5, PacketModel::MouseUp { id: body[4] as i8 })
    } else if c == CODE_DMDN {
        fixed_packet(body, 5, PacketModel::MouseDown { id: body[4] as i8 })
    } else if c == CODE_DKUP {
        fixed_packet(
            body,
            10,
            PacketModel::KeyUp {
                id: be_u16_at(body, 4),
                mask: be_u16_at(body, 6),
                button: be_u16_at(body, 8),
            },
        )
    } else if c == CODE_DKDN {
        fixed_packet(
            body,
            10,
            PacketModel::KeyDown {
                id: be_u16_at(body, 4),
                mask: be_u16_at(body, 6),
                button: be_u16_at(body, 8),
            },
        )
    } else if c == CODE_DKRP {
        fixed_packet(
            body,
            12,
            PacketModel::KeyRepeat {
                id: be_u16_at(body, 4),
                mask: be_u16_at(body, 6),
                count: be_u16_at(body, 8),
                button: be_u16_at(body, 10),
            },
        )
    } else if c == CODE_DMWM {
        fixed_packet(
            body,
            8,
            PacketModel::MouseWheel {
                x_delta: be_u16_at(body, 4) as i16,
                y_delta: be_u16_at(body, 6) as i16,
            },
        )
    } else {
        Ok(PacketModel::Unknown(body.take(4)))
    }
}

/// Decoding of a clipboard data chunk: clipboard id, sequence number and
/// mark follow the code, the rest of the body is the chunk's payload. The
/// transfer advances (see [`spec_clipboard_step`]); when it reaches mark 3
/// the gathered data is parsed (see [`spec_parse_clipboard`]) into a
/// set-clipboard packet, otherwise the chunk reads as a no-op. The stage
/// stays as it was when the chunk itself is refused.
pub open spec fn spec_decode_clipboard(body: Seq<u8>, stage: StageModel) -> (
    Result<PacketModel, PacketError>,
    StageModel,
) {
    if body.len() < 10 {
        (Err(PacketError::IoError), stage)
    } else {
        let seq_num = be_u32_at(body, 5);
        match spec_clipboard_step(stage, body[4], body[9], body.skip(10)) {
            Err(e) => (Err(e), stage),
            Ok(next) => match next {
                StageModel::Mark3 { id, data } => (
                    match spec_parse_clipboard(data) {
                        Ok(c) => Ok(PacketModel::SetClipboard { id, seq_num, data: c }),
                        Err(e) => Err(e),
                    },
                    next,
                ),
                _ => (Ok(PacketModel::ClientNoOp), next),
            },
        }
    }
}

/// The packet a body decodes to, and the clipboard stage after it.
pub open spec fn spec_decode(body: Seq<u8>, stage: StageModel) -> (
    Result<PacketModel, PacketError>,
    StageModel,
) {
    if be_u32_at(body, 0) == CODE_DCLP {
        spec_decode_clipboard(body, stage)
    } else {
        (spec_decode_stateless(body), stage)
    }
}

/// Sets `opt` in `opts`: an option of the same name takes the new value in
/// place, a new name is added at the end.
fn set_option_in(opts: &mut Vec<DeviceOption>, opt: DeviceOption)
    requires
        names_distinct(options_view(old(opts)@)),
    ensures
        options_view(final(opts)@) == set_option(options_view(old(opts)@), (opt.name@, opt.value)),
{
    let ghost entry = (opt.name@, opt.value);
    let ghost before = options_view(opts@);
    let mut k: usize = 0;
    while k < opts.len()
        invariant
            k <= opts@.len(),
            opts@ == old(opts)@,
            before == options_view(opts@),
            names_distinct(before),
            entry == (opt.name@, opt.value),
            forall|j: int| 0 <= j < k ==> #[trigger] before[j].0 != entry.0,
        decreases opts@.len() - k,
    {
        assert(before[k as int] == (opts@[k as int].name@, opts@[k as int].value));
        let same = opts[k].name.eq(&opt.name);
        if same {
            assert(before[k as int].0 == entry.0);
            assert(has_name(before, entry.0));
            let ghost c = choose|j: int| 0 <= j < before.len() && #[trigger] before[j].0 == entry.0;
            assert(c == k) by {
                if c != k {
                    if c < k {
                        assert(before[c].0 != before[k as int].0);
                    } else {
                        assert(before[k as int].0 != before[c].0);
                    }
                }
            }
            opts.set(k, opt);
            assert(options_view(opts@) =~= before.update(k as int, entry));
            return;
        }
        k = k + 1;
    }
    assert(!has_name(before, entry.0));
    opts.push(opt);
    assert(options_view(opts@) =~= before.push(entry));
}

fn decode_options(body: &[u8]) -> (r: Result<Packet, PacketError>)
    ensures
        result_view(r) == spec_decode_options(body@),
{
    let items = read_u32(body, 4)?;
    let n = (items / 2) as usize;
    if (body.len() - 8) / 8 < n {
        assert(body@.len() < 8 + n * 8) by (nonlinear_arith)
            requires
                (body@.len() - 8) / 8 < n,
                body@.len() >= 8,
        ;
        return Err(PacketError::IoError);
    }
    assert(body@.len() >= 8 + n * 8) by (nonlinear_arith)
        requires
            (body@.len() - 8) / 8 >= n,
            body@.len() >= 8,
    ;
    let ghost spec_opts = Seq::new(n as nat, |i: int| option_at(body@, 8 + i * 8));
    let mut opts: Vec<DeviceOption> = Vec::new();
    let blen = body.len();
    let mut i: usize = 0;
    while i < n
        invariant
            i <= n,
            blen == body@.len(),
            n == (be_u32_at(body@, 4) / 2) as int,
            body@.len() >= 8 + n * 8,
            spec_opts == Seq::new(n as nat, |i: int| option_at(body@, 8 + i * 8)),
            options_view(opts@) == collect_options(spec_opts.take(i as int)),
            names_distinct(options_view(opts@)),
        decreases n - i,
    {
        assert(8 + i * 8 + 8 <= body@.len()) by (nonlinear_arith)
            requires
                i < n,
                body@.len() >= 8 + n * 8,
        ;
        let pos = 8 + i * 8;
        let raw = vstd::slice::slice_subrange(body, pos, pos + 4);
        let name = lossy_string(raw);
        let value = read_u32(body, pos + 4)?;
        let opt = DeviceOption { name, value };
        let ghost entry = (opt.name@, opt.value);
        let ghost before = options_view(opts@);
        assert(spec_opts[i as int] == entry);
        assert(spec_opts.take(i + 1).drop_last() =~= spec_opts.take(i as int));
        proof {
            lemma_set_option(before, entry);
        }
        set_option_in(&mut opts, opt);
        i = i + 1;
    }
    assert(spec_opts.take(n as int) =~= spec_opts);
    Ok(Packet::SetDeviceOptions(opts))
}

fn decode_stateless(body: &[u8]) -> (r: Result<Packet, PacketError>)
    requires
        body@.len() >= 4,
    ensures
        result_view(r) == spec_decode_stateless(body@),
{
    let c = read_u32(body, 0)?;
    if c == CODE_QINF {
        Ok(Packet::QueryInfo)
    } else if c == CODE_CIAK {
        Ok(Packet::InfoAck)
    } else if c == CODE_CALV {
        Ok(Packet::KeepAlive)
    } else if c == CODE_CROP {
        Ok(Packet::ResetOptions)
    } else if c == CODE_DSOP {
        if body.len() < 8 {
            return Err(PacketError::IoError);
        }
        decode_options(body)
    } else if c == CODE_EUNK {
        Ok(Packet::ErrorUnknownDevice)
    } else if c == CODE_DMMV {
        let x = read_u16(body, 4)?;
        let y = read_u16(body, 6)?;
        Ok(Packet::MouseMoveAbs { x, y })
    } else if c == CODE_DMRM {
        let x = read_u16(body, 4)?;
        let y = read_u16(body, 6)?;
        Ok(Packet::MouseMove { x: x as i16, y: y as i16 })
    } else if c == CODE_CINN {
        if body.len() < 14 {
            return Err(PacketError::IoError);
        }
        let x = read_u16(body, 4)?;
        let y = read_u16(body, 6)?;
        let seq_num = read_u32(body, 8)?;
        let mask = read_u16(body, 12)?;
        Ok(Packet::CursorEnter { x, y, seq_num, mask })
    } else if c == CODE_COUT {
        Ok(Packet::CursorLeave)
    } else if c == CODE_CCLP {
        if body.len() < 9 {
            return Err(PacketError::IoError);
        }
        let id = body[4];
        let seq_num = read_u32(body, 5)?;
        Ok(Packet::GrabClipboard { id, seq_num })
    } else if c == CODE_DMUP {
        if body.len() < 5 {
            return Err(PacketError::IoError);
        }
        Ok(Packet::MouseUp { id: body[4] as i8 })
    } else if c == CODE_DMDN {
        if body.len() < 5 {
            return Err(PacketError::IoError);
        }
        Ok(Packet::MouseDown { id: body[4] as i8 })
    } else if c == CODE_DKUP || c == CODE_DKDN {
        if body.len() < 10 {
            return Err(PacketError::IoError);
        }
        let id = read_u16(body, 4)?;
        let mask = read_u16(body, 6)?;
        let button = read_u16(body, 8)?;
        if c == CODE_DKUP {
            Ok(Packet::KeyUp { id, mask, button })
        } else {
            Ok(Packet::KeyDown { id, mask, button })
        }
    } else if c == CODE_DKRP {
        if body.len() < 12 {
            return Err(PacketError::IoError);
        }
        let id = read_u16(body, 4)?;
        let mask = read_u16(body, 6)?;
        let count = read_u16(body, 8)?;
        let button = read_u16(body, 10)?;
        Ok(Packet::KeyRepeat { id, mask, button, count })
    } else if c == CODE_DMWM {
        if body.len() < 8 {
            return Err(PacketError::IoError);
        }
        let x_delta = read_u16(body, 4)?;
        let y_delta = read_u16(body, 6)?;
        Ok(Packet::MouseWheel { x_delta: x_delta as i16, y_delta: y_delta as i16 })
    } else {
        let code = [body[0], body[1], body[2], body[3]];
        assert(code@ =~= body@.take(4));
        Ok(Packet::Unknown(code))
    }
}

fn decode_clipboard(body: &[u8], stage: &mut ClipboardStage) -> (r: Result<Packet, PacketError>)
    ensures
        result_view(r) == spec_decode_clipboard(body@, old(stage)@).0,
        final(stage)@ == spec_decode_clipboard(body@, old(stage)@).1,
{
    if body.len() < 10 {
        return Err(PacketError::IoError);
    }
    let id = body[4];
    let seq_num = read_u32(body, 5)?;
    let mark = body[9];
    let payload = vstd::slice::slice_subrange(body, 10, body.len());
    assert(payload@ =~= body@.skip(10));
    clipboard_step(stage, id, mark, payload)?;
    match stage {
        ClipboardStage::Mark3 { id: cid, data } => {
            let parsed = parse_clipboard(data.as_slice())?;
            Ok(Packet::SetClipboard { id: *cid, seq_num, data: parsed })
        },
        _ => Ok(Packet::ClientNoOp),
    }
}

/// Decodes the body of a packet (everything its length prefix counts,
/// starting with the 4-byte code), advancing the clipboard transfer.
pub fn decode_packet(body: &[u8], stage: &mut ClipboardStage) -> (r: Result<Packet, PacketError>)
    requires
        body@.len() >= 4,
    ensures
        result_view(r) == spec_decode(body@, old(stage)@).0,
        final(stage)@ == spec_decode(body@, old(stage)@).1,
{
    let c = read_u32(body, 0)?;
    if c == CODE_DCLP {
        decode_clipboard(body, stage)
    } else {
        decode_stateless(body)
    }
}

/// The body length a packet's length prefix announces, or `PacketTooSmall`
/// when it cannot hold a code.
pub fn check_packet_size(size: u32) -> (r: Result<usize, PacketError>)
    ensures
        size < 4 ==> r == Err::<usize, PacketError>(PacketError::PacketTooSmall),
        size >= 4 ==> r == Ok::<usize, PacketError>(size as usize),
{
    if size < 4 {
        Err(PacketError::PacketTooSmall)
    } else {
        Ok(size as usize)
    }
}

/// A string as the protocol writes it: its byte length as a 32-bit
/// big-endian integer (truncated to 32 bits), then its UTF-8 bytes.
pub open spec fn spec_frame_str(s: Seq<u8>) -> Seq<u8> {
    be_u32_bytes(s.len() as u32) + s
}

/// The bytes of a string as the protocol writes it.
pub fn frame_str(data: &str) -> (r: Vec<u8>)
    ensures
        r@ == spec_frame_str(data.spec_bytes()),
{
    let bytes = data.as_bytes();
    let mut out: Vec<u8> = Vec::new();
    push_u32(&mut out, bytes.len() as u32);
    push_bytes(&mut out, bytes);
    out
}

/// A connection to the server, over which packets are read and written.
pub struct PacketStream<S> {
    pub stream: S,
}

impl<S> PacketStream<S> {
    /// Wraps a connection.
    pub fn new(stream: S) -> (r: PacketStream<S>)
        ensures
            r.stream == stream,
    {
        PacketStream { stream }
    }
}

} // verus!
