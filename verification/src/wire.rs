//! Big-endian integers as the protocol writes them.
use vstd::prelude::*;

use crate::error::PacketError;

verus! {

/// The 16-bit big-endian integer at `s[i]`, `s[i + 1]`.
pub open spec fn be_u16_at(s: Seq<u8>, i: int) -> u16 {
    ((s[i] as u16) << 8u16) | (s[i + 1] as u16)
}

/// The 32-bit big-endian integer at `s[i]` .. `s[i + 3]`.
pub open spec fn be_u32_at(s: Seq<u8>, i: int) -> u32 {
    ((s[i] as u32) << 24u32) | ((s[i + 1] as u32) << 16u32) | ((s[i + 2] as u32) << 8u32) | (
    s[i + 3] as u32)
}

/// The big-endian bytes of a 16-bit integer.
pub open spec fn be_u16_bytes(v: u16) -> Seq<u8> {
    seq![(v >> 8u16) as u8, (v & 0xffu16) as u8]
}

/// The big-endian bytes of a 32-bit integer.
pub open spec fn be_u32_bytes(v: u32) -> Seq<u8> {
    seq![
        (v >> 24u32) as u8,
        ((v >> 16u32) & 0xffu32) as u8,
        ((v >> 8u32) & 0xffu32) as u8,
        (v & 0xffu32) as u8
    ]
}

/// Reading back the bytes of a 16-bit integer gives the integer.
pub proof fn lemma_be_u16_roundtrip(v: u16)
    ensures
        be_u16_bytes(v).len() == 2,
        be_u16_at(be_u16_bytes(v), 0) == v,
{
    let b0 = (v >> 8u16) as u8;
    let b1 = (v & 0xffu16) as u8;
    assert(((b0 as u16) << 8u16) | (b1 as u16) == v) by (bit_vector)
        requires
            b0 == (v >> 8u16) as u8,
            b1 == (v & 0xffu16) as u8,
    ;
}

/// Reading back the bytes of a 32-bit integer gives the integer.
pub proof fn lemma_be_u32_roundtrip(v: u32)
    ensures
        be_u32_bytes(v).len() == 4,
        be_u32_at(be_u32_bytes(v), 0) == v,
{
    let b0 = (v >> 24u32) as u8;
    let b1 = ((v >> 16u32) & 0xffu32) as u8;
    let b2 = ((v >> 8u32) & 0xffu32) as u8;
    let b3 = (v & 0xffu32) as u8;
    assert(((b0 as u32) << 24u32) | ((b1 as u32) << 16u32) | ((b2 as u32) << 8u32) | (b3 as u32)
        == v) by (bit_vector)
        requires
            b0 == (v >> 24u32) as u8,
            b1 == ((v >> 16u32) & 0xffu32) as u8,
            b2 == ((v >> 8u32) & 0xffu32) as u8,
            b3 == (v & 0xffu32) as u8,
    ;
}

/// Big endian, stated by arithmetic: the high byte first. A 16-bit integer
/// is written as `v / 256`, `v % 256`, and the two bytes `a`, `b` read as
/// `a * 256 + b`.
pub proof fn lemma_be_u16_arith(v: u16, s: Seq<u8>, i: int)
    requires
        0 <= i,
        i + 2 <= s.len(),
    ensures
        be_u16_bytes(v) == seq![(v / 256) as u8, (v % 256) as u8],
        be_u16_at(s, i) == s[i] * 256 + s[i + 1],
{
    assert((v >> 8u16) as u8 == (v / 256) as u8 && (v & 0xffu16) as u8 == (v % 256) as u8) by (bit_vector);
    let a = s[i];
    let b = s[i + 1];
    assert(((a as u16) << 8u16) | (b as u16) == a * 256 + b) by (bit_vector);
    assert(be_u16_bytes(v) =~= seq![(v / 256) as u8, (v % 256) as u8]);
}

/// Big endian, stated by arithmetic, for 32-bit integers: the bytes of `v`
/// are its base-256 digits, most significant first, and four bytes read as
/// the number they are the digits of.
pub proof fn lemma_be_u32_arith(v: u32, s: Seq<u8>, i: int)
    requires
        0 <= i,
        i + 4 <= s.len(),
    ensures
        be_u32_bytes(v) == seq![
            (v / 0x100_0000) as u8,
            ((v / 0x1_0000) % 256) as u8,
            ((v / 256) % 256) as u8,
            (v % 256) as u8
        ],
        be_u32_at(s, i) == s[i] * 0x100_0000 + s[i + 1] * 0x1_0000 + s[i + 2] * 256 + s[i + 3],
{
    assert((v >> 24u32) as u8 == (v / 0x100_0000) as u8
        && ((v >> 16u32) & 0xffu32) as u8 == ((v / 0x1_0000) % 256) as u8
        && ((v >> 8u32) & 0xffu32) as u8 == ((v / 256) % 256) as u8
        && (v & 0xffu32) as u8 == (v % 256) as u8) by (bit_vector);
    let a = s[i];
    let b = s[i + 1];
    let c = s[i + 2];
    let d = s[i + 3];
    assert(((a as u32) << 24u32) | ((b as u32) << 16u32) | ((c as u32) << 8u32) | (d as u32)
        == a * 0x100_0000 + b * 0x1_0000 + c * 256 + d) by (bit_vector);
    assert(be_u32_bytes(v) =~= seq![
        (v / 0x100_0000) as u8,
        ((v / 0x1_0000) % 256) as u8,
        ((v / 256) % 256) as u8,
        (v % 256) as u8
    ]);
}

/// The byte at `pos`, or `IoError` past the end.
pub fn read_u8(buf: &[u8], pos: usize) -> (r: Result<u8, PacketError>)
    ensures
        pos < buf@.len() ==> r == Ok::<u8, PacketError>(buf@[pos as int]),
        pos >= buf@.len() ==> r == Err::<u8, PacketError>(PacketError::IoError),
{
    if pos < buf.len() {
        Ok(buf[pos])
    } else {
        Err(PacketError::IoError)
    }
}

/// The 16-bit big-endian integer at `pos`, or `IoError` past the end.
pub fn read_u16(buf: &[u8], pos: usize) -> (r: Result<u16, PacketError>)
    ensures
        pos + 2 <= buf@.len() ==> r == Ok::<u16, PacketError>(be_u16_at(buf@, pos as int)),
        pos + 2 > buf@.len() ==> r == Err::<u16, PacketError>(PacketError::IoError),
{
    if buf.len() < 2 || pos > buf.len() - 2 {
        Err(PacketError::IoError)
    } else {
        Ok(((buf[pos] as u16) << 8u16) | (buf[pos + 1] as u16))
    }
}

/// The 32-bit big-endian integer at `pos`, or `IoError` past the end.
pub fn read_u32(buf: &[u8], pos: usize) -> (r: Result<u32, PacketError>)
    ensures
        pos + 4 <= buf@.len() ==> r == Ok::<u32, PacketError>(be_u32_at(buf@, pos as int)),
        pos + 4 > buf@.len() ==> r == Err::<u32, PacketError>(PacketError::IoError),
{
    if buf.len() < 4 || pos > buf.len() - 4 {
        Err(PacketError::IoError)
    } else {
        Ok(((buf[pos] as u32) << 24u32) | ((buf[pos + 1] as u32) << 16u32) | ((buf[pos + 2] as u32)
            << 8u32) | (buf[pos + 3] as u32))
    }
}

/// Appends the big-endian bytes of `v`.
pub fn push_u16(out: &mut Vec<u8>, v: u16)
    ensures
        final(out)@ == old(out)@ + be_u16_bytes(v),
{
    out.push((v >> 8u16) as u8);
    out.push((v & 0xffu16) as u8);
    assert(out@ =~= old(out)@ + be_u16_bytes(v));
}

/// Appends the big-endian bytes of `v`.
pub fn push_u32(out: &mut Vec<u8>, v: u32)
    ensures
        final(out)@ == old(out)@ + be_u32_bytes(v),
{
    out.push((v >> 24u32) as u8);
    out.push(((v >> 16u32) & 0xffu32) as u8);
    out.push(((v >> 8u32) & 0xffu32) as u8);
    out.push((v & 0xffu32) as u8);
    assert(out@ =~= old(out)@ + be_u32_bytes(v));
}

/// Appends all of `bytes`.
pub fn push_bytes(out: &mut Vec<u8>, bytes: &[u8])
    ensures
        final(out)@ == old(out)@ + bytes@,
{
    let ghost start = out@;
    let n = bytes.len();
    let mut i: usize = 0;
    while i < n
        invariant
            i <= n,
            n == bytes@.len(),
            start == old(out)@,
            out@ == start + bytes@.take(i as int),
        decreases n - i,
    {
        out.push(bytes[i]);
        assert(bytes@.take(i + 1) =~= bytes@.take(i as int).push(bytes@[i as int]));
        i = i + 1;
    }
    assert(bytes@.take(n as int) =~= bytes@);
}

} // verus!
