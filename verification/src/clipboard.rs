//! Clipboard contents and the staged transfer of clipboard data.
use vstd::prelude::*;
use vstd::utf8::{decode_utf8, encode_utf8, valid_utf8};

use crate::error::PacketError;
use crate::wire::{be_u32_at, be_u32_bytes, push_bytes, read_u32};

verus! {

/// `String::from_utf8_lossy` of the bytes: their characters, with every
/// ill-formed sequence replaced by U+FFFD.
pub uninterp spec fn utf8_lossy(bytes: Seq<u8>) -> Seq<char>;

/// Calls `String::from_utf8_lossy` and takes the result as an owned string.
/// Trusted: the result is the named `utf8_lossy` of the bytes, and it is
/// their decoding when they are valid UTF-8 (the std documentation: valid
/// input comes back unchanged). How ill-formed input is repaired is left to
/// the name.
#[verifier::external_body]
pub(crate) fn lossy_string(bytes: &[u8]) -> (s: String)
    ensures
        s@ == utf8_lossy(bytes@),
        valid_utf8(bytes@) ==> s@ == decode_utf8(bytes@),
{
    String::from_utf8_lossy(bytes).into_owned()
}

/// The three formats a clipboard can hold.
pub struct ClipboardContents {
    pub text: Seq<u8>,
    pub html: Seq<u8>,
    pub bitmap: Seq<u8>,
}

impl ClipboardContents {
    /// A clipboard with nothing in it.
    pub open spec fn empty() -> ClipboardContents {
        ClipboardContents { text: Seq::empty(), html: Seq::empty(), bitmap: Seq::empty() }
    }

    /// `chunk` appended to the format numbered `format` (0 text, 1 HTML,
    /// 2 bitmap).
    pub open spec fn append(self, format: u32, chunk: Seq<u8>) -> ClipboardContents {
        if format == 0 {
            ClipboardContents { text: self.text + chunk, html: self.html, bitmap: self.bitmap }
        } else if format == 1 {
            ClipboardContents { text: self.text, html: self.html + chunk, bitmap: self.bitmap }
        } else {
            ClipboardContents { text: self.text, html: self.html, bitmap: self.bitmap + chunk }
        }
    }

    /// True when no format holds anything.
    pub open spec fn is_empty(self) -> bool {
        self.text.len() == 0 && self.html.len() == 0 && self.bitmap.len() == 0
    }
}

/// Clipboard contents in three formats, each as raw bytes.
#[derive(Debug)]
pub struct ClipboardData {
    text: Vec<u8>,
    html: Vec<u8>,
    bitmap: Vec<u8>,
}

impl View for ClipboardData {
    type V = ClipboardContents;

    closed spec fn view(&self) -> ClipboardContents {
        ClipboardContents { text: self.text@, html: self.html@, bitmap: self.bitmap@ }
    }
}

impl Default for ClipboardData {
    fn default() -> (r: ClipboardData)
        ensures
            r@ == ClipboardContents::empty(),
    {
        let r = ClipboardData { text: Vec::new(), html: Vec::new(), bitmap: Vec::new() };
        assert(r@.text =~= Seq::<u8>::empty());
        r
    }
}

impl ClipboardData {
    /// Clipboard data holding the given bytes of each format.
    pub fn new(text: Vec<u8>, html: Vec<u8>, bitmap: Vec<u8>) -> (r: ClipboardData)
        ensures
            r@ == (ClipboardContents { text: text@, html: html@, bitmap: bitmap@ }),
    {
        ClipboardData { text, html, bitmap }
    }

    /// Clipboard data holding `text` (as UTF-8) and nothing else.
    pub fn from_text(text: String) -> (r: ClipboardData)
        ensures
            r@ == (ClipboardContents {
                text: encode_utf8(text@),
                html: Seq::empty(),
                bitmap: Seq::empty(),
            }),
    {
        let mut bytes: Vec<u8> = Vec::new();
        push_bytes(&mut bytes, text.as_str().as_bytes());
        let r = ClipboardData { text: bytes, html: Vec::new(), bitmap: Vec::new() };
        assert(r@.text =~= encode_utf8(text@));
        r
    }

    /// The raw bytes of the text format.
    pub fn raw_text(&self) -> (r: &[u8])
        ensures
            r@ == self@.text,
    {
        self.text.as_slice()
    }

    /// The raw bytes of the HTML format.
    pub fn raw_html(&self) -> (r: &[u8])
        ensures
            r@ == self@.html,
    {
        self.html.as_slice()
    }

    /// The text format as a string (ill-formed UTF-8 repaired), or `None`
    /// when there is no text.
    pub fn text(&self) -> (r: Option<String>)
        ensures
            r is None <==> self@.text.len() == 0,
            r matches Some(s) ==> s@ == utf8_lossy(self@.text),
            r matches Some(s) ==> valid_utf8(self@.text) ==> s@ == decode_utf8(self@.text),
    {
        if self.text.len() == 0 {
            None
        } else {
            Some(lossy_string(self.text.as_slice()))
        }
    }

    /// The HTML format as a string (ill-formed UTF-8 repaired), or `None`
    /// when there is no HTML.
    pub fn html(&self) -> (r: Option<String>)
        ensures
            r is None <==> self@.html.len() == 0,
            r matches Some(s) ==> s@ == utf8_lossy(self@.html),
            r matches Some(s) ==> valid_utf8(self@.html) ==> s@ == decode_utf8(self@.html),
    {
        if self.html.len() == 0 {
            None
        } else {
            Some(lossy_string(self.html.as_slice()))
        }
    }

    /// The bitmap format, or `None` when there is no bitmap.
    pub fn bitmap(&self) -> (r: Option<&[u8]>)
        ensures
            r is None <==> self@.bitmap.len() == 0,
            r matches Some(b) ==> b@ == self@.bitmap,
    {
        if self.bitmap.len() == 0 {
            None
        } else {
            Some(self.bitmap.as_slice())
        }
    }

    /// True when no format holds anything.
    pub fn is_empty(&self) -> (r: bool)
        ensures
            r == self@.is_empty(),
    {
        self.text.len() == 0 && self.html.len() == 0 && self.bitmap.len() == 0
    }
}

/// Parsing a clipboard transfer: after the 4-byte total size and the 4-byte
/// count, `count` entries of a 4-byte format and a 4-byte length, each
/// followed by up to `length` bytes (fewer where the buffer ends). Bytes of a
/// format that appears twice are appended. A format other than 0, 1, 2 is a
/// `FormatError`; a header cut short is an `IoError`.
pub open spec fn spec_clipboard_entries(
    buf: Seq<u8>,
    pos: int,
    count: nat,
    acc: ClipboardContents,
) -> Result<ClipboardContents, PacketError>
    decreases count,
{
    if count == 0 {
        Ok(acc)
    } else if pos + 8 > buf.len() {
        Err(PacketError::IoError)
    } else {
        let format = be_u32_at(buf, pos);
        let length = be_u32_at(buf, pos + 4);
        if format > 2 {
            Err(PacketError::FormatError)
        } else {
            let start = pos + 8;
            let end = if start + length <= buf.len() { start + length } else { buf.len() as int };
            spec_clipboard_entries(buf, end, (count - 1) as nat, acc.append(format, buf.subrange(start, end)))
        }
    }
}

/// The clipboard contents a transfer buffer holds; see
/// [`spec_clipboard_entries`].
pub open spec fn spec_parse_clipboard(buf: Seq<u8>) -> Result<ClipboardContents, PacketError> {
    if buf.len() < 8 {
        Err(PacketError::IoError)
    } else {
        spec_clipboard_entries(buf, 8, be_u32_at(buf, 4) as nat, ClipboardContents::empty())
    }
}

/// Parses a clipboard transfer buffer.
pub fn parse_clipboard(buf: &[u8]) -> (r: Result<ClipboardData, PacketError>)
    ensures
        match spec_parse_clipboard(buf@) {
            Ok(c) => r matches Ok(d) && d@ == c,
            Err(e) => r == Err::<ClipboardData, PacketError>(e),
        },
{
    let _size = read_u32(buf, 0)?;
    let count = read_u32(buf, 4)?;
    let mut ret = ClipboardData::default();
    let mut pos: usize = 8;
    let mut left: u32 = count;
    while left > 0
        invariant
            8 <= pos <= buf@.len(),
            spec_parse_clipboard(buf@) == spec_clipboard_entries(buf@, pos as int, left as nat, ret@),
        decreases left,
    {
        if buf.len() - pos < 8 {
            return Err(PacketError::IoError);
        }
        let format = read_u32(buf, pos)?;
        let length = read_u32(buf, pos + 4)?;
        if format > 2 {
            return Err(PacketError::FormatError);
        }
        let start = pos + 8;
        let avail = buf.len() - start;
        let take: usize = if (length as u64) <= (avail as u64) { length as usize } else { avail };
        let end = start + take;
        let chunk = vstd::slice::slice_subrange(buf, start, end);
        if format == 0 {
            push_bytes(&mut ret.text, chunk);
        } else if format == 1 {
            push_bytes(&mut ret.html, chunk);
        } else {
            push_bytes(&mut ret.bitmap, chunk);
        }
        pos = end;
        left = left - 1;
    }
    Ok(ret)
}

/// Whether `b` is an ASCII decimal digit.
pub open spec fn is_ascii_digit(b: u8) -> bool {
    0x30 <= b <= 0x39
}

/// The value of a string of decimal digits.
pub open spec fn digits_value(s: Seq<u8>) -> nat
    decreases s.len(),
{
    if s.len() == 0 {
        0
    } else {
        digits_value(s.drop_last()) * 10 + (s.last() - 0x30) as nat
    }
}

/// The digits of a decimal number text: everything after an optional
/// leading `+`.
pub open spec fn decimal_digits(s: Seq<u8>) -> Seq<u8> {
    if s.len() > 0 && s[0] == 0x2B { s.skip(1) } else { s }
}

/// What `u32::from_str` gives for a text: an optional `+` followed by at
/// least one decimal digit and nothing else, with a value that fits.
pub open spec fn spec_parse_decimal_u32(s: Seq<u8>) -> Option<u32> {
    let d = decimal_digits(s);
    if d.len() > 0 && (forall|i: int| 0 <= i < d.len() ==> is_ascii_digit(#[trigger] d[i]))
        && digits_value(d) <= u32::MAX {
        Some(digits_value(d) as u32)
    } else {
        None
    }
}

proof fn lemma_digits_monotone(d: Seq<u8>, i: int, j: int)
    requires
        0 <= i <= j <= d.len(),
        forall|k: int| 0 <= k < d.len() ==> is_ascii_digit(#[trigger] d[k]),
    ensures
        digits_value(d.take(i)) <= digits_value(d.take(j)),
    decreases j - i,
{
    if i < j {
        lemma_digits_monotone(d, i, j - 1);
        assert(d.take(j).drop_last() =~= d.take(j - 1));
    }
}

/// Parses a decimal number text as `u32::from_str` does.
pub fn parse_decimal_u32(s: &[u8]) -> (r: Option<u32>)
    ensures
        r == spec_parse_decimal_u32(s@),
{
    let start: usize = if s.len() > 0 && s[0] == 0x2B { 1 } else { 0 };
    let ghost d = decimal_digits(s@);
    assert(d =~= s@.skip(start as int));
    if start >= s.len() {
        return None;
    }
    let mut acc: u64 = 0;
    let mut i: usize = start;
    while i < s.len()
        invariant
            start <= i <= s@.len(),
            d =~= s@.skip(start as int),
            d == decimal_digits(s@),
            d.len() > 0,
            forall|k: int| 0 <= k < i - start ==> is_ascii_digit(#[trigger] d[k]),
            acc == digits_value(d.take(i - start)),
            acc <= u32::MAX,
        decreases s@.len() - i,
    {
        let b = s[i];
        if b < 0x30 || b > 0x39 {
            assert(!is_ascii_digit(d[i - start]));
            return None;
        }
        let ghost k = i - start;
        assert(d.take(k + 1).drop_last() =~= d.take(k));
        acc = acc * 10 + (b - 0x30) as u64;
        i = i + 1;
        if acc > 0xffff_ffff {
            proof {
                if forall|m: int| 0 <= m < d.len() ==> is_ascii_digit(#[trigger] d[m]) {
                    lemma_digits_monotone(d, k + 1, d.len() as int);
                    assert(d.take(d.len() as int) =~= d);
                }
            }
            return None;
        }
    }
    assert(d.take(d.len() as int) =~= d);
    Some(acc as u32)
}

/// The abstract state of a clipboard transfer.
pub enum StageModel {
    Idle,
    Mark1 { id: u8, data: Seq<u8> },
    Mark2 { id: u8, data: Seq<u8> },
    Mark3 { id: u8, data: Seq<u8> },
}

/// Where a clipboard transfer stands. The server sends a transfer as chunks
/// marked 1 (the total length as ASCII text), 2 (a piece of the data) and 3
/// (the last, empty piece); the data of the chunks is gathered on the way.
#[derive(Debug)]
pub enum ClipboardStage {
    Idle,
    Mark1 { id: u8, data: Vec<u8> },
    Mark2 { id: u8, data: Vec<u8> },
    Mark3 { id: u8, data: Vec<u8> },
}

impl View for ClipboardStage {
    type V = StageModel;

    open spec fn view(&self) -> StageModel {
        match self {
            ClipboardStage::Idle => StageModel::Idle,
            ClipboardStage::Mark1 { id, data } => StageModel::Mark1 { id: *id, data: data@ },
            ClipboardStage::Mark2 { id, data } => StageModel::Mark2 { id: *id, data: data@ },
            ClipboardStage::Mark3 { id, data } => StageModel::Mark3 { id: *id, data: data@ },
        }
    }
}

impl StageModel {
    /// The number of the last mark received, 0 when idle.
    pub open spec fn number(self) -> u8 {
        match self {
            StageModel::Idle => 0,
            StageModel::Mark1 { .. } => 1,
            StageModel::Mark2 { .. } => 2,
            StageModel::Mark3 { .. } => 3,
        }
    }
}

impl ClipboardStage {
    /// The number of the last mark received, 0 when idle.
    pub fn stage(&self) -> (r: u8)
        ensures
            r == self@.number(),
    {
        match self {
            ClipboardStage::Idle => 0,
            ClipboardStage::Mark1 { .. } => 1,
            ClipboardStage::Mark2 { .. } => 2,
            ClipboardStage::Mark3 { .. } => 3,
        }
    }
}

/// The transfer after a chunk marked `mark` with `payload` on clipboard `id`:
/// - mark 1 starts a transfer when idle (the payload must hold a 4-byte size
///   and a decimal length text, else `FormatError`), and restarts one after
///   mark 3 on the same clipboard;
/// - mark 2 and mark 3 add the payload to a transfer after mark 1 or 2;
/// - anything else abandons the transfer.
pub open spec fn spec_clipboard_step(stage: StageModel, id: u8, mark: u8, payload: Seq<u8>) -> Result<
    StageModel,
    PacketError,
> {
    if mark == 1 {
        match stage {
            StageModel::Idle => if payload.len() >= 4 && spec_parse_decimal_u32(payload.skip(4)) is Some {
                Ok(StageModel::Mark1 { id, data: Seq::empty() })
            } else {
                Err(PacketError::FormatError)
            },
            StageModel::Mark3 { id: cid, .. } => Ok(StageModel::Mark1 { id: cid, data: Seq::empty() }),
            _ => Ok(StageModel::Idle),
        }
    } else if mark == 2 {
        match stage {
            StageModel::Mark1 { id: cid, data } => Ok(StageModel::Mark2 { id: cid, data: data + payload }),
            StageModel::Mark2 { id: cid, data } => Ok(StageModel::Mark2 { id: cid, data: data + payload }),
            _ => Ok(StageModel::Idle),
        }
    } else if mark == 3 {
        match stage {
            StageModel::Mark1 { id: cid, data } => Ok(StageModel::Mark3 { id: cid, data: data + payload }),
            StageModel::Mark2 { id: cid, data } => Ok(StageModel::Mark3 { id: cid, data: data + payload }),
            _ => Ok(StageModel::Idle),
        }
    } else {
        Ok(StageModel::Idle)
    }
}

/// Advances a clipboard transfer by one chunk; on error the stage is left as
/// it was.
pub fn clipboard_step(stage: &mut ClipboardStage, id: u8, mark: u8, payload: &[u8]) -> (r: Result<
    (),
    PacketError,
>)
    ensures
        match spec_clipboard_step(old(stage)@, id, mark, payload@) {
            Ok(s) => r is Ok && final(stage)@ == s,
            Err(e) => r == Err::<(), PacketError>(e) && final(stage)@ == old(stage)@,
        },
{
    if mark == 1 {
        if let ClipboardStage::Idle = stage {
            if payload.len() < 4 {
                return Err(PacketError::FormatError);
            }
            let text = vstd::slice::slice_subrange(payload, 4, payload.len());
            assert(text@ =~= payload@.skip(4));
            if parse_decimal_u32(text).is_none() {
                return Err(PacketError::FormatError);
            }
        }
    }
    let mut cur = ClipboardStage::Idle;
    std::mem::swap(stage, &mut cur);
    let next = if mark == 1 {
        match cur {
            ClipboardStage::Idle => ClipboardStage::Mark1 { id, data: Vec::new() },
            ClipboardStage::Mark3 { id: cid, .. } => ClipboardStage::Mark1 { id: cid, data: Vec::new() },
            _ => ClipboardStage::Idle,
        }
    } else if mark == 2 {
        match cur {
            ClipboardStage::Mark1 { id: cid, mut data } => {
                push_bytes(&mut data, payload);
                ClipboardStage::Mark2 { id: cid, data }
            },
            ClipboardStage::Mark2 { id: cid, mut data } => {
                push_bytes(&mut data, payload);
                ClipboardStage::Mark2 { id: cid, data }
            },
            _ => ClipboardStage::Idle,
        }
    } else if mark == 3 {
        match cur {
            ClipboardStage::Mark1 { id: cid, mut data } => {
                push_bytes(&mut data, payload);
                ClipboardStage::Mark3 { id: cid, data }
            },
            ClipboardStage::Mark2 { id: cid, mut data } => {
                push_bytes(&mut data, payload);
                ClipboardStage::Mark3 { id: cid, data }
            },
            _ => ClipboardStage::Idle,
        }
    } else {
        ClipboardStage::Idle
    };
    *stage = next;
    Ok(())
}

/// One entry of a clipboard transfer as the server writes it: the format,
/// the length of the data, both big endian, then the data.
pub open spec fn clipboard_entry(format: u32, data: Seq<u8>) -> Seq<u8> {
    be_u32_bytes(format) + be_u32_bytes(data.len() as u32) + data
}

proof fn lemma_entry_read(pre: Seq<u8>, format: u32, data: Seq<u8>, post: Seq<u8>)
    requires
        data.len() <= u32::MAX,
    ensures
        ({
            let buf = pre + clipboard_entry(format, data) + post;
            let pos = pre.len() as int;
            &&& be_u32_at(buf, pos) == format
            &&& be_u32_at(buf, pos + 4) == data.len()
            &&& buf.subrange(pos + 8, pos + 8 + data.len()) == data
            &&& buf.len() == pos + 8 + data.len() + post.len()
        }),
{
    let buf = pre + clipboard_entry(format, data) + post;
    let pos = pre.len() as int;
    crate::wire::lemma_be_u32_roundtrip(format);
    crate::wire::lemma_be_u32_roundtrip(data.len() as u32);
    let f = be_u32_bytes(format);
    let l = be_u32_bytes(data.len() as u32);
    assert(buf[pos] == f[0] && buf[pos + 1] == f[1] && buf[pos + 2] == f[2] && buf[pos + 3] == f[3]);
    assert(buf[pos + 4] == l[0] && buf[pos + 5] == l[1] && buf[pos + 6] == l[2] && buf[pos + 7] == l[3]);
    assert(buf.subrange(pos + 8, pos + 8 + data.len()) =~= data);
}

/// A transfer buffer of any total size holding a text, an HTML and a bitmap
/// entry, in that order, parses to a clipboard holding exactly those three.
pub proof fn lemma_parse_three_formats(size: u32, text: Seq<u8>, html: Seq<u8>, bitmap: Seq<u8>)
    requires
        text.len() <= u32::MAX,
        html.len() <= u32::MAX,
        bitmap.len() <= u32::MAX,
    ensures
        spec_parse_clipboard(
            be_u32_bytes(size) + be_u32_bytes(3) + clipboard_entry(0, text) + clipboard_entry(1, html)
                + clipboard_entry(2, bitmap),
        ) == Ok::<ClipboardContents, PacketError>(ClipboardContents { text, html, bitmap }),
{
    let head = be_u32_bytes(size) + be_u32_bytes(3);
    let e0 = clipboard_entry(0, text);
    let e1 = clipboard_entry(1, html);
    let e2 = clipboard_entry(2, bitmap);
    let buf = head + e0 + e1 + e2;
    crate::wire::lemma_be_u32_roundtrip(3);
    assert(buf.subrange(4, 8) =~= be_u32_bytes(3));
    assert(buf[4] == be_u32_bytes(3)[0] && buf[5] == be_u32_bytes(3)[1] && buf[6] == be_u32_bytes(3)[2]
        && buf[7] == be_u32_bytes(3)[3]);
    assert(be_u32_at(buf, 4) == 3);
    assert(buf =~= head + e0 + (e1 + e2));
    lemma_entry_read(head, 0, text, e1 + e2);
    let p1: int = 8 + e0.len() as int;
    assert(buf =~= (head + e0) + e1 + e2);
    lemma_entry_read(head + e0, 1, html, e2);
    let p2: int = p1 + e1.len() as int;
    assert(buf =~= (head + e0 + e1) + e2 + Seq::empty());
    lemma_entry_read(head + e0 + e1, 2, bitmap, Seq::empty());
    let a0 = ClipboardContents::empty().append(0, text);
    let a1 = a0.append(1, html);
    let a2 = a1.append(2, bitmap);
    assert(a0.text =~= text);
    assert(a1.html =~= html);
    assert(a2.bitmap =~= bitmap);
    assert(spec_clipboard_entries(buf, buf.len() as int, 0, a2) == Ok::<ClipboardContents, PacketError>(a2));
    assert(spec_clipboard_entries(buf, p2, 1, a1) == spec_clipboard_entries(buf, buf.len() as int, 0, a2));
    assert(spec_clipboard_entries(buf, p1, 2, a0) == spec_clipboard_entries(buf, p2, 1, a1));
    assert(spec_clipboard_entries(buf, 8, 3, ClipboardContents::empty()) == spec_clipboard_entries(buf, p1, 2, a0));
    assert(a2 =~= (ClipboardContents { text, html, bitmap }));
}

/// The clipboard holding `data` in format `f` (0 text, 1 HTML, 2 bitmap)
/// and nothing else.
pub open spec fn only_format(f: u32, data: Seq<u8>) -> ClipboardContents {
    ClipboardContents {
        text: if f == 0 { data } else { Seq::empty() },
        html: if f == 1 { data } else { Seq::empty() },
        bitmap: if f == 2 { data } else { Seq::empty() },
    }
}

/// Two entries of one format are joined, the first one's bytes first; an
/// entry announcing more bytes than the buffer holds takes the bytes that
/// are there.
pub proof fn lemma_parse_joins_and_cuts(size: u32, f: u32, a: Seq<u8>, b: Seq<u8>, len: u32, data: Seq<u8>)
    requires
        f <= 2,
        a.len() <= u32::MAX,
        b.len() <= u32::MAX,
        data.len() < len,
    ensures
        spec_parse_clipboard(be_u32_bytes(size) + be_u32_bytes(2) + clipboard_entry(f, a) + clipboard_entry(f, b))
            == Ok::<ClipboardContents, PacketError>(only_format(f, a + b)),
        spec_parse_clipboard(be_u32_bytes(size) + be_u32_bytes(1) + be_u32_bytes(f) + be_u32_bytes(len) + data)
            == Ok::<ClipboardContents, PacketError>(only_format(f, data)),
{
    let head = be_u32_bytes(size) + be_u32_bytes(2);
    crate::wire::lemma_be_u32_roundtrip(2);
    let e0 = clipboard_entry(f, a);
    let e1 = clipboard_entry(f, b);
    let buf = head + e0 + e1;
    assert(buf[4] == be_u32_bytes(2)[0] && buf[5] == be_u32_bytes(2)[1] && buf[6] == be_u32_bytes(2)[2]
        && buf[7] == be_u32_bytes(2)[3]);
    lemma_entry_read(head, f, a, e1);
    let p1: int = 8 + e0.len() as int;
    assert(buf =~= (head + e0) + e1 + Seq::empty());
    lemma_entry_read(head + e0, f, b, Seq::empty());
    let a0 = ClipboardContents::empty().append(f, a);
    let a1 = a0.append(f, b);
    assert(a1 =~= only_format(f, a + b));
    assert(spec_clipboard_entries(buf, buf.len() as int, 0, a1) == Ok::<ClipboardContents, PacketError>(a1));
    assert(spec_clipboard_entries(buf, p1, 1, a0) == spec_clipboard_entries(buf, buf.len() as int, 0, a1));

    crate::wire::lemma_be_u32_roundtrip(1);
    crate::wire::lemma_be_u32_roundtrip(f);
    crate::wire::lemma_be_u32_roundtrip(len);
    let h1 = be_u32_bytes(size) + be_u32_bytes(1);
    let c = h1 + be_u32_bytes(f) + be_u32_bytes(len) + data;
    assert(c[4] == be_u32_bytes(1)[0] && c[5] == be_u32_bytes(1)[1] && c[6] == be_u32_bytes(1)[2]
        && c[7] == be_u32_bytes(1)[3]);
    assert(c[8] == be_u32_bytes(f)[0] && c[9] == be_u32_bytes(f)[1] && c[10] == be_u32_bytes(f)[2]
        && c[11] == be_u32_bytes(f)[3]);
    assert(c[12] == be_u32_bytes(len)[0] && c[13] == be_u32_bytes(len)[1] && c[14] == be_u32_bytes(len)[2]
        && c[15] == be_u32_bytes(len)[3]);
    assert(c.subrange(16, c.len() as int) =~= data);
    let b0 = ClipboardContents::empty().append(f, data);
    assert(b0 =~= only_format(f, data));
    assert(spec_clipboard_entries(c, c.len() as int, 0, b0) == Ok::<ClipboardContents, PacketError>(b0));
}

/// An entry of a format other than text (0), HTML (1) or bitmap (2) is a
/// `FormatError`; a buffer too short for its size and count, or for the
/// header of an announced entry, is an `IoError`.
pub proof fn lemma_parse_refusals(size: u32, count: u32, format: u32, data: Seq<u8>, short: Seq<u8>)
    requires
        data.len() <= u32::MAX,
        format > 2,
        count > 0,
        short.len() < 8,
    ensures
        spec_parse_clipboard(be_u32_bytes(size) + be_u32_bytes(count) + clipboard_entry(format, data))
            == Err::<ClipboardContents, PacketError>(PacketError::FormatError),
        spec_parse_clipboard(short) == Err::<ClipboardContents, PacketError>(PacketError::IoError),
        spec_parse_clipboard(be_u32_bytes(size) + be_u32_bytes(count) + short.take(short.len() as int))
            == Err::<ClipboardContents, PacketError>(PacketError::IoError),
{
    let head = be_u32_bytes(size) + be_u32_bytes(count);
    crate::wire::lemma_be_u32_roundtrip(count);
    let buf = head + clipboard_entry(format, data);
    assert(buf[4] == be_u32_bytes(count)[0] && buf[5] == be_u32_bytes(count)[1] && buf[6] == be_u32_bytes(count)[2]
        && buf[7] == be_u32_bytes(count)[3]);
    assert(buf =~= head + clipboard_entry(format, data) + Seq::empty());
    lemma_entry_read(head, format, data, Seq::empty());
    let buf2 = head + short.take(short.len() as int);
    assert(buf2[4] == be_u32_bytes(count)[0] && buf2[5] == be_u32_bytes(count)[1] && buf2[6] == be_u32_bytes(count)[2]
        && buf2[7] == be_u32_bytes(count)[3]);
}

/// Clipboard data is empty exactly when all three formats are.
pub proof fn lemma_clipboard_empty(c: ClipboardContents)
    ensures
        c.is_empty() <==> c.text.len() + c.html.len() + c.bitmap.len() == 0,
        ClipboardContents::empty().text.len() + ClipboardContents::empty().html.len()
            + ClipboardContents::empty().bitmap.len() == 0,
{
}

/// Decimal number texts read as `u32::from_str` reads them: a single digit
/// is its value; appending a digit multiplies by ten and adds it while the
/// value fits; a leading `+` changes nothing; an empty text, a lone `+`, and
/// a text holding anything but digits after the optional `+` are refused.
pub proof fn lemma_decimal_texts(d: Seq<u8>, c: u8, v: u32)
    ensures
        0x30 <= c <= 0x39 ==> spec_parse_decimal_u32(seq![c]) == Some((c - 0x30) as u32),
        spec_parse_decimal_u32(d) == Some(v) && 0x30 <= c <= 0x39 && v * 10 + (c - 0x30) <= u32::MAX
            ==> spec_parse_decimal_u32(d.push(c)) == Some((v * 10 + (c - 0x30)) as u32),
        spec_parse_decimal_u32(d) == Some(v) && 0x30 <= c <= 0x39 && v * 10 + (c - 0x30) > u32::MAX
            ==> spec_parse_decimal_u32(d.push(c)) is None,
        (d.len() == 0 || d[0] != 0x2B) ==> spec_parse_decimal_u32(seq![0x2Bu8] + d) == spec_parse_decimal_u32(d),
        spec_parse_decimal_u32(Seq::empty()) is None,
        spec_parse_decimal_u32(seq![0x2Bu8]) is None,
        spec_parse_decimal_u32(seq![0x2Bu8, 0x2B] + d) is None,
        !(0x30 <= c <= 0x39) && c != 0x2B ==> spec_parse_decimal_u32(d.push(c)) is None
            && spec_parse_decimal_u32(seq![c] + d) is None,
{
    let e = decimal_digits(d);
    let p = d.push(c);
    if d.len() > 0 {
        assert(decimal_digits(p) =~= e.push(c));
        assert(decimal_digits(p).drop_last() =~= e);
        assert(decimal_digits(p).last() == c);
    } else {
        assert(p =~= seq![c]);
    }
    assert(seq![c].drop_last() =~= Seq::<u8>::empty());
    let q = seq![0x2Bu8] + d;
    assert(decimal_digits(q) =~= d);
    assert(decimal_digits(seq![0x2Bu8]).len() == 0);
    let pp = seq![0x2Bu8, 0x2B] + d;
    assert(decimal_digits(pp)[0] == 0x2B);
    if c != 0x2B {
        assert(decimal_digits(seq![c]) =~= seq![c]);
        if 0x30 <= c <= 0x39 {
            assert(digits_value(seq![c]) == digits_value(seq![c].drop_last()) * 10 + (c - 0x30) as nat);
            assert(forall|i: int| 0 <= i < 1 ==> is_ascii_digit(#[trigger] seq![c][i]));
        }
        let r = seq![c] + d;
        assert(decimal_digits(r) =~= r);
        assert(r[0] == c);
        if !(0x30 <= c <= 0x39) {
            assert(!is_ascii_digit(decimal_digits(r)[0]));
            if d.len() > 0 {
                assert(!is_ascii_digit(decimal_digits(p)[decimal_digits(p).len() - 1]));
            } else {
                assert(!is_ascii_digit(decimal_digits(p)[0]));
            }
        }
    }
}

/// Where a clipboard transfer goes for each chunk: a first chunk (mark 1)
/// starts a transfer from idle when its payload holds a size and a decimal
/// length (else the chunk is refused with `FormatError`), restarts one after
/// a finished transfer on the same clipboard with no data, and abandons one
/// in progress; a data chunk (mark 2) or last chunk (mark 3) extends a
/// transfer in progress with its payload, to a data or finished stage, and
/// abandons anything else; any other mark abandons the transfer.
pub proof fn lemma_clipboard_stages(id: u8, cid: u8, data: Seq<u8>, payload: Seq<u8>, mark: u8)
    ensures
        payload.len() >= 4 && spec_parse_decimal_u32(payload.skip(4)) is Some ==> spec_clipboard_step(
            StageModel::Idle, id, 1, payload,
        ) == Ok::<StageModel, PacketError>(StageModel::Mark1 { id, data: Seq::empty() }),
        !(payload.len() >= 4 && spec_parse_decimal_u32(payload.skip(4)) is Some) ==> spec_clipboard_step(
            StageModel::Idle, id, 1, payload,
        ) == Err::<StageModel, PacketError>(PacketError::FormatError),
        spec_clipboard_step(StageModel::Mark3 { id: cid, data }, id, 1, payload)
            == Ok::<StageModel, PacketError>(StageModel::Mark1 { id: cid, data: Seq::empty() }),
        spec_clipboard_step(StageModel::Mark1 { id: cid, data }, id, 1, payload) == Ok::<StageModel, PacketError>(StageModel::Idle),
        spec_clipboard_step(StageModel::Mark2 { id: cid, data }, id, 1, payload) == Ok::<StageModel, PacketError>(StageModel::Idle),
        spec_clipboard_step(StageModel::Mark1 { id: cid, data }, id, 2, payload)
            == Ok::<StageModel, PacketError>(StageModel::Mark2 { id: cid, data: data + payload }),
        spec_clipboard_step(StageModel::Mark2 { id: cid, data }, id, 2, payload)
            == Ok::<StageModel, PacketError>(StageModel::Mark2 { id: cid, data: data + payload }),
        spec_clipboard_step(StageModel::Mark1 { id: cid, data }, id, 3, payload)
            == Ok::<StageModel, PacketError>(StageModel::Mark3 { id: cid, data: data + payload }),
        spec_clipboard_step(StageModel::Mark2 { id: cid, data }, id, 3, payload)
            == Ok::<StageModel, PacketError>(StageModel::Mark3 { id: cid, data: data + payload }),
        spec_clipboard_step(StageModel::Idle, id, 2, payload) == Ok::<StageModel, PacketError>(StageModel::Idle),
        spec_clipboard_step(StageModel::Idle, id, 3, payload) == Ok::<StageModel, PacketError>(StageModel::Idle),
        spec_clipboard_step(StageModel::Mark3 { id: cid, data }, id, 2, payload) == Ok::<StageModel, PacketError>(StageModel::Idle),
        spec_clipboard_step(StageModel::Mark3 { id: cid, data }, id, 3, payload) == Ok::<StageModel, PacketError>(StageModel::Idle),
        !(1 <= mark <= 3) ==> spec_clipboard_step(StageModel::Mark2 { id: cid, data }, id, mark, payload)
            == Ok::<StageModel, PacketError>(StageModel::Idle),
        StageModel::Idle.number() == 0,
        (StageModel::Mark1 { id, data }).number() == 1,
        (StageModel::Mark2 { id, data }).number() == 2,
        (StageModel::Mark3 { id, data }).number() == 3,
{
}

} // verus!
