//! How HID reports leave the client: as fixed 9-byte frames on a serial line
//! to a USB bridge, or as report bodies written to per-report gadget devices.
use vstd::prelude::*;

use vstd::utf8::{decode_utf8, valid_utf8};

use crate::clipboard::ClipboardData;
use crate::synergy_hid::ReportType;

verus! {

/// A state the serial bridge shows on its indicator.
#[derive(Debug, Clone, Copy, PartialEq, Eq)]
pub enum IndicatorStatus {
    PowerOn,
    WifiConnecting,
    WifiConnected,
    ServerConnecting,
    ServerConnected,
    EnterScreen,
    LeaveScreen,
    ServerDisconnected,
}

impl IndicatorStatus {
    /// The byte that stands for the status on the serial line.
    pub open spec fn spec_code(self) -> u8 {
        match self {
            IndicatorStatus::WifiConnecting => 0x00,
            IndicatorStatus::WifiConnected => 0x01,
            IndicatorStatus::ServerConnecting => 0x02,
            IndicatorStatus::ServerConnected => 0x03,
            IndicatorStatus::EnterScreen => 0x04,
            IndicatorStatus::LeaveScreen => 0x05,
            IndicatorStatus::ServerDisconnected => 0x06,
            IndicatorStatus::PowerOn => 0x07,
        }
    }

    /// The byte that stands for the status on the serial line.
    pub fn code(&self) -> (r: u8)
        ensures
            r == self.spec_code(),
    {
        match self {
            IndicatorStatus::WifiConnecting => 0x00,
            IndicatorStatus::WifiConnected => 0x01,
            IndicatorStatus::ServerConnecting => 0x02,
            IndicatorStatus::ServerConnected => 0x03,
            IndicatorStatus::EnterScreen => 0x04,
            IndicatorStatus::LeaveScreen => 0x05,
            IndicatorStatus::ServerDisconnected => 0x06,
            IndicatorStatus::PowerOn => 0x07,
        }
    }

    /// The serial frame that shows the status: report id 0, the status byte,
    /// zeros.
    pub fn frame(&self) -> (r: [u8; 9])
        ensures
            r@ == seq![0u8, self.spec_code()] + Seq::new(7, |i: int| 0u8),
    {
        let mut f = [0u8; 9];
        f[1] = self.code();
        assert(f@ =~= seq![0u8, self.spec_code()] + Seq::new(7, |i: int| 0u8));
        f
    }
}

/// The serial frame for the first `len` bytes of a report (report id
/// first), padded with zeros to 9 bytes.
pub fn serial_frame(report: &[u8], len: usize) -> (r: [u8; 9])
    requires
        len <= 9,
        len <= report@.len(),
    ensures
        r@ == report@.take(len as int) + Seq::new((9 - len) as nat, |i: int| 0u8),
{
    let mut f = [0u8; 9];
    let mut i: usize = 0;
    while i < len
        invariant
            i <= len <= 9,
            len <= report@.len(),
            forall|j: int| 0 <= j < i ==> f@[j] == report@[j],
            forall|j: int| i <= j < 9 ==> f@[j] == 0,
        decreases len - i,
    {
        f[i] = report[i];
        i = i + 1;
    }
    assert(f@ =~= report@.take(len as int) + Seq::new((9 - len) as nat, |i: int| 0u8));
    f
}

/// Which report a written report is (by its id: 1 keyboard, 2 pointer,
/// 3 consumer control) and its body, the bytes after the id among the first
/// `len`; `None` for another id.
pub fn split_report(report: &[u8], len: usize) -> (r: Option<(ReportType, &[u8])>)
    requires
        1 <= len <= report@.len(),
    ensures
        report@[0] == 1 ==> (r matches Some((t, b)) && t == ReportType::Keyboard && b@ == report@.subrange(1, len as int)),
        report@[0] == 2 ==> (r matches Some((t, b)) && t == ReportType::Mouse && b@ == report@.subrange(1, len as int)),
        report@[0] == 3 ==> (r matches Some((t, b)) && t == ReportType::Consumer && b@ == report@.subrange(1, len as int)),
        !(1 <= report@[0] <= 3) ==> r is None,
{
    let body = vstd::slice::slice_subrange(report, 1, len);
    if report[0] == 1 {
        Some((ReportType::Keyboard, body))
    } else if report[0] == 2 {
        Some((ReportType::Mouse, body))
    } else if report[0] == 3 {
        Some((ReportType::Consumer, body))
    } else {
        None
    }
}

/// The device number of a character device from its major and minor
/// numbers, as the kernel reports it for small numbers: `major << 8 | minor`.
pub fn hid_dev_number(major: u8, minor: u8) -> (r: u64)
    ensures
        r == major * 256 + minor,
{
    let r = ((major as u64) << 8u64) | (minor as u64);
    assert(((major as u64) << 8u64) | (minor as u64) == (major as u64) * 256 + (minor as u64)) by (bit_vector);
    r
}

/// USB identity of a serial port.
#[derive(Debug, Clone)]
pub struct UsbPortInfo {
    pub vid: u16,
    pub pid: u16,
    pub serial_number: Option<String>,
}

/// A serial port of the machine, with its USB identity when it is a USB
/// port.
#[derive(Debug, Clone)]
pub struct SerialPortInfo {
    pub port_name: String,
    pub usb: Option<UsbPortInfo>,
}

/// Whether a port is the USB device with the given vendor id, product id and
/// serial number.
pub open spec fn port_matches(p: SerialPortInfo, vid: u16, pid: u16, serial: Seq<char>) -> bool {
    &&& p.usb is Some
    &&& p.usb->Some_0.vid == vid
    &&& p.usb->Some_0.pid == pid
    &&& p.usb->Some_0.serial_number is Some
    &&& p.usb->Some_0.serial_number->Some_0@ == serial
}

/// The name of the last matching port of the list.
pub open spec fn spec_last_match(ports: Seq<SerialPortInfo>, vid: u16, pid: u16, serial: Seq<char>) -> Option<Seq<char>>
    decreases ports.len(),
{
    if ports.len() == 0 {
        None
    } else if port_matches(ports.last(), vid, pid, serial) {
        Some(ports.last().port_name@)
    } else {
        spec_last_match(ports.drop_last(), vid, pid, serial)
    }
}

/// The name of the port that is the USB device with the given identity; the
/// last one when several are.
pub fn find_port(ports: &Vec<SerialPortInfo>, usb_vid: u16, usb_pid: u16, usb_serial: &String) -> (r: Option<String>)
    ensures
        match spec_last_match(ports@, usb_vid, usb_pid, usb_serial@) {
            None => r is None,
            Some(name) => r matches Some(s) && s@ == name,
        },
{
    let mut path: Option<String> = None;
    let mut i: usize = 0;
    while i < ports.len()
        invariant
            i <= ports@.len(),
            match spec_last_match(ports@.take(i as int), usb_vid, usb_pid, usb_serial@) {
                None => path is None,
                Some(name) => path matches Some(s) && s@ == name,
            },
        decreases ports@.len() - i,
    {
        let p = &ports[i];
        assert(ports@.take(i + 1).drop_last() =~= ports@.take(i as int));
        assert(ports@.take(i + 1).last() == ports@[i as int]);
        let mut hit = false;
        if let Some(usb) = &p.usb {
            if usb.vid == usb_vid && usb.pid == usb_pid {
                if let Some(serial) = &usb.serial_number {
                    if *serial == *usb_serial {
                        hit = true;
                    }
                }
            }
        }
        if hit {
            path = Some(p.port_name.clone());
        }
        i = i + 1;
    }
    assert(ports@.take(ports@.len() as int) =~= ports@);
    path
}

/// Calls `std::str::from_utf8` and takes the text as an owned string.
/// Trusted: the call succeeds exactly on valid UTF-8, and then the text is
/// the decoding of the bytes.
#[verifier::external_body]
fn utf8_text(bytes: &[u8]) -> (r: Option<String>)
    ensures
        r is Some <==> valid_utf8(bytes@),
        r matches Some(s) ==> s@ == decode_utf8(bytes@),
{
    std::str::from_utf8(bytes).ok().map(|s| s.to_owned())
}

/// The text a serial bridge puts on the host clipboard for received
/// clipboard data: the text format when it is non-empty valid UTF-8 that
/// differs from what was put there last (`current`); `None` otherwise.
pub open spec fn spec_clipboard_text_update(current: Seq<char>, text: Seq<u8>) -> Option<Seq<char>> {
    if text.len() > 0 && valid_utf8(text) && decode_utf8(text).len() > 0 && decode_utf8(text) != current {
        Some(decode_utf8(text))
    } else {
        None
    }
}

/// The text to put on the host clipboard for received clipboard data; see
/// [`spec_clipboard_text_update`].
pub fn clipboard_text_update(current: &String, data: &ClipboardData) -> (r: Option<String>)
    ensures
        match spec_clipboard_text_update(current@, data@.text) {
            None => r is None,
            Some(t) => r matches Some(s) && s@ == t,
        },
{
    let raw = data.raw_text();
    if raw.len() == 0 {
        return None;
    }
    match utf8_text(raw) {
        None => None,
        Some(s) => {
            if s.as_str().is_empty() || s == *current {
                None
            } else {
                Some(s)
            }
        },
    }
}

/// The status bytes of the serial bridge's indicator: 0 connecting to
/// Wi-Fi, 1 Wi-Fi connected, 2 connecting to the server, 3 server connected,
/// 4 cursor entered the screen, 5 cursor left it, 6 server disconnected,
/// 7 powered on; each status is sent as a frame of report id 0, its byte and
/// seven zeros.
pub proof fn lemma_indicator_status_bytes()
    ensures
        IndicatorStatus::WifiConnecting.spec_code() == 0,
        IndicatorStatus::WifiConnected.spec_code() == 1,
        IndicatorStatus::ServerConnecting.spec_code() == 2,
        IndicatorStatus::ServerConnected.spec_code() == 3,
        IndicatorStatus::EnterScreen.spec_code() == 4,
        IndicatorStatus::LeaveScreen.spec_code() == 5,
        IndicatorStatus::ServerDisconnected.spec_code() == 6,
        IndicatorStatus::PowerOn.spec_code() == 7,
        forall|a: IndicatorStatus, b: IndicatorStatus| a != b ==> #[trigger] a.spec_code() != #[trigger] b.spec_code(),
{
}

/// Received clipboard text goes to the host clipboard exactly when it is
/// non-empty, valid UTF-8 and differs from the text put there last; what goes
/// there is the decoded text, whatever characters it holds.
pub proof fn lemma_clipboard_text_update(current: Seq<char>, text: Seq<u8>)
    ensures
        (text.len() > 0 && valid_utf8(text) && decode_utf8(text) != current)
            ==> spec_clipboard_text_update(current, text) == Some(decode_utf8(text)),
        !(text.len() > 0 && valid_utf8(text) && decode_utf8(text) != current)
            ==> spec_clipboard_text_update(current, text) is None,
{
    if text.len() > 0 && valid_utf8(text) {
        assert(decode_utf8(text).len() > 0);
    }
}

/// Whether port `p` is a USB port with vendor id `vid`, product id `pid`
/// and serial number `serial`, spelled out field by field.
pub open spec fn is_device(p: SerialPortInfo, vid: u16, pid: u16, serial: Seq<char>) -> bool {
    match p.usb {
        Some(u) => u.vid == vid && u.pid == pid && match u.serial_number {
            Some(sn) => sn@ == serial,
            None => false,
        },
        None => false,
    }
}

/// The port found is one of the ports that is the device, and no port after
/// it is; none is found exactly when no port is the device.
pub proof fn lemma_find_port(ports: Seq<SerialPortInfo>, vid: u16, pid: u16, serial: Seq<char>)
    ensures
        spec_last_match(ports, vid, pid, serial) is None <==> forall|i: int|
            0 <= i < ports.len() ==> !is_device(#[trigger] ports[i], vid, pid, serial),
        spec_last_match(ports, vid, pid, serial) matches Some(name) ==> exists|i: int|
            0 <= i < ports.len() && is_device(#[trigger] ports[i], vid, pid, serial) && ports[i].port_name@ == name
                && forall|j: int| i < j < ports.len() ==> !is_device(#[trigger] ports[j], vid, pid, serial),
    decreases ports.len(),
{
    if ports.len() > 0 {
        let last = ports.len() - 1;
        assert(port_matches(ports[last], vid, pid, serial) == is_device(ports[last], vid, pid, serial));
        lemma_find_port(ports.drop_last(), vid, pid, serial);
        if port_matches(ports[last], vid, pid, serial) {
            assert(is_device(ports[last], vid, pid, serial));
        } else {
            assert forall|i: int| 0 <= i < ports.drop_last().len() implies #[trigger] ports.drop_last()[i] == ports[i] by {}
            if let Some(name) = spec_last_match(ports, vid, pid, serial) {
                let i = choose|i: int|
                    0 <= i < ports.drop_last().len() && is_device(#[trigger] ports.drop_last()[i], vid, pid, serial)
                        && ports.drop_last()[i].port_name@ == name && forall|j: int|
                        i < j < ports.drop_last().len() ==> !is_device(#[trigger] ports.drop_last()[j], vid, pid, serial);
                assert(ports[i] == ports.drop_last()[i]);
                assert forall|j: int| i < j < ports.len() implies !is_device(#[trigger] ports[j], vid, pid, serial) by {
                    if j < last {
                        assert(ports[j] == ports.drop_last()[j]);
                    }
                }
            } else {
                assert forall|i: int| 0 <= i < ports.len() implies !is_device(#[trigger] ports[i], vid, pid, serial) by {
                    if i < last {
                        assert(ports[i] == ports.drop_last()[i]);
                    }
                }
            }
            if forall|i: int| 0 <= i < ports.len() ==> !is_device(#[trigger] ports[i], vid, pid, serial) {
                assert forall|i: int| 0 <= i < ports.drop_last().len() implies !is_device(#[trigger] ports.drop_last()[i], vid, pid, serial) by {
                    assert(ports[i] == ports.drop_last()[i]);
                }
            }
        }
    }
}

} // verus!
