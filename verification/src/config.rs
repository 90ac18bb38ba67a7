//! Settings of the two client programs.
use vstd::prelude::*;

verus! {

/// Settings of the client that drives a USB gadget.
#[derive(Debug, Clone)]
pub struct BarpiConfig {
    /// Barrier server address in "server:port" format
    pub server: String,
    /// Screen name, must be accepted by the Barrier server
    pub screen_name: String,
    /// Screen width
    pub screen_width: u16,
    /// Screen height
    pub screen_height: u16,
    /// Flip mouse wheel
    pub flip_mouse_wheel: bool,
    pub usb_vid: u16,
    pub usb_pid: u16,
    pub usb_manufacturer: String,
    pub usb_product: String,
    pub usb_serial: String,
}

/// Settings of the client that drives a serial USB bridge.
#[derive(Debug, Clone)]
pub struct SerbarConfig {
    /// Barrier server address in "server:port" format
    pub server: String,
    /// Screen name, must be accepted by the Barrier server
    pub screen_name: String,
    /// Screen width
    pub screen_width: u16,
    /// Screen height
    pub screen_height: u16,
    /// Flip mouse wheel
    pub flip_mouse_wheel: bool,
    pub usb_vid: u16,
    pub usb_pid: u16,
    pub usb_serial: String,
}

} // verus!
