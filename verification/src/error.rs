//! Errors of the protocol client.
use vstd::prelude::*;

verus! {

/// Why a packet could not be read.
#[derive(Debug, Clone, Copy, PartialEq, Eq)]
pub enum PacketError {
    /// The input ended before a field of the packet (or the connection
    /// failed while reading it).
    IoError,
    /// A field holds a value the protocol does not allow.
    FormatError,
    /// The packet's length prefix is below the 4 bytes of a packet code.
    PacketTooSmall,
}

/// Why an actuator could not carry out a request.
#[derive(Debug, Clone, Copy, PartialEq, Eq)]
pub enum ActuatorError {
    IoError,
    ClipboardError,
}

/// Why a client session ended.
#[derive(Debug, Clone, Copy, PartialEq, Eq)]
pub enum ConnectionError {
    /// The connection failed.
    IoError,
    /// The server broke the protocol.
    ProtocolError(PacketError),
    /// The actuator failed.
    ActuatorError(ActuatorError),
    /// The server closed the connection.
    Disconnected,
}

} // verus!
