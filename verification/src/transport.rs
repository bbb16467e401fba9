//! What the bus can be asked to do, and how it can fail.

use std::time::Duration;
use vstd::prelude::*;

verus! {

/// Failures that the USB stack reports.
#[derive(Debug, Clone, Copy, PartialEq, Eq, Structural)]
pub enum LibUsbError {
    /// Input/output error.
    Io,
    /// Invalid parameter.
    InvalidParam,
    /// Access denied (insufficient permissions).
    Access,
    /// No such device (it may have been disconnected).
    NoDevice,
    /// Entity not found.
    NotFound,
    /// Resource busy.
    Busy,
    /// Operation timed out.
    Timeout,
    /// Overflow.
    Overflow,
    /// Pipe error.
    Pipe,
    /// System call interrupted (perhaps due to signal).
    Interrupted,
    /// Insufficient memory.
    NoMem,
    /// Operation not supported or unimplemented on this platform.
    NotSupported,
    /// The device returned a malformed descriptor.
    BadDescriptor,
    /// Other error.
    Other,
}

/// Failures of the device layer.
#[derive(Debug, Clone, Copy, PartialEq, Eq)]
pub enum TransportError {
    /// The USB stack failed.
    LibUsb(LibUsbError),
    /// A packet could not be read from or written to its buffer.
    BufferIo(&'static str),
    /// A packet does not follow the protocol.
    InvalidPacket(&'static str),
    /// The device does not follow the standard.
    InvalidDevice,
}

impl LibUsbError {
    /// The name of the failure.
    pub open spec fn spec_name(self) -> &'static str {
        match self {
            LibUsbError::Io => "Io",
            LibUsbError::InvalidParam => "InvalidParam",
            LibUsbError::Access => "Access",
            LibUsbError::NoDevice => "NoDevice",
            LibUsbError::NotFound => "NotFound",
            LibUsbError::Busy => "Busy",
            LibUsbError::Timeout => "Timeout",
            LibUsbError::Overflow => "Overflow",
            LibUsbError::Pipe => "Pipe",
            LibUsbError::Interrupted => "Interrupted",
            LibUsbError::NoMem => "NoMem",
            LibUsbError::NotSupported => "NotSupported",
            LibUsbError::BadDescriptor => "BadDescriptor",
            LibUsbError::Other => "Other",
        }
    }

    /// The name of the failure, as it stands in messages.
    pub fn name(&self) -> (name: &'static str)
        ensures
            name == self.spec_name(),
    {
        match self {
            LibUsbError::Io => "Io",
            LibUsbError::InvalidParam => "InvalidParam",
            LibUsbError::Access => "Access",
            LibUsbError::NoDevice => "NoDevice",
            LibUsbError::NotFound => "NotFound",
            LibUsbError::Busy => "Busy",
            LibUsbError::Timeout => "Timeout",
            LibUsbError::Overflow => "Overflow",
            LibUsbError::Pipe => "Pipe",
            LibUsbError::Interrupted => "Interrupted",
            LibUsbError::NoMem => "NoMem",
            LibUsbError::NotSupported => "NotSupported",
            LibUsbError::BadDescriptor => "BadDescriptor",
            LibUsbError::Other => "Other",
        }
    }
}

impl TransportError {
    /// The text that describes the failure.
    pub open spec fn spec_describe(self) -> Seq<char> {
        match self {
            TransportError::LibUsb(e) => "libusb error: "@ + e.spec_name()@,
            TransportError::BufferIo(msg) => "packet is broken: "@ + msg@,
            TransportError::InvalidPacket(msg) => "packet is invalid: "@ + msg@,
            TransportError::InvalidDevice => "device doesn't follow the standard"@,
        }
    }

    /// Describes the failure in words.
    pub fn describe(&self) -> (text: String)
        ensures
            text@ == self.spec_describe(),
    {
        match self {
            TransportError::LibUsb(e) => String::from_str("libusb error: ").concat(e.name()),
            TransportError::BufferIo(msg) => String::from_str("packet is broken: ").concat(msg),
            TransportError::InvalidPacket(msg) => String::from_str("packet is invalid: ").concat(
                msg,
            ),
            TransportError::InvalidDevice => String::from_str(
                "device doesn't follow the standard",
            ),
        }
    }
}

/// Result of the device layer.
pub type TransportResult<T> = Result<T, TransportError>;

/// One transaction on the bus. A channel says which transactions an operation
/// needs; whoever owns the device handle performs them in order and stops at
/// the first that fails.
#[derive(Debug, Clone, Copy, PartialEq, Eq)]
pub enum UsbRequest {
    /// Claim an interface of the device.
    ClaimInterface { iface_number: u8 },
    /// Release an interface of the device.
    ReleaseInterface { iface_number: u8 },
    /// Write the first `len` bytes of the caller's buffer to a bulk endpoint.
    WriteBulk { endpoint: u8, len: usize, timeout: Duration },
    /// Read at most `len` bytes from a bulk endpoint into the caller's buffer.
    ReadBulk { endpoint: u8, len: usize, timeout: Duration },
    /// Control transfer from host to device that carries no data.
    WriteControl { request_type: u8, request: u8, value: u16, index: u16, timeout: Duration },
    /// Clear the halt condition of an endpoint.
    ClearHalt { endpoint: u8 },
}

/// `bmRequestType` of a standard request from the host to an endpoint.
pub const ENDPOINT_OUT_STANDARD: u8 = 0x02;

/// `bRequest` of SET_FEATURE.
pub const SET_FEATURE: u8 = 0x03;

/// `wValue` that selects the feature ENDPOINT_HALT.
pub const ENDPOINT_HALT: u16 = 0x00;

/// Calls `rusb::request_type` with the direction out, the standard request
/// type and an endpoint as recipient. The function ors the three bit fields
/// `0x00`, `0x00 << 5` and `0x02` together, which the contract states.
#[verifier::external_body]
fn standard_endpoint_out() -> (request_type: u8)
    ensures
        request_type == ENDPOINT_OUT_STANDARD,
{
    rusb::request_type(
        rusb::Direction::Out,
        rusb::RequestType::Standard,
        rusb::Recipient::Endpoint,
    )
}

/// The control transfer that halts an endpoint: SET_FEATURE(ENDPOINT_HALT),
/// addressed to the endpoint, without data.
pub fn set_halt(endpoint_number: u8, timeout: Duration) -> (request: UsbRequest)
    ensures
        request == (UsbRequest::WriteControl {
            request_type: ENDPOINT_OUT_STANDARD,
            request: SET_FEATURE,
            value: ENDPOINT_HALT,
            index: endpoint_number as u16,
            timeout,
        }),
{
    let request_type = standard_endpoint_out();
    UsbRequest::WriteControl {
        request_type,
        request: SET_FEATURE,
        value: ENDPOINT_HALT,
        index: endpoint_number as u16,
        timeout,
    }
}

} // verus!
