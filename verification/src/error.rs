//! Errors of the control plane and of the stream plane, and how failures of
//! the device layer map to them.

use crate::transport::{LibUsbError, TransportError};
use vstd::prelude::*;
use vstd::std_specs::convert::FromSpecImpl;

verus! {

/// An error of a transaction on the control channel.
#[derive(Debug, Clone, PartialEq, Eq)]
pub enum ControlError {
    /// The transaction failed for a reason that the caller cannot act on.
    Io(TransportError),
    /// The device is busy; the transaction may be tried again.
    Busy,
    /// The device is gone.
    Disconnected,
    /// The device did not answer in time.
    Timeout,
    /// The device does not follow the standard.
    InvalidDevice(&'static str),
}

/// Message of the error for a device that the device layer found invalid.
pub const MSG_INVALID_DEVICE: &'static str = "invalid device";

/// Result of the control plane.
pub type ControlResult<T> = Result<T, ControlError>;

/// Why a stream operation failed with `StreamError::Io`.
#[derive(Debug, Clone, PartialEq, Eq)]
pub enum StreamIoCause {
    /// The device layer failed.
    Transport(TransportError),
    /// The streaming parameters could not be read from the device.
    Setup(ControlError),
}

/// An error of the stream plane.
#[derive(Debug, Clone, PartialEq, Eq)]
pub enum StreamError {
    /// Transport failure; fatal to the current block.
    Io(StreamIoCause),
    /// The device is gone.
    Disconnected,
    /// A transaction timed out.
    Timeout,
    /// The buffer handed in is smaller than the parameters ask for.
    BufferTooSmall,
    /// The block is framed wrongly or its chunk records do not add up.
    InvalidPayload(String),
    /// The operation is refused while the streaming loop runs.
    InStreaming,
    /// The channel shared with the streaming loop could not be had.
    Poisoned(String),
    /// The device does not follow the standard.
    InvalidDevice(&'static str),
}

/// Result of the stream plane.
pub type StreamResult<T> = Result<T, StreamError>;

/// A stream error with its messages as sequences of characters: what
/// contracts say of a `StreamError`.
pub ghost enum StreamErrorView {
    Io(StreamIoCause),
    Disconnected,
    Timeout,
    BufferTooSmall,
    InvalidPayload(Seq<char>),
    InStreaming,
    Poisoned(Seq<char>),
    InvalidDevice(Seq<char>),
}

impl View for StreamError {
    type V = StreamErrorView;

    open spec fn view(&self) -> StreamErrorView {
        match *self {
            StreamError::Io(cause) => StreamErrorView::Io(cause),
            StreamError::Disconnected => StreamErrorView::Disconnected,
            StreamError::Timeout => StreamErrorView::Timeout,
            StreamError::BufferTooSmall => StreamErrorView::BufferTooSmall,
            StreamError::InvalidPayload(message) => StreamErrorView::InvalidPayload(message@),
            StreamError::InStreaming => StreamErrorView::InStreaming,
            StreamError::Poisoned(message) => StreamErrorView::Poisoned(message@),
            StreamError::InvalidDevice(message) => StreamErrorView::InvalidDevice(message@),
        }
    }
}

/// A result of the stream plane with the error by its view.
pub open spec fn result_view<T>(res: StreamResult<T>) -> Result<T, StreamErrorView> {
    match res {
        Ok(value) => Ok(value),
        Err(e) => Err(e@),
    }
}

impl StreamError {
    /// Whether the error is fatal to the session: the transport failed or the
    /// device is gone.
    pub open spec fn spec_is_fatal(&self) -> bool {
        *self is Io || *self is Disconnected
    }

    /// Whether the error is fatal to the session. The streaming loop reports
    /// a leader that it could not read only where the error is fatal.
    pub fn is_fatal(&self) -> (fatal: bool)
        ensures
            fatal == self.spec_is_fatal(),
    {
        match self {
            StreamError::Io(_) | StreamError::Disconnected => true,
            _ => false,
        }
    }
}

/// The error of the control plane that a failure of the device layer
/// becomes: a busy device may be asked again, a device that is not there is
/// disconnected, a timeout stays one, a device that breaks the standard
/// is invalid, and everything else is a failure of input and output.
pub open spec fn control_error_of(err: TransportError) -> ControlError {
    match err {
        TransportError::LibUsb(e) => match e {
            LibUsbError::Busy => ControlError::Busy,
            LibUsbError::NoDevice | LibUsbError::NotFound => ControlError::Disconnected,
            LibUsbError::Timeout => ControlError::Timeout,
            _ => ControlError::Io(err),
        },
        TransportError::InvalidDevice => ControlError::InvalidDevice(MSG_INVALID_DEVICE),
        _ => ControlError::Io(err),
    }
}

/// The error of the stream plane that a failure of the device layer becomes:
/// what it becomes on the control plane, but that a busy device is a failure
/// of input and output here. A device that is not there is disconnected, a
/// timeout stays one, a device that breaks the standard is invalid, and
/// everything else is a failure of input and output.
pub open spec fn stream_error_of(err: TransportError) -> StreamError {
    match err {
        TransportError::LibUsb(e) => match e {
            LibUsbError::NoDevice | LibUsbError::NotFound => StreamError::Disconnected,
            LibUsbError::Timeout => StreamError::Timeout,
            _ => StreamError::Io(StreamIoCause::Transport(err)),
        },
        TransportError::InvalidDevice => StreamError::InvalidDevice(MSG_INVALID_DEVICE),
        _ => StreamError::Io(StreamIoCause::Transport(err)),
    }
}

/// Whether two errors, one of each plane, are of one kind.
pub open spec fn same_kind(control: ControlError, stream: StreamError) -> bool {
    match control {
        ControlError::Io(_) => stream is Io,
        ControlError::Busy => false,
        ControlError::Disconnected => stream is Disconnected,
        ControlError::Timeout => stream is Timeout,
        ControlError::InvalidDevice(message) => stream == StreamError::InvalidDevice(message),
    }
}

/// The two planes take a failure of the device layer for the same kind of
/// error, but for a busy device, which is a failure of input and output on
/// the stream.
pub proof fn lemma_planes_agree(err: TransportError)
    ensures
        err != TransportError::LibUsb(LibUsbError::Busy) ==> same_kind(
            control_error_of(err),
            stream_error_of(err),
        ),
        err == TransportError::LibUsb(LibUsbError::Busy) ==> control_error_of(err)
            == ControlError::Busy && stream_error_of(err) == StreamError::Io(
            StreamIoCause::Transport(err),
        ),
{
}

impl From<TransportError> for ControlError {
    fn from(err: TransportError) -> (res: ControlError) {
        match err {
            TransportError::LibUsb(e) => match e {
                LibUsbError::Busy => ControlError::Busy,
                LibUsbError::NoDevice | LibUsbError::NotFound => ControlError::Disconnected,
                LibUsbError::Timeout => ControlError::Timeout,
                _ => ControlError::Io(err),
            },
            TransportError::InvalidDevice => ControlError::InvalidDevice(MSG_INVALID_DEVICE),
            _ => ControlError::Io(err),
        }
    }
}

impl FromSpecImpl<TransportError> for ControlError {
    open spec fn obeys_from_spec() -> bool {
        true
    }

    open spec fn from_spec(err: TransportError) -> ControlError {
        control_error_of(err)
    }
}

impl From<TransportError> for StreamError {
    fn from(err: TransportError) -> (res: StreamError) {
        match err {
            TransportError::LibUsb(e) => match e {
                LibUsbError::NoDevice | LibUsbError::NotFound => StreamError::Disconnected,
                LibUsbError::Timeout => StreamError::Timeout,
                _ => StreamError::Io(StreamIoCause::Transport(err)),
            },
            TransportError::InvalidDevice => StreamError::InvalidDevice(MSG_INVALID_DEVICE),
            _ => StreamError::Io(StreamIoCause::Transport(err)),
        }
    }
}

impl FromSpecImpl<TransportError> for StreamError {
    open spec fn obeys_from_spec() -> bool {
        true
    }

    open spec fn from_spec(err: TransportError) -> StreamError {
        stream_error_of(err)
    }
}

} // verus!
