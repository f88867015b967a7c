//! The error taxonomy of the transport layer: I/O failures, framing errors,
//! protocol violations, device exceptions, and the fatal channel condition.

use vstd::prelude::*;

verus! {

/// Every failure the transport layer can report. All variants are absorbed
/// by the worker as a connection-health transition except `ChannelClosed`,
/// which is fatal.
#[derive(Debug, Clone, Copy, PartialEq, Eq, Structural)]
pub enum TransportError {
    /// A frame shorter than address + command + checksum.
    FrameTooShort,
    /// The recomputed checksum differs from the trailing checksum bytes.
    CrcMismatch { expected: u16, got: u16 },
    /// The serial device could not be opened.
    OpenFailed,
    /// The requested byte count did not arrive before the I/O deadline.
    ReadTimeout,
    /// The underlying link failed while reading.
    ReadFailed,
    /// The underlying link failed while writing or flushing.
    WriteFailed,
    /// A response carried an unexpected device address.
    AddressMismatch,
    /// A response carried an unexpected function code.
    FunctionMismatch,
    /// A response carried an unexpected command byte.
    CommandMismatch,
    /// The device answered with an explicit exception code.
    DeviceException { code: u8 },
    /// A read response announced a byte count other than the one requested.
    ByteCountMismatch,
    /// A frame's length disagrees with what its header announced.
    LengthMismatch,
    /// A write response echoed values other than the ones written.
    EchoMismatch,
    /// A write payload does not fit in a one-byte count field.
    PayloadTooLarge,
    /// A write payload with no bytes at all.
    PayloadEmpty,
    /// A write payload of odd length, which the protocol forbids.
    PayloadOdd,
    /// An item range outside the device's addressable window.
    RangeInvalid,
    /// A register read of zero registers.
    QuantityZero,
    /// A command that has no wire encoding on the selected backend.
    UnsupportedCommand,
    /// A serial interface was selected but no port path was given.
    PortRequired,
    /// The simulator backend was requested but is not enabled.
    SimulationUnavailable,
    /// The command channel was severed; the worker cannot continue.
    ChannelClosed,
}

impl TransportError {
    /// A short human-readable description of the failure.
    pub fn message(&self) -> String {
        match self {
            TransportError::FrameTooShort => "rtu frame too short".to_owned(),
            TransportError::CrcMismatch { .. } => "invalid frame crc".to_owned(),
            TransportError::OpenFailed => "open serial port failed".to_owned(),
            TransportError::ReadTimeout => "read timeout while waiting for bytes".to_owned(),
            TransportError::ReadFailed => "read failed".to_owned(),
            TransportError::WriteFailed => "write request failed".to_owned(),
            TransportError::AddressMismatch => "response address mismatch".to_owned(),
            TransportError::FunctionMismatch => "response function mismatch".to_owned(),
            TransportError::CommandMismatch => "response command mismatch".to_owned(),
            TransportError::DeviceException { .. } => "device exception".to_owned(),
            TransportError::ByteCountMismatch => "response byte count mismatch".to_owned(),
            TransportError::LengthMismatch => "response length mismatch".to_owned(),
            TransportError::EchoMismatch => "response echo mismatch".to_owned(),
            TransportError::PayloadTooLarge => "write payload too large".to_owned(),
            TransportError::PayloadEmpty => "write payload is empty".to_owned(),
            TransportError::PayloadOdd => "write payload must be even-length".to_owned(),
            TransportError::RangeInvalid => "invalid index range".to_owned(),
            TransportError::QuantityZero => "read quantity must be > 0".to_owned(),
            TransportError::UnsupportedCommand => "unsupported command for this backend".to_owned(),
            TransportError::PortRequired => {
                "serial port required unless using simulation interface".to_owned()
            },
            TransportError::SimulationUnavailable => "simulation interface is not enabled".to_owned(),
            TransportError::ChannelClosed => "command channel closed".to_owned(),
        }
    }
}

} // verus!
