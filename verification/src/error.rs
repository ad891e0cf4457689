//! Error taxonomy of the driver.
//!
//! Every fallible operation returns one of these tagged conditions, each
//! carrying enough context (the operation or the feature concerned) to
//! diagnose a failure without a stack trace.  Transport failures carry the
//! underlying libusb error, rendered to text, together with the call that
//! raised it.

use vstd::prelude::*;

verus! {

/// Names the operation that timed out or answered unexpectedly.
#[derive(Clone, Copy, Debug, PartialEq, Eq, Structural)]
pub enum Operation {
    SyncDelay,
    BulkRead,
    BulkWrite,
}

/// Names a capability the device did not advertise.
#[derive(Clone, Copy, Debug, PartialEq, Eq, Structural)]
pub enum Feature {
    VeriComm,
    UsbHotplug,
}

/// Why a bitstream file was rejected.
#[derive(Clone, Copy, Debug, PartialEq, Eq, Structural)]
pub enum BitstreamFault {
    /// A byte that is neither a hexadecimal digit, an underscore, a space nor
    /// a tab appeared in a line.
    NonHexByte,
    /// The file decoded to no words at all; a valid bitstream is never empty.
    Empty,
}

/// The libusb call during which a transport error occurred.
#[derive(Clone, Copy, Debug, PartialEq, Eq, Structural)]
pub enum UsbCall {
    Init,
    Reset,
    ClaimInterface,
    ClearHalt,
    ReleaseInterface,
    BulkTransfer,
}

/// A failure of a driver operation.
#[derive(Clone, Debug, PartialEq, Eq)]
pub enum Error {
    /// An operation that needs an open session ran against a closed one.
    DeviceNotOpen,
    /// No device with the given identity was attached.
    DeviceNotFound { vid: u16, pid: u16 },
    /// The device does not advertise the capability the operation needs.
    FeatureUnavailable(Feature),
    /// The bitstream text could not be decoded.
    InvalidBitfile(BitstreamFault),
    /// The "programmed" status bit is clear where it had to be set.
    NotProgrammed,
    /// A deadline elapsed before the device became ready.
    Timeout(Operation),
    /// A transfer succeeded with a nonsensical result (a zero-length bulk
    /// transfer).
    UnexpectedResponse(Operation),
    /// The device's firmware version is below the supported minimum.
    VersionMismatch { expected: u16, actual: u16 },
    /// The underlying USB transport failed; `detail` is the libusb error
    /// rendered to text.
    Usb { context: UsbCall, detail: String },
}

} // verus!
