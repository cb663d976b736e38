//! The library's error taxonomy, and how the USB stack's error values map
//! into it.

use vstd::prelude::*;

verus! {

/// Every failure a caller can see, one variant per distinguishable outcome.
#[derive(Clone, Copy, Debug, PartialEq, Eq, Structural)]
pub enum UsbError {
    /// No attached device matches the requested vendor/product pair.
    NotFound,
    /// The active configuration exposes no usable bulk IN/OUT endpoint pair.
    NoBulkEndpoint,
    /// The stack could not open a handle to the device.
    OpenFailed,
    /// A kernel driver was active and detaching it failed.
    DetachFailed,
    /// Claiming the interface failed.
    ClaimFailed,
    /// A read or write did not complete, for a reason other than a timeout.
    TransferFailed,
    /// A read or write timed out.
    Timeout,
    /// A descriptor of the selected device, or of some device during a
    /// fail-fast enumeration, could not be read.
    DescriptorReadFailed,
}

/// The USB stack's error values, mirrored one variant for one so that
/// verified code can branch on them.
#[derive(Clone, Copy, Debug, PartialEq, Eq, Structural)]
pub enum BackendErrorKind {
    Io,
    InvalidParam,
    Access,
    NoDevice,
    NotFound,
    Busy,
    Timeout,
    Overflow,
    Pipe,
    Interrupted,
    NoMem,
    NotSupported,
    BadDescriptor,
    Other,
}

/// How a failed bulk transfer is reported: a timeout keeps its identity,
/// every other stack error is a plain transfer failure.
pub open spec fn spec_transfer_error(kind: BackendErrorKind) -> UsbError {
    if kind == BackendErrorKind::Timeout {
        UsbError::Timeout
    } else {
        UsbError::TransferFailed
    }
}

/// Maps a stack error raised by a bulk transfer into the taxonomy.
pub fn transfer_error(kind: BackendErrorKind) -> (r: UsbError)
    ensures
        r == spec_transfer_error(kind),
{
    match kind {
        BackendErrorKind::Timeout => UsbError::Timeout,
        _ => UsbError::TransferFailed,
    }
}

/// Pins one negotiation step's failure to its error identity: the stack's
/// success value is handed through unchanged, its failure becomes exactly
/// the given kind.
pub fn step_outcome<T>(step: Result<T, rusb::Error>, kind: UsbError) -> (r: Result<T, UsbError>)
    ensures
        r is Err <==> step is Err,
        r matches Err(e) ==> e == kind,
        r matches Ok(v) ==> (step matches Ok(w) && w == v),
{
    match step {
        Ok(v) => Ok(v),
        Err(_) => Err(kind),
    }
}

/// The errors that opening a session can surface.
pub open spec fn is_open_error(e: UsbError) -> bool {
    ||| e == UsbError::NotFound
    ||| e == UsbError::NoBulkEndpoint
    ||| e == UsbError::OpenFailed
    ||| e == UsbError::DetachFailed
    ||| e == UsbError::ClaimFailed
    ||| e == UsbError::DescriptorReadFailed
}

/// The errors that a bulk transfer can surface.
pub open spec fn is_transfer_error(e: UsbError) -> bool {
    e == UsbError::Timeout || e == UsbError::TransferFailed
}

} // verus!
