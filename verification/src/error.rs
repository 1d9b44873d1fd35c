//! The error taxonomy of a render call.
//!
//! Every failure a render can hit is one of these kinds; none is
//! recoverable, and no partial pixel buffer is ever returned alongside one.

use vstd::prelude::*;

verus! {

/// Why a render call failed. Exactly one of these is produced on every
/// failing path, and a pixel buffer is produced on none of them.
#[derive(Clone, Copy, Debug, PartialEq, Eq, Structural)]
pub enum RenderError {
    /// No compatible adapter was found (environment error).
    NoAdapter,
    /// The adapter refused the device request (environment error).
    NoDevice,
    /// The shader failed to compile or bind (compilation error).
    ShaderCompilation,
    /// The driver reported an internal fault (device runtime error).
    InternalDriver,
    /// The device ran out of memory (device runtime error).
    OutOfMemory,
    /// The device rejected submitted work as invalid (device runtime error).
    Validation,
    /// The device was lost while waiting for readback (device runtime error).
    DeviceLost,
    /// The caller asked for a zero-pixel image (caller-input error).
    InvalidResolution,
}

/// The fault classes a live device can report through its error callback.
#[derive(Clone, Copy, Debug, PartialEq, Eq, Structural)]
pub enum DeviceFaultKind {
    /// An internal driver fault.
    InternalDriver,
    /// GPU memory exhaustion.
    OutOfMemory,
    /// A validation violation in submitted work.
    Validation,
}

/// The error that a device-reported fault of the given kind turns into.
pub open spec fn fault_error(kind: DeviceFaultKind) -> RenderError {
    match kind {
        DeviceFaultKind::InternalDriver => RenderError::InternalDriver,
        DeviceFaultKind::OutOfMemory => RenderError::OutOfMemory,
        DeviceFaultKind::Validation => RenderError::Validation,
    }
}

/// Turns a device-reported fault into the render error it stands for.
pub fn classify_fault(kind: DeviceFaultKind) -> (r: RenderError)
    ensures
        r == fault_error(kind),
{
    match kind {
        DeviceFaultKind::InternalDriver => RenderError::InternalDriver,
        DeviceFaultKind::OutOfMemory => RenderError::OutOfMemory,
        DeviceFaultKind::Validation => RenderError::Validation,
    }
}

} // verus!
