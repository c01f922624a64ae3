//! The failures a workload can end in.

use vstd::prelude::*;

verus! {

/// Why a workload stopped. No failure is retried: each one ends the workload.
///
/// A missing device, a rejected kernel source and a failing image codec show
/// where the caller talks to the device or the codec, and it is the caller
/// who reports them; the other failures are found by this library.
#[derive(Debug, PartialEq, Eq)]
pub enum ComputeError {
    /// No compute device is present.
    DeviceUnavailable,
    /// The device rejected the kernel source; the text is its compile log.
    CompileError(String),
    /// A host array does not have the length of the device object it is
    /// copied to or from.
    SizeMismatch { expected: usize, actual: usize },
    /// The device refused to map a result region for reading.
    MapFailure,
    /// An image could not be decoded or encoded.
    IoFailure,
    /// A global work extent is not a whole number of work-groups.
    InvalidWorkShape,
    /// A device object would be empty, or too large to address.
    InvalidExtent,
}

} // verus!
