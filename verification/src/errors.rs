use vstd::prelude::*;

verus! {

/// Why a single device refused an operation.
///
/// Construction-time errors (`ConfigurationError`) and lifecycle-time errors
/// (the rest) are distinct members of this taxonomy: an oversized address is
/// reported when the device is built, never later.
#[derive(Clone, Copy, Debug, PartialEq, Eq, Structural)]
pub enum DeviceError {
    /// An address or broadcast buffer exceeded its fixed capacity at
    /// construction time.
    ConfigurationError,
    /// `open` was called on a device whose Up bit was already set.
    AlreadyOpenError,
    /// `close` or `output` was called on a device whose Up bit was unset.
    NotOpenError,
    /// `output` was called with a payload longer than the device's MTU.
    PayloadTooLargeError,
}

/// Why the registry refused an operation.
#[derive(Clone, Copy, Debug, PartialEq, Eq, Structural)]
pub enum RegistryError {
    /// A bulk operation was attempted on a registry with no devices.
    EmptyRegistryError,
    /// A handle did not refer to any registered device.
    IndexOutOfRangeError,
    /// One device refused; `handle` says which device and `error` says why.
    DeviceFailure { handle: usize, error: DeviceError },
}

} // verus!
