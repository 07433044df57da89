//! Error kinds shared by devices, transports and communication managers.

use vstd::prelude::*;

verus! {

/// Why an operation on a device, a transport or a communication manager failed.
#[derive(Debug, Clone, PartialEq, Eq)]
pub enum ButtplugDeviceError {
    /// A control message could not be delivered to the background task that
    /// owns the device or manager; the owner is unusable until re-created.
    DeviceNotAvailable(String),
    /// The operation is not supported by this transport, protocol or device
    /// variant, or the outbound call it needed did not succeed.
    UnhandledCommand(String),
    /// The transport handshake or the protocol initialization failed.
    DeviceConnectionError(String),
}

/// Errors handed to the rest of the server.
#[derive(Debug, Clone, PartialEq, Eq)]
pub enum ButtplugError {
    /// A device-level failure.
    ButtplugDeviceError(ButtplugDeviceError),
    /// A command that is malformed for the device it was sent to.
    ButtplugMessageError(String),
}

impl From<ButtplugDeviceError> for ButtplugError {
    fn from(error: ButtplugDeviceError) -> (wrapped: ButtplugError) {
        ButtplugError::ButtplugDeviceError(error)
    }
}

impl vstd::std_specs::convert::FromSpecImpl<ButtplugDeviceError> for ButtplugError {
    open spec fn obeys_from_spec() -> bool {
        true
    }

    open spec fn from_spec(error: ButtplugDeviceError) -> ButtplugError {
        ButtplugError::ButtplugDeviceError(error)
    }
}

} // verus!
