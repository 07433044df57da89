//! What a protocol must offer to be paired with a hardware handle.

use crate::configuration::ProtocolAttributesIdentifier;
use crate::errors::ButtplugError;
use crate::hardware::{Hardware, HardwareCommand};
use crate::messages::{ButtplugDeviceCommandMessageUnion, DeviceMessageAttributesMap};
use std::sync::Arc;
use vstd::prelude::*;

verus! {

/// Turns the commands of clients into operations on the hardware handle of
/// one device family. `I` is the transport state behind the handle.
///
/// Nothing is assumed of an implementation: what a device does with a
/// protocol is stated for whatever the protocol answers.
pub trait ButtplugProtocol<I> {
    /// The name the protocol declares for the device.
    fn name(&self) -> &str;

    /// The identifier of the protocol.
    fn protocol_identifier(&self) -> &str;

    /// The attribute set this instance was made for.
    fn protocol_attributes_identifier(&self) -> &ProtocolAttributesIdentifier;

    /// Checks a command against the device variant, without touching the
    /// device: `Ok` if the variant accepts the command, else the error that
    /// answers it.
    fn supports_message(&self, message: &ButtplugDeviceCommandMessageUnion) -> Result<
        (),
        ButtplugError,
    >;

    /// The commands this device variant accepts.
    fn message_attributes(&self) -> DeviceMessageAttributesMap;

    /// Turns a command into the hardware operations that carry it out, or
    /// says why there are none.
    fn handle_command(
        &self,
        device: Arc<Hardware<I>>,
        message: ButtplugDeviceCommandMessageUnion,
    ) -> Result<Vec<HardwareCommand>, ButtplugError>;
}

} // verus!
