//! A device: one protocol paired with one hardware handle, under an identity
//! that is fixed when the two are put together.

use crate::configuration::{
    ProtocolAttributesIdentifier,
    ProtocolDeviceIdentifier,
    ProtocolDeviceIdentifierView,
};
use crate::display_name::{cell_content, cell_get, cell_new, cell_set, content_after_write};
use crate::errors::{ButtplugDeviceError, ButtplugError};
use crate::hardware::{Hardware, HardwareCommand};
use crate::messages::{
    ButtplugDeviceCommandMessageUnion,
    DeviceMessageAttributesMap,
    Endpoint,
    RawSubscribeCmd,
};
use crate::protocol::ButtplugProtocol;
use once_cell::sync::OnceCell;
use std::sync::Arc;
use vstd::prelude::*;
use vstd::std_specs::cmp::PartialEqSpecImpl;
use vstd::string::*;

verus! {

/// What is appended to the name of a device that takes raw commands.
pub open spec fn raw_messages_suffix() -> Seq<char> {
    " (Raw Messages Allowed)"@
}

/// The command that probes a protocol for raw access. A protocol that allows
/// raw commands allows them on every endpoint, so any one of them will do.
pub open spec fn raw_subscribe_probe() -> ButtplugDeviceCommandMessageUnion {
    ButtplugDeviceCommandMessageUnion::RawSubscribeCmd(
        RawSubscribeCmd { device_index: 1, endpoint: Endpoint::Tx },
    )
}

/// The name of a device, from the name its protocol declares and whether the
/// protocol takes raw commands.
pub open spec fn device_name(protocol_name: Seq<char>, raw_allowed: bool) -> Seq<char> {
    if raw_allowed {
        protocol_name + raw_messages_suffix()
    } else {
        protocol_name
    }
}

/// Whether a text ends with another.
pub open spec fn ends_with(text: Seq<char>, suffix: Seq<char>) -> bool {
    text.len() >= suffix.len() && text.subrange(text.len() - suffix.len(), text.len() as int)
        == suffix
}

/// `Arc::clone`: one more owner of the same value. The new handle points to
/// what the given one points to.
#[verifier::external_body]
fn share<T>(handle: &Arc<T>) -> (shared: Arc<T>)
    ensures
        shared == *handle,
{
    Arc::clone(handle)
}

/// One connected and initialized device.
pub struct ButtplugDevice<P: ButtplugProtocol<I>, I> {
    /// Knows what the commands addressed to the device mean for its hardware.
    protocol: P,
    /// The live connection, shared with whoever else works on it.
    device: Arc<Hardware<I>>,
    /// The name a user gave to the device, if any.
    display_name: OnceCell<String>,
    /// Identifies the device as long as it exists.
    device_identifier: ProtocolDeviceIdentifier,
}

/// The name of a device whose protocol declares `protocol_name` and answers
/// the probe for raw access with `raw_probe`.
pub fn name_with_raw_warning(
    protocol_name: &str,
    raw_probe: &Result<(), ButtplugError>,
) -> (name: String)
    ensures
        name@ == device_name(protocol_name@, raw_probe is Ok),
{
    let mut name = protocol_name.to_owned();
    if raw_probe.is_ok() {
        name.append(" (Raw Messages Allowed)");
    }
    name
}

impl<P: ButtplugProtocol<I>, I> ButtplugDevice<P, I> {
    /// The protocol of the device.
    pub closed spec fn protocol(&self) -> P {
        self.protocol
    }

    /// The hardware handle of the device.
    pub closed spec fn hardware(&self) -> Hardware<I> {
        *self.device
    }

    /// The name a user gave to the device, if any.
    pub closed spec fn display_name_spec(&self) -> Option<Seq<char>> {
        cell_content(self.display_name)
    }

    /// The identity of the device.
    pub closed spec fn identifier(&self) -> ProtocolDeviceIdentifierView {
        self.device_identifier@
    }

    /// Whether an identity is the one of a protocol on a hardware handle: the
    /// handle's address, with what the protocol gives as its two identifiers.
    pub open spec fn identifies(
        identifier: ProtocolDeviceIdentifierView,
        protocol: P,
        hardware: Hardware<I>,
    ) -> bool {
        &&& identifier.address == hardware@.address
        &&& exists|name: &str| #[trigger]
            call_ensures(P::protocol_identifier, (&protocol,), name) && identifier.protocol == name@
        &&& exists|attributes: &ProtocolAttributesIdentifier| #[trigger]
            call_ensures(P::protocol_attributes_identifier, (&protocol,), attributes)
                && identifier.attributes_identifier == attributes@
    }

    fn new(protocol: P, device: Arc<Hardware<I>>) -> (created: Self)
        ensures
            created.protocol() == protocol,
            created.hardware() == *device,
            created.display_name_spec() is None,
            Self::identifies(created.identifier(), protocol, *device),
    {
        let device_identifier = ProtocolDeviceIdentifier::new(
            device.address(),
            protocol.protocol_identifier(),
            protocol.protocol_attributes_identifier(),
        );
        ButtplugDevice { device_identifier, protocol, device, display_name: cell_new() }
    }

    /// First stage of making a device: takes what the hardware connector
    /// yielded. A failure is passed on as it is; a handle is made ready to be
    /// shared between the device and the protocol that is set up next.
    pub fn connected_hardware(connection: Result<Hardware<I>, ButtplugDeviceError>) -> (outcome: Result<
        Arc<Hardware<I>>,
        ButtplugError,
    >)
        ensures
            match connection {
                Ok(hardware) => outcome matches Ok(shared) && *shared == hardware,
                Err(error) => outcome matches Err(ButtplugError::ButtplugDeviceError(passed))
                    && passed == error,
            },
    {
        match connection {
            Ok(hardware) => Ok(Arc::new(hardware)),
            Err(error) => Err(ButtplugError::ButtplugDeviceError(error)),
        }
    }

    /// Second stage of making a device: takes the shared handle and what the
    /// protocol factory made for it. A failure of the factory is passed on as
    /// it is. Where no protocol claimed the hardware there is no device, which
    /// is no error. Otherwise the device is there, without a display name, and
    /// its identity is fixed from the handle and the protocol.
    pub fn try_create_device(
        device: Arc<Hardware<I>>,
        protocol: Result<Option<P>, ButtplugError>,
    ) -> (outcome: Result<Option<Self>, ButtplugError>)
        ensures
            match protocol {
                Err(error) => outcome matches Err(passed) && passed == error,
                Ok(None) => outcome matches Ok(None),
                Ok(Some(matched)) => {
                    &&& outcome matches Ok(Some(created))
                    &&& created.protocol() == matched
                    &&& created.hardware() == *device
                    &&& created.display_name_spec() is None
                    &&& Self::identifies(created.identifier(), matched, *device)
                },
            },
    {
        match protocol {
            Err(error) => Err(error),
            Ok(None) => Ok(None),
            Ok(Some(matched)) => Ok(Some(ButtplugDevice::new(matched, device))),
        }
    }

    /// The identity of the device: always the one it was created with.
    pub fn device_identifier(&self) -> (identifier: &ProtocolDeviceIdentifier)
        ensures
            identifier@ == self.identifier(),
    {
        &self.device_identifier
    }

    /// The address of the hardware handle.
    pub fn device_impl_address(&self) -> (address: &str)
        ensures
            address@ == self.hardware()@.address,
    {
        self.device.address()
    }

    /// The identifier of the protocol, as the protocol gives it.
    pub fn protocol_identifier(&self) -> (identifier: &str)
        ensures
            call_ensures(P::protocol_identifier, (&self.protocol(),), identifier),
    {
        self.protocol.protocol_identifier()
    }

    /// The attribute set of the protocol, as the protocol gives it.
    pub fn protocol_attributes_identifier(&self) -> (identifier: &ProtocolAttributesIdentifier)
        ensures
            call_ensures(P::protocol_attributes_identifier, (&self.protocol(),), identifier),
    {
        self.protocol.protocol_attributes_identifier()
    }

    /// The hardware handle, for whoever performs the operations on it.
    pub fn device_impl(&self) -> (device: &Arc<Hardware<I>>)
        ensures
            **device == self.hardware(),
    {
        &self.device
    }

    /// The name a user gave to the device, if one was given.
    pub fn display_name(&self) -> (name: Option<String>)
        ensures
            name is Some <==> self.display_name_spec() is Some,
            name matches Some(text) ==> self.display_name_spec() == Some(text@),
    {
        match cell_get(&self.display_name) {
            Some(text) => Some(text.clone()),
            None => None,
        }
    }

    /// Gives the device a display name, unless it has one: the first name
    /// given stays. Tells whether the name was taken. Nothing else about the
    /// device changes.
    pub fn set_display_name(&mut self, name: String) -> (taken: bool)
        ensures
            taken <==> old(self).display_name_spec() is None,
            final(self).display_name_spec() == content_after_write(
                old(self).display_name_spec(),
                name@,
            ),
            final(self).identifier() == old(self).identifier(),
            final(self).protocol() == old(self).protocol(),
            final(self).hardware() == old(self).hardware(),
    {
        cell_set(&mut self.display_name, name).is_ok()
    }

    /// The name of the device as its protocol declares it, followed by a
    /// warning if the protocol takes raw commands. Whether it does is found by
    /// asking the protocol about a raw subscription; nothing is sent to the
    /// device.
    pub fn name(&self) -> (name: String)
        ensures
            exists|protocol_name: &str, raw_probe: Result<(), ButtplugError>|
                {
                    &&& #[trigger] call_ensures(P::name, (&self.protocol(),), protocol_name)
                    &&& #[trigger] call_ensures(
                        P::supports_message,
                        (&self.protocol(), &raw_subscribe_probe()),
                        raw_probe,
                    )
                    &&& name@ == device_name(protocol_name@, raw_probe is Ok)
                },
    {
        let probe = ButtplugDeviceCommandMessageUnion::RawSubscribeCmd(
            RawSubscribeCmd::new(1, Endpoint::Tx),
        );
        let raw_probe = self.protocol.supports_message(&probe);
        let protocol_name = self.protocol.name();
        name_with_raw_warning(protocol_name, &raw_probe)
    }

    /// The commands the device accepts, as its protocol declares them.
    pub fn message_attributes(&self) -> (attributes: DeviceMessageAttributesMap)
        ensures
            call_ensures(P::message_attributes, (&self.protocol(),), attributes),
    {
        self.protocol.message_attributes()
    }

    /// Routes a command of a client to the protocol. The protocol is first
    /// asked whether the device variant accepts the command. If it does not,
    /// the protocol's error is the answer and the command goes no further.
    /// If it does, the answer is what the protocol makes of the command for
    /// the hardware handle of the device.
    pub fn parse_message(&self, message: ButtplugDeviceCommandMessageUnion) -> (outcome: Result<
        Vec<HardwareCommand>,
        ButtplugError,
    >)
        ensures
            exists|verdict: Result<(), ButtplugError>| #[trigger]
                call_ensures(P::supports_message, (&self.protocol(), &message), verdict)
                    && Self::routed(self.protocol(), self.hardware(), message, verdict, outcome),
    {
        match self.protocol.supports_message(&message) {
            Err(error) => Err(error),
            Ok(()) => self.protocol.handle_command(share(&self.device), message),
        }
    }

    /// How the answer to a command follows from the protocol's verdict on it.
    pub open spec fn routed(
        protocol: P,
        hardware: Hardware<I>,
        message: ButtplugDeviceCommandMessageUnion,
        verdict: Result<(), ButtplugError>,
        outcome: Result<Vec<HardwareCommand>, ButtplugError>,
    ) -> bool {
        match verdict {
            Err(error) => outcome matches Err(passed) && passed == error,
            Ok(_) => exists|device: Arc<Hardware<I>>| *device == hardware && #[trigger]
                call_ensures(P::handle_command, (&protocol, device, message), outcome),
        }
    }
}

impl<P: ButtplugProtocol<I>, I> PartialEq for ButtplugDevice<P, I> {
    /// Two devices are the same device when their identities are equal.
    fn eq(&self, other: &Self) -> (equal: bool) {
        self.device_identifier == other.device_identifier
    }
}

impl<P: ButtplugProtocol<I>, I> PartialEqSpecImpl for ButtplugDevice<P, I> {
    open spec fn obeys_eq_spec() -> bool {
        true
    }

    open spec fn eq_spec(&self, other: &Self) -> bool {
        self.identifier() == other.identifier()
    }
}

impl<P: ButtplugProtocol<I>, I> Eq for ButtplugDevice<P, I> {

}

/// Whether a protocol gives the same name, and the same answer to the probe
/// for raw access, every time it is asked.
pub open spec fn answers_alike<P: ButtplugProtocol<I>, I>(protocol: P) -> bool {
    &&& forall|one: &str, other: &str|
        #![trigger call_ensures(P::name, (&protocol,), one), call_ensures(P::name, (&protocol,), other)]
        call_ensures(P::name, (&protocol,), one) && call_ensures(P::name, (&protocol,), other)
            ==> one@ == other@
    &&& forall|one: Result<(), ButtplugError>, other: Result<(), ButtplugError>|
        #![trigger
            call_ensures(P::supports_message, (&protocol, &raw_subscribe_probe()), one),
            call_ensures(P::supports_message, (&protocol, &raw_subscribe_probe()), other),
        ]
        call_ensures(P::supports_message, (&protocol, &raw_subscribe_probe()), one)
            && call_ensures(P::supports_message, (&protocol, &raw_subscribe_probe()), other) ==> (one is Ok
            <==> other is Ok)
}

/// Whether a protocol answers a command with nothing but an unhandled-command
/// error: the device variant does not accept the command.
pub open spec fn is_unhandled_by<P: ButtplugProtocol<I>, I>(
    protocol: P,
    message: ButtplugDeviceCommandMessageUnion,
) -> bool {
    forall|verdict: Result<(), ButtplugError>| #[trigger]
        call_ensures(P::supports_message, (&protocol, &message), verdict) ==> verdict matches Err(
            ButtplugError::ButtplugDeviceError(ButtplugDeviceError::UnhandledCommand(_)),
        )
}

/// The name of a device depends on nothing but its protocol: with a protocol
/// that answers alike every time, any two calls of `name` give the same name,
/// whatever was done with the device in between.
pub proof fn lemma_name_is_stable<P: ButtplugProtocol<I>, I>(
    before: ButtplugDevice<P, I>,
    after: ButtplugDevice<P, I>,
    first: String,
    second: String,
)
    requires
        answers_alike::<P, I>(before.protocol()),
        after.protocol() == before.protocol(),
        call_ensures(ButtplugDevice::<P, I>::name, (&before,), first),
        call_ensures(ButtplugDevice::<P, I>::name, (&after,), second),
    ensures
        first@ == second@,
{
}

/// A command that the device variant does not accept is answered with an
/// unhandled-command error: never with hardware operations to perform.
pub proof fn lemma_unhandled_command_fails<P: ButtplugProtocol<I>, I>(
    device: ButtplugDevice<P, I>,
    message: ButtplugDeviceCommandMessageUnion,
    outcome: Result<Vec<HardwareCommand>, ButtplugError>,
)
    requires
        is_unhandled_by::<P, I>(device.protocol(), message),
        call_ensures(ButtplugDevice::<P, I>::parse_message, (&device, message), outcome),
    ensures
        outcome matches Err(
            ButtplugError::ButtplugDeviceError(ButtplugDeviceError::UnhandledCommand(_)),
        ),
{
}

/// A device whose protocol name does not itself end with the warning carries
/// the warning at the end of its name exactly when the protocol takes raw
/// commands.
pub proof fn lemma_raw_suffix_rule(protocol_name: Seq<char>, raw_allowed: bool)
    requires
        !ends_with(protocol_name, raw_messages_suffix()),
    ensures
        ends_with(device_name(protocol_name, raw_allowed), raw_messages_suffix()) <==> raw_allowed,
{
    if raw_allowed {
        let name = protocol_name + raw_messages_suffix();
        assert(name.subrange(name.len() - raw_messages_suffix().len(), name.len() as int)
            == raw_messages_suffix());
    }
}

} // verus!
