//! The uniform handle to one live connection, and what is asked of it.

use crate::configuration::ProtocolCommunicationSpecifier;
use crate::errors::ButtplugDeviceError;
use crate::messages::Endpoint;
use vstd::prelude::*;

verus! {

/// Something a live connection reports to whoever listens.
#[derive(Debug, Clone, PartialEq, Eq)]
pub enum HardwareEvent {
    /// The connection is up.
    Connected,
    /// The connection to the device with this identifier is gone.
    Disconnected(String),
    /// Bytes arrived on an endpoint that was subscribed to.
    Notification(Endpoint, Vec<u8>),
}

/// Read from an endpoint.
#[derive(Debug, Clone, Copy, PartialEq, Eq, Structural)]
pub struct HardwareReadCmd {
    pub endpoint: Endpoint,
    pub length: u32,
    pub timeout_ms: u32,
}

/// Write bytes to an endpoint.
#[derive(Debug, Clone, PartialEq, Eq)]
pub struct HardwareWriteCmd {
    pub endpoint: Endpoint,
    pub data: Vec<u8>,
    pub write_with_response: bool,
}

/// Start the notifications of an endpoint.
#[derive(Debug, Clone, Copy, PartialEq, Eq, Structural)]
pub struct HardwareSubscribeCmd {
    pub endpoint: Endpoint,
}

/// Stop the notifications of an endpoint.
#[derive(Debug, Clone, Copy, PartialEq, Eq, Structural)]
pub struct HardwareUnsubscribeCmd {
    pub endpoint: Endpoint,
}

/// One operation on a hardware handle, as a protocol asks for it.
#[derive(Debug, Clone, PartialEq, Eq)]
pub enum HardwareCommand {
    Read(HardwareReadCmd),
    Write(HardwareWriteCmd),
    Subscribe(HardwareSubscribeCmd),
    Unsubscribe(HardwareUnsubscribeCmd),
}

/// One live connection: a name, an address, the endpoints it declares, and
/// the transport's own state behind it.
#[derive(Debug)]
pub struct Hardware<I> {
    name: String,
    address: String,
    endpoints: Vec<Endpoint>,
    internal: I,
}

/// A `Hardware` as a mathematical value.
pub struct HardwareView<I> {
    pub name: Seq<char>,
    pub address: Seq<char>,
    pub endpoints: Seq<Endpoint>,
    pub internal: I,
}

impl<I> View for Hardware<I> {
    type V = HardwareView<I>;

    closed spec fn view(&self) -> HardwareView<I> {
        HardwareView {
            name: self.name@,
            address: self.address@,
            endpoints: self.endpoints@,
            internal: self.internal,
        }
    }
}

impl<I> Hardware<I> {
    pub fn new(name: &str, address: &str, endpoints: Vec<Endpoint>, internal: I) -> (hardware: Self)
        ensures
            hardware@ == (HardwareView {
                name: name@,
                address: address@,
                endpoints: endpoints@,
                internal,
            }),
    {
        Hardware { name: name.to_owned(), address: address.to_owned(), endpoints, internal }
    }

    pub fn name(&self) -> (name: &str)
        ensures
            name@ == self@.name,
    {
        self.name.as_str()
    }

    pub fn address(&self) -> (address: &str)
        ensures
            address@ == self@.address,
    {
        self.address.as_str()
    }

    pub fn endpoints(&self) -> (endpoints: &Vec<Endpoint>)
        ensures
            endpoints@ == self@.endpoints,
    {
        &self.endpoints
    }

    pub fn internal(&self) -> (internal: &I)
        ensures
            *internal == self@.internal,
    {
        &self.internal
    }
}

/// The specializer of transports that need no negotiation after the
/// handshake: it hands out the handle it was made with.
#[derive(Debug)]
pub struct GenericHardwareSpecializer<I> {
    hardware: Hardware<I>,
}

impl<I> GenericHardwareSpecializer<I> {
    /// The handle that `specialize` will yield.
    pub closed spec fn hardware(&self) -> Hardware<I> {
        self.hardware
    }

    pub fn new(hardware: Hardware<I>) -> (specializer: Self)
        ensures
            specializer.hardware() == hardware,
    {
        GenericHardwareSpecializer { hardware }
    }

    /// Ends the connection attempt: always succeeds, whatever the specifiers.
    pub fn specialize(self, specifiers: &Vec<ProtocolCommunicationSpecifier>) -> (outcome: Result<
        Hardware<I>,
        ButtplugDeviceError,
    >)
        ensures
            outcome matches Ok(hardware) && hardware == self.hardware(),
    {
        Ok(self.hardware)
    }
}

} // verus!
