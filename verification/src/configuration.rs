//! Identifiers and specifiers exchanged with the device configuration.

use vstd::prelude::*;
use vstd::std_specs::cmp::PartialEqSpecImpl;

verus! {

/// Selects one attribute set among those a protocol offers.
#[derive(Debug, Hash)]
pub enum ProtocolAttributesIdentifier {
    /// The attributes every device of the protocol shares.
    Default,
    /// Attributes of one device variant, named by a device-specific string.
    Identifier(String),
}

/// A `ProtocolAttributesIdentifier` as a mathematical value.
pub enum ProtocolAttributesIdentifierView {
    Default,
    Identifier(Seq<char>),
}

impl View for ProtocolAttributesIdentifier {
    type V = ProtocolAttributesIdentifierView;

    open spec fn view(&self) -> ProtocolAttributesIdentifierView {
        match self {
            ProtocolAttributesIdentifier::Default => ProtocolAttributesIdentifierView::Default,
            ProtocolAttributesIdentifier::Identifier(name) => ProtocolAttributesIdentifierView::Identifier(
                name@,
            ),
        }
    }
}

impl Clone for ProtocolAttributesIdentifier {
    fn clone(&self) -> (copy: Self)
        ensures
            copy@ == self@,
    {
        match self {
            ProtocolAttributesIdentifier::Default => ProtocolAttributesIdentifier::Default,
            ProtocolAttributesIdentifier::Identifier(name) => ProtocolAttributesIdentifier::Identifier(
                name.clone(),
            ),
        }
    }
}

impl PartialEq for ProtocolAttributesIdentifier {
    fn eq(&self, other: &Self) -> (equal: bool) {
        match self {
            ProtocolAttributesIdentifier::Default => match other {
                ProtocolAttributesIdentifier::Default => true,
                ProtocolAttributesIdentifier::Identifier(_) => false,
            },
            ProtocolAttributesIdentifier::Identifier(name) => match other {
                ProtocolAttributesIdentifier::Default => false,
                ProtocolAttributesIdentifier::Identifier(other_name) => *name == *other_name,
            },
        }
    }
}

impl PartialEqSpecImpl for ProtocolAttributesIdentifier {
    open spec fn obeys_eq_spec() -> bool {
        true
    }

    open spec fn eq_spec(&self, other: &Self) -> bool {
        self@ == other@
    }
}

impl Eq for ProtocolAttributesIdentifier {

}

/// Identifies one device for as long as it stays connected: the transport
/// address, the protocol and the attribute set it was paired with.
#[derive(Debug, Hash)]
pub struct ProtocolDeviceIdentifier {
    address: String,
    protocol: String,
    attributes_identifier: ProtocolAttributesIdentifier,
}

/// A `ProtocolDeviceIdentifier` as a mathematical value.
pub struct ProtocolDeviceIdentifierView {
    pub address: Seq<char>,
    pub protocol: Seq<char>,
    pub attributes_identifier: ProtocolAttributesIdentifierView,
}

impl View for ProtocolDeviceIdentifier {
    type V = ProtocolDeviceIdentifierView;

    closed spec fn view(&self) -> ProtocolDeviceIdentifierView {
        ProtocolDeviceIdentifierView {
            address: self.address@,
            protocol: self.protocol@,
            attributes_identifier: self.attributes_identifier@,
        }
    }
}

impl ProtocolDeviceIdentifier {
    pub fn new(
        address: &str,
        protocol: &str,
        attributes_identifier: &ProtocolAttributesIdentifier,
    ) -> (identifier: Self)
        ensures
            identifier@ == (ProtocolDeviceIdentifierView {
                address: address@,
                protocol: protocol@,
                attributes_identifier: attributes_identifier@,
            }),
    {
        ProtocolDeviceIdentifier {
            address: address.to_owned(),
            protocol: protocol.to_owned(),
            attributes_identifier: attributes_identifier.clone(),
        }
    }

    pub fn address(&self) -> (address: &str)
        ensures
            address@ == self@.address,
    {
        self.address.as_str()
    }

    pub fn protocol(&self) -> (protocol: &str)
        ensures
            protocol@ == self@.protocol,
    {
        self.protocol.as_str()
    }

    pub fn attributes_identifier(&self) -> (attributes_identifier: &ProtocolAttributesIdentifier)
        ensures
            attributes_identifier@ == self@.attributes_identifier,
    {
        &self.attributes_identifier
    }
}

impl Clone for ProtocolDeviceIdentifier {
    fn clone(&self) -> (copy: Self)
        ensures
            copy@ == self@,
    {
        ProtocolDeviceIdentifier {
            address: self.address.clone(),
            protocol: self.protocol.clone(),
            attributes_identifier: self.attributes_identifier.clone(),
        }
    }
}

impl PartialEq for ProtocolDeviceIdentifier {
    fn eq(&self, other: &Self) -> (equal: bool) {
        self.address == other.address && self.protocol == other.protocol
            && self.attributes_identifier == other.attributes_identifier
    }
}

impl PartialEqSpecImpl for ProtocolDeviceIdentifier {
    open spec fn obeys_eq_spec() -> bool {
        true
    }

    open spec fn eq_spec(&self, other: &Self) -> bool {
        self@ == other@
    }
}

impl Eq for ProtocolDeviceIdentifier {

}

/// Matches devices found through a polling network service of one vendor.
#[derive(Debug, Clone, Copy, PartialEq, Eq, Structural)]
pub struct LovenseConnectServiceSpecifier {
    exists: bool,
}

impl LovenseConnectServiceSpecifier {
    /// Whether the service is expected to be there.
    pub closed spec fn is_present(self) -> bool {
        self.exists
    }
}

/// A service specifier says nothing but whether the service is expected to be
/// there: two that agree on that are the same specifier.
pub proof fn lemma_service_specifier_is_its_presence(
    one: LovenseConnectServiceSpecifier,
    other: LovenseConnectServiceSpecifier,
)
    requires
        one.is_present() == other.is_present(),
    ensures
        one == other,
{
}

impl Default for LovenseConnectServiceSpecifier {
    fn default() -> (specifier: Self)
        ensures
            specifier.is_present(),
    {
        LovenseConnectServiceSpecifier { exists: true }
    }
}

/// Matches devices found on a radio by advertised name.
#[derive(Debug, Clone, PartialEq, Eq)]
pub struct BluetoothLESpecifier {
    pub names: Vec<String>,
}

/// The shape of discovery data a hardware connector answers to.
#[derive(Debug, Clone, PartialEq, Eq)]
pub enum ProtocolCommunicationSpecifier {
    BluetoothLE(BluetoothLESpecifier),
    LovenseConnectService(LovenseConnectServiceSpecifier),
}

} // verus!
