//! A device reached by polling the vendor's local network service.
//!
//! The service is asked again and again what it knows of its toys. As long as
//! it reports the toy as connected, the reported battery level is cached. The
//! first answer that fails, lacks the toy or reports it as not connected ends
//! the monitoring with one `Disconnected` event.
//!
//! The handle lives until it is disconnected, be it by its user or by that
//! event. From then on reads and writes fail: a new connection has to be made.
//!
//! Asking the service and broadcasting the event are left to the caller: the
//! state kept here is told each answer and says what follows from it.

use crate::configuration::{LovenseConnectServiceSpecifier, ProtocolCommunicationSpecifier};
use crate::errors::ButtplugDeviceError;
use crate::hardware::{
    GenericHardwareSpecializer,
    Hardware,
    HardwareEvent,
    HardwareReadCmd,
    HardwareSubscribeCmd,
    HardwareUnsubscribeCmd,
    HardwareWriteCmd,
};
use crate::messages::{Endpoint, RawReading};
use vstd::prelude::*;
use vstd::string::*;
use vstd::utf8::*;

verus! {

/// How many events the broadcast channel of one device keeps for slow readers.
pub const DEVICE_EVENT_CAPACITY: usize = 256;

/// What the service reports of one toy.
#[derive(Debug, PartialEq, Eq)]
pub struct LovenseServiceToyInfo {
    pub id: String,
    pub name: String,
    pub connected: bool,
    pub battery: i64,
}

impl Clone for LovenseServiceToyInfo {
    fn clone(&self) -> (copy: Self)
        ensures
            copy == *self,
    {
        LovenseServiceToyInfo {
            id: self.id.clone(),
            name: self.name.clone(),
            connected: self.connected,
            battery: self.battery,
        }
    }
}

/// One answer of the service: the toys it knows, in the order it listed them.
/// Where a list names an identifier twice, the toy listed first counts.
#[derive(Debug, PartialEq, Eq)]
pub struct LovenseServiceLocalInfo {
    pub data: Vec<LovenseServiceToyInfo>,
}

/// The first toy of the list that carries the identifier, if any does.
pub open spec fn first_with_id(toys: Seq<LovenseServiceToyInfo>, id: Seq<char>) -> Option<
    LovenseServiceToyInfo,
>
    decreases toys.len(),
{
    if toys.len() == 0 {
        None
    } else if toys[0].id@ == id {
        Some(toys[0])
    } else {
        first_with_id(toys.drop_first(), id)
    }
}

/// What one poll tells about the monitored toy.
pub enum Observation {
    /// The service gave no usable answer.
    QueryFailed,
    /// The service answered, and the toy is not in its list.
    Absent,
    /// The toy is listed as not connected.
    Disconnected,
    /// The toy is listed as connected, with this raw battery value.
    Connected { battery: int },
}

/// Reads an answer of the service (or the lack of one) for one toy.
pub open spec fn observe(info: Option<LovenseServiceLocalInfo>, toy_id: Seq<char>) -> Observation {
    match info {
        None => Observation::QueryFailed,
        Some(report) => match first_with_id(report.data@, toy_id) {
            None => Observation::Absent,
            Some(toy) => if toy.connected {
                Observation::Connected { battery: toy.battery as int }
            } else {
                Observation::Disconnected
            },
        },
    }
}

/// A raw battery value brought into the range of a percentage.
pub open spec fn clamp_battery(raw: int) -> int {
    if raw < 0 {
        0
    } else if raw > 100 {
        100
    } else {
        raw
    }
}

/// A `LovenseServiceHardware` as a mathematical value.
pub struct LovenseServiceHardwareView {
    /// Where the service is.
    pub http_host: Seq<char>,
    /// The toy that is watched.
    pub toy_id: Seq<char>,
    /// The battery level as last reported, a percentage.
    pub battery_level: int,
    /// Whether the service is still asked about the toy.
    pub monitoring: bool,
    /// Whether the handle is still alive.
    pub connected: bool,
}

/// The state after one poll. An answer that does not show the toy connected
/// ends the monitoring and, with it, the life of the handle.
pub open spec fn monitor_next(
    state: LovenseServiceHardwareView,
    observation: Observation,
) -> LovenseServiceHardwareView {
    if !state.monitoring {
        state
    } else {
        match observation {
            Observation::Connected { battery } => LovenseServiceHardwareView {
                battery_level: clamp_battery(battery),
                ..state
            },
            _ => LovenseServiceHardwareView { monitoring: false, connected: false, ..state },
        }
    }
}

/// Whether one poll makes the monitor emit a `Disconnected` event.
pub open spec fn monitor_emits(state: LovenseServiceHardwareView, observation: Observation) -> bool {
    state.monitoring && !(observation is Connected)
}

/// The state after a series of polls.
pub open spec fn monitor_run(
    state: LovenseServiceHardwareView,
    observations: Seq<Observation>,
) -> LovenseServiceHardwareView
    decreases observations.len(),
{
    if observations.len() == 0 {
        state
    } else {
        monitor_run(monitor_next(state, observations[0]), observations.drop_first())
    }
}

/// How many `Disconnected` events a series of polls makes the monitor emit.
pub open spec fn disconnects_emitted(
    state: LovenseServiceHardwareView,
    observations: Seq<Observation>,
) -> nat
    decreases observations.len(),
{
    if observations.len() == 0 {
        0
    } else {
        let first: nat = if monitor_emits(state, observations[0]) {
            1
        } else {
            0
        };
        first + disconnects_emitted(monitor_next(state, observations[0]), observations.drop_first())
    }
}

/// The state after the user of the handle has disconnected it. The watch on
/// the toy is not called off: it ends by itself.
pub open spec fn disconnected(state: LovenseServiceHardwareView) -> LovenseServiceHardwareView {
    LovenseServiceHardwareView { connected: false, ..state }
}

/// The text of the error that answers a read or a write on a handle that is
/// no longer alive.
pub open spec fn ended_text() -> Seq<char> {
    "Lovense Connect device has been disconnected"@
}

/// What a read of a live handle reports: the cached battery level, one byte.
pub open spec fn battery_reading(state: LovenseServiceHardwareView) -> Seq<u8> {
    seq![state.battery_level as u8]
}

/// The address that carries a command to the service: the host, a slash, and
/// the command as text.
pub open spec fn command_url(http_host: Seq<char>, command: Seq<u8>) -> Seq<char> {
    http_host + seq!['/'] + decode_utf8(command)
}

/// The transport state behind the handle of one toy: where the service is,
/// which toy is watched, the cached battery level, whether the watch is still
/// on, and whether the handle is still alive.
#[derive(Debug)]
pub struct LovenseServiceHardware {
    http_host: String,
    toy_id: String,
    battery_level: u8,
    monitoring: bool,
    connected: bool,
}

impl View for LovenseServiceHardware {
    type V = LovenseServiceHardwareView;

    closed spec fn view(&self) -> LovenseServiceHardwareView {
        LovenseServiceHardwareView {
            http_host: self.http_host@,
            toy_id: self.toy_id@,
            battery_level: self.battery_level as int,
            monitoring: self.monitoring,
            connected: self.connected,
        }
    }
}

impl Clone for LovenseServiceHardware {
    fn clone(&self) -> (copy: Self)
        ensures
            copy@ == self@,
    {
        proof {
            use_type_invariant(self);
        }
        LovenseServiceHardware {
            http_host: self.http_host.clone(),
            toy_id: self.toy_id.clone(),
            battery_level: self.battery_level,
            monitoring: self.monitoring,
            connected: self.connected,
        }
    }
}

/// `std::str::Utf8Error`: says why bytes are no UTF-8. It is only passed
/// along, never looked into.
#[verifier::external_type_specification]
#[verifier::external_body]
pub struct ExUtf8Error(std::str::Utf8Error);

/// `std::str::from_utf8`: succeeds exactly on valid UTF-8, and the string
/// slice it then gives is made of the very bytes it was given.
#[verifier::external_body]
fn utf8_text(bytes: &[u8]) -> (text: Result<&str, std::str::Utf8Error>)
    ensures
        text is Ok <==> valid_utf8(bytes@),
        text matches Ok(decoded) ==> decoded.spec_bytes() == bytes@,
{
    std::str::from_utf8(bytes)
}

fn clamped_battery(raw: i64) -> (level: u8)
    ensures
        level == clamp_battery(raw as int),
{
    if raw < 0 {
        0
    } else if raw > 100 {
        100
    } else {
        raw as u8
    }
}

fn find_toy(toys: &Vec<LovenseServiceToyInfo>, id: &String) -> (found: Option<usize>)
    ensures
        match found {
            Some(index) => index < toys.len() && first_with_id(toys@, id@) == Some(toys[index as int]),
            None => first_with_id(toys@, id@) is None,
        },
{
    let mut index: usize = 0;
    assert(toys@.skip(0) == toys@);
    while index < toys.len()
        invariant
            index <= toys.len(),
            first_with_id(toys@, id@) == first_with_id(toys@.skip(index as int), id@),
        decreases toys.len() - index,
    {
        if toys[index].id == *id {
            return Some(index);
        }
        assert(toys@.skip(index as int).drop_first() == toys@.skip(index + 1));
        index += 1;
    }
    None
}

impl LovenseServiceHardware {
    #[verifier::type_invariant]
    spec fn well_formed(&self) -> bool {
        &&& self.battery_level <= 100
        &&& self.connected ==> self.monitoring
    }

    /// A fresh state for the toy: the handle is alive, monitoring is on, and
    /// until the first answer of the service the battery counts as full.
    pub fn new(http_host: &str, toy_id: &str) -> (hardware: Self)
        ensures
            hardware@ == (LovenseServiceHardwareView {
                http_host: http_host@,
                toy_id: toy_id@,
                battery_level: 100,
                monitoring: true,
                connected: true,
            }),
    {
        LovenseServiceHardware {
            http_host: http_host.to_owned(),
            toy_id: toy_id.to_owned(),
            battery_level: 100,
            monitoring: true,
            connected: true,
        }
    }

    /// Whether the handle is still alive. A live handle is always watched.
    pub fn is_connected(&self) -> (connected: bool)
        ensures
            connected == self@.connected,
            connected ==> self@.monitoring,
    {
        proof {
            use_type_invariant(self);
        }
        self.connected
    }

    /// Whether the service should be polled again.
    pub fn is_monitoring(&self) -> (monitoring: bool)
        ensures
            monitoring == self@.monitoring,
    {
        self.monitoring
    }

    /// The cached battery level, always a percentage.
    pub fn battery_level(&self) -> (level: u8)
        ensures
            level == self@.battery_level,
            level <= 100,
    {
        proof {
            use_type_invariant(self);
        }
        self.battery_level
    }

    /// Takes in one answer of the service (`None` where the query failed).
    ///
    /// While monitoring, a toy reported as connected has its battery level
    /// cached, clamped to a percentage; any other answer ends the monitoring
    /// and the life of the handle, and yields the `Disconnected` event to
    /// broadcast. Once monitoring has ended, answers change nothing and yield
    /// nothing.
    pub fn monitor_step(&mut self, info: Option<LovenseServiceLocalInfo>) -> (event: Option<
        HardwareEvent,
    >)
        ensures
            final(self)@ == monitor_next(old(self)@, observe(info, old(self)@.toy_id)),
            event is Some <==> monitor_emits(old(self)@, observe(info, old(self)@.toy_id)),
            event matches Some(emitted) ==> emitted matches HardwareEvent::Disconnected(id) && id@
                == old(self)@.toy_id,
    {
        proof {
            use_type_invariant(&*self);
        }
        if !self.monitoring {
            return None;
        }
        match info {
            None => {
                self.connected = false;
                self.monitoring = false;
                Some(HardwareEvent::Disconnected(self.toy_id.clone()))
            },
            Some(report) => match find_toy(&report.data, &self.toy_id) {
                None => {
                    self.connected = false;
                    self.monitoring = false;
                    Some(HardwareEvent::Disconnected(self.toy_id.clone()))
                },
                Some(index) => {
                    let toy = &report.data[index];
                    if toy.connected {
                        self.battery_level = clamped_battery(toy.battery);
                        None
                    } else {
                        self.connected = false;
                        self.monitoring = false;
                        Some(HardwareEvent::Disconnected(self.toy_id.clone()))
                    }
                },
            },
        }
    }

    /// Ends the life of the handle, if it has not ended yet. The service keeps
    /// no session, so there is nothing to close and nothing that can fail. The
    /// watch on the toy goes on until it ends by itself.
    pub fn disconnect(&mut self) -> (outcome: Result<(), ButtplugDeviceError>)
        ensures
            outcome is Ok,
            final(self)@ == disconnected(old(self)@),
    {
        proof {
            use_type_invariant(&*self);
        }
        self.connected = false;
        Ok(())
    }

    /// The error that answers a read or a write on a handle that is no longer
    /// alive.
    fn ended() -> (error: ButtplugDeviceError)
        ensures
            error matches ButtplugDeviceError::DeviceNotAvailable(text) && text@ == ended_text(),
    {
        ButtplugDeviceError::DeviceNotAvailable(
            "Lovense Connect device has been disconnected".to_owned(),
        )
    }

    /// Answers a read from the cache, whatever is asked for: the reading of a
    /// live handle holds the battery level as its one byte, and no call goes
    /// out to the service. A handle that is no longer alive is not available.
    pub fn read_value(&self, msg: &HardwareReadCmd) -> (outcome: Result<
        RawReading,
        ButtplugDeviceError,
    >)
        ensures
            self@.connected ==> (outcome matches Ok(reading) && reading.device_index == 0
                && reading.endpoint == Endpoint::Rx && reading.data@ == battery_reading(self@)),
            !self@.connected ==> (outcome matches Err(
                ButtplugDeviceError::DeviceNotAvailable(text),
            ) && text@ == ended_text()),
    {
        if !self.connected {
            return Err(Self::ended());
        }
        let mut data: Vec<u8> = Vec::new();
        data.push(self.battery_level);
        Ok(RawReading::new(0, Endpoint::Rx, data))
    }

    /// The address to request for a write on a live handle: one request per
    /// write. The data of the command is text that the protocol has turned
    /// into bytes. A handle that is no longer alive is not available, and no
    /// request is to be made for it.
    pub fn write_value_url(&self, msg: &HardwareWriteCmd) -> (outcome: Result<
        String,
        ButtplugDeviceError,
    >)
        requires
            valid_utf8(msg.data@),
        ensures
            self@.connected ==> (outcome matches Ok(url) && url@ == command_url(
                self@.http_host,
                msg.data@,
            )),
            !self@.connected ==> (outcome matches Err(
                ButtplugDeviceError::DeviceNotAvailable(text),
            ) && text@ == ended_text()),
    {
        if !self.connected {
            return Err(Self::ended());
        }
        let mut url = self.http_host.clone();
        match utf8_text(msg.data.as_slice()) {
            Ok(command) => {
                proof {
                    reveal_strlit("/");
                    encode_utf8_decode_utf8(command@);
                    assert("/"@ == seq!['/']);
                }
                url.append("/");
                url.append(command);
            },
            Err(_) => {
                assert(false);
            },
        }
        Ok(url)
    }

    /// What a write reports once its request was made: a request that did not
    /// succeed is an unhandled command that carries the failure's text, and
    /// nothing is tried again.
    pub fn write_value_result(request: Result<(), String>) -> (outcome: Result<
        (),
        ButtplugDeviceError,
    >)
        ensures
            outcome is Ok <==> request is Ok,
            request matches Err(failure) ==> outcome matches Err(
                ButtplugDeviceError::UnhandledCommand(text),
            ) && text == failure,
    {
        match request {
            Ok(()) => Ok(()),
            Err(failure) => Err(ButtplugDeviceError::UnhandledCommand(failure)),
        }
    }

    /// The service has no notifications: subscribing always fails, in the same
    /// way whether the handle is alive or not, and leaves the state as it is.
    pub fn subscribe(&self, msg: &HardwareSubscribeCmd) -> (outcome: Result<
        (),
        ButtplugDeviceError,
    >)
        ensures
            outcome matches Err(ButtplugDeviceError::UnhandledCommand(text)) && text@
                == "Lovense Connect does not support subscribe"@,
    {
        Err(
            ButtplugDeviceError::UnhandledCommand(
                "Lovense Connect does not support subscribe".to_owned(),
            ),
        )
    }

    /// The service has no notifications: unsubscribing always fails, in the
    /// same way whether the handle is alive or not, and leaves the state as
    /// it is.
    pub fn unsubscribe(&self, msg: &HardwareUnsubscribeCmd) -> (outcome: Result<
        (),
        ButtplugDeviceError,
    >)
        ensures
            outcome matches Err(ButtplugDeviceError::UnhandledCommand(text)) && text@
                == "Lovense Connect does not support unsubscribe"@,
    {
        Err(
            ButtplugDeviceError::UnhandledCommand(
                "Lovense Connect does not support unsubscribe".to_owned(),
            ),
        )
    }
}

/// Turns what discovery learned of one toy into a hardware handle.
#[derive(Debug)]
pub struct LovenseServiceHardwareConnector {
    http_host: String,
    toy_info: LovenseServiceToyInfo,
}

impl LovenseServiceHardwareConnector {
    /// Where the service is.
    pub closed spec fn http_host(&self) -> Seq<char> {
        self.http_host@
    }

    /// What discovery learned of the toy.
    pub closed spec fn toy_info(&self) -> LovenseServiceToyInfo {
        self.toy_info
    }

    pub fn new(http_host: &str, toy_info: &LovenseServiceToyInfo) -> (connector: Self)
        ensures
            connector.http_host() == http_host@,
            connector.toy_info() == *toy_info,
    {
        LovenseServiceHardwareConnector { http_host: http_host.to_owned(), toy_info: toy_info.clone() }
    }

    /// The discovery data this connector answers to.
    pub fn specifier(&self) -> (specifier: ProtocolCommunicationSpecifier)
        ensures
            specifier matches ProtocolCommunicationSpecifier::LovenseConnectService(service)
                && service.is_present(),
    {
        ProtocolCommunicationSpecifier::LovenseConnectService(
            LovenseConnectServiceSpecifier::default(),
        )
    }

    /// Connects, which for this transport needs no handshake and cannot fail.
    /// The handle is named after the toy, addressed by the toy's identifier,
    /// and declares the one endpoint commands are written to; behind it stands
    /// a fresh transport state.
    pub fn connect(&mut self) -> (outcome: Result<
        GenericHardwareSpecializer<LovenseServiceHardware>,
        ButtplugDeviceError,
    >)
        ensures
            *final(self) == *old(self),
            outcome matches Ok(specializer) && {
                let handle = specializer.hardware()@;
                &&& handle.name == old(self).toy_info().name@
                &&& handle.address == old(self).toy_info().id@
                &&& handle.endpoints == seq![Endpoint::Tx]
                &&& handle.internal@ == (LovenseServiceHardwareView {
                    http_host: old(self).http_host(),
                    toy_id: old(self).toy_info().id@,
                    battery_level: 100,
                    monitoring: true,
                    connected: true,
                })
            },
    {
        let hardware_internal = LovenseServiceHardware::new(
            self.http_host.as_str(),
            self.toy_info.id.as_str(),
        );
        let mut endpoints: Vec<Endpoint> = Vec::new();
        endpoints.push(Endpoint::Tx);
        let hardware = Hardware::new(
            self.toy_info.name.as_str(),
            self.toy_info.id.as_str(),
            endpoints,
            hardware_internal,
        );
        Ok(GenericHardwareSpecializer::new(hardware))
    }
}

/// No toy is found for an identifier exactly when no toy of the list carries
/// it.
pub proof fn lemma_not_found_iff_not_listed(toys: Seq<LovenseServiceToyInfo>, id: Seq<char>)
    ensures
        first_with_id(toys, id) is None <==> forall|i: int|
            0 <= i < toys.len() ==> (#[trigger] toys[i]).id@ != id,
    decreases toys.len(),
{
    if toys.len() > 0 {
        let rest = toys.drop_first();
        lemma_not_found_iff_not_listed(rest, id);
        if toys[0].id@ != id {
            if first_with_id(rest, id) is None {
                assert forall|i: int| 0 <= i < toys.len() implies (#[trigger] toys[i]).id@ != id by {
                    if i > 0 {
                        assert(rest[i - 1] == toys[i]);
                    }
                }
            } else {
                let i = choose|i: int| 0 <= i < rest.len() && (#[trigger] rest[i]).id@ == id;
                assert(toys[i + 1] == rest[i]);
            }
        }
    }
}

/// In a list where no identifier occurs twice, the toy found for an
/// identifier is the one that carries it, wherever it stands: the order in
/// which the service lists its toys does not matter then.
pub proof fn lemma_found_wherever_listed(toys: Seq<LovenseServiceToyInfo>, at: int)
    requires
        0 <= at < toys.len(),
        forall|i: int, j: int|
            0 <= i < j < toys.len() ==> (#[trigger] toys[i]).id@ != (#[trigger] toys[j]).id@,
    ensures
        first_with_id(toys, toys[at].id@) == Some(toys[at]),
    decreases toys.len(),
{
    if at > 0 {
        let rest = toys.drop_first();
        assert(toys[0].id@ != toys[at].id@);
        assert forall|i: int, j: int| 0 <= i < j < rest.len() implies (#[trigger] rest[i]).id@ != (
        #[trigger] rest[j]).id@ by {
            assert(rest[i] == toys[i + 1]);
            assert(rest[j] == toys[j + 1]);
        }
        assert(rest[at - 1] == toys[at]);
        lemma_found_wherever_listed(rest, at - 1);
    }
}

/// A reported battery value is cached as the nearest percentage, and a read
/// of the live handle gives that cached percentage back.
pub proof fn lemma_battery_is_clamped(state: LovenseServiceHardwareView, raw: int)
    requires
        state.monitoring,
    ensures
        ({
            let cached = monitor_next(state, Observation::Connected { battery: raw });
            &&& 0 <= cached.battery_level <= 100
            &&& raw < 0 ==> cached.battery_level == 0
            &&& raw > 100 ==> cached.battery_level == 100
            &&& 0 <= raw <= 100 ==> cached.battery_level == raw
            &&& battery_reading(cached) == seq![clamp_battery(raw) as u8]
        }),
{
}

/// Once monitoring has ended, no series of polls emits anything or changes
/// the state.
pub proof fn lemma_ended_monitor_is_silent(
    state: LovenseServiceHardwareView,
    observations: Seq<Observation>,
)
    requires
        !state.monitoring,
    ensures
        disconnects_emitted(state, observations) == 0,
        monitor_run(state, observations) == state,
    decreases observations.len(),
{
    if observations.len() > 0 {
        lemma_ended_monitor_is_silent(state, observations.drop_first());
    }
}

/// Over any series of polls the monitor emits at most one `Disconnected`
/// event. It emits exactly one if it was monitoring and some poll did not find
/// the toy connected; the monitoring has then ended and the handle is no
/// longer alive. No poll starts the monitoring again or brings a handle back
/// to life, and none changes where the service is or which toy is watched.
pub proof fn lemma_disconnects_once(
    state: LovenseServiceHardwareView,
    observations: Seq<Observation>,
)
    ensures
        disconnects_emitted(state, observations) <= 1,
        disconnects_emitted(state, observations) == 1 <==> state.monitoring && exists|i: int|
            0 <= i < observations.len() && !(#[trigger] observations[i] is Connected),
        disconnects_emitted(state, observations) == 1 ==> !monitor_run(
            state,
            observations,
        ).monitoring && !monitor_run(state, observations).connected,
        monitor_run(state, observations).monitoring ==> state.monitoring,
        monitor_run(state, observations).connected ==> state.connected,
        monitor_run(state, observations).http_host == state.http_host,
        monitor_run(state, observations).toy_id == state.toy_id,
    decreases observations.len(),
{
    if observations.len() == 0 {
    } else if !state.monitoring {
        lemma_ended_monitor_is_silent(state, observations);
    } else {
        let rest = observations.drop_first();
        let next = monitor_next(state, observations[0]);
        lemma_disconnects_once(next, rest);
        if observations[0] is Connected {
            assert forall|i: int| 0 <= i < rest.len() && !(#[trigger] rest[i] is Connected) implies exists|
                j: int,
            |
                0 <= j < observations.len() && !(#[trigger] observations[j] is Connected) by {
                assert(observations[i + 1] == rest[i]);
            }
            assert forall|j: int|
                0 <= j < observations.len() && !(#[trigger] observations[j] is Connected) implies exists|
                i: int,
            |
                0 <= i < rest.len() && !(#[trigger] rest[i] is Connected) by {
                assert(j > 0);
                assert(rest[j - 1] == observations[j]);
            }
        } else {
            lemma_ended_monitor_is_silent(next, rest);
            assert(!(observations[0] is Connected));
        }
    }
}


} // verus!
