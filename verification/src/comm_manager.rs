//! The communication manager of the radio transport. All work on the radio
//! is done by one background task; the manager only sends it commands.
//!
//! The manager does not know how its channels are made: `S` is the sending end
//! of the channel that carries discovery events to the owner of the manager,
//! `C` the sending end of the channel that carries commands to the task.

use crate::errors::{ButtplugDeviceError, ButtplugError};
use vstd::prelude::*;

verus! {

/// How many commands may wait for the background task. Control calls come in
/// short bursts; a task that stalls makes its callers wait instead of letting
/// the queue grow.
pub const ADAPTER_COMMAND_CAPACITY: usize = 256;

/// What the manager asks of its background task.
#[derive(Debug, Clone, Copy, PartialEq, Eq, Structural)]
pub enum BtleplugAdapterCommand {
    StartScanning,
    StopScanning,
}

/// What a background task reports to the owner of its manager.
#[derive(Debug, Clone, PartialEq, Eq)]
pub enum DeviceCommunicationEvent {
    /// A candidate device was discovered.
    DeviceFound { name: String, address: String },
    /// The task has started to scan.
    ScanningStarted,
    /// The task has stopped scanning.
    ScanningFinished,
}

/// The text of the error for a command that could not be delivered.
pub open spec fn undelivered_text(command: BtleplugAdapterCommand) -> Seq<char> {
    match command {
        BtleplugAdapterCommand::StartScanning => "Cannot send start scanning request to event loop."@,
        BtleplugAdapterCommand::StopScanning => "Cannot send stop scanning request to event loop."@,
    }
}

/// Collects what a manager needs before it is made.
#[derive(Debug)]
pub struct BtlePlugCommunicationManagerBuilder<S> {
    sender: Option<S>,
}

impl<S> Default for BtlePlugCommunicationManagerBuilder<S> {
    fn default() -> (builder: Self)
        ensures
            builder.sender() is None,
    {
        BtlePlugCommunicationManagerBuilder { sender: None }
    }
}

impl<S> BtlePlugCommunicationManagerBuilder<S> {
    /// The sending end for discovery events, once it was handed over.
    pub closed spec fn sender(&self) -> Option<S> {
        self.sender
    }

    /// Whether the sending end for discovery events was handed over.
    pub fn has_event_sender(&self) -> (handed_over: bool)
        ensures
            handed_over == (self.sender() is Some),
    {
        self.sender.is_some()
    }

    /// Hands over the sending end for discovery events.
    pub fn event_sender(self, sender: S) -> (builder: Self)
        ensures
            builder.sender() == Some(sender),
    {
        let mut builder = self;
        builder.sender = Some(sender);
        builder
    }

    /// Makes the manager. The owner hands over the sending end for discovery
    /// events before it asks for the manager, always; a builder without one is
    /// a mistake in the program, not a failure to report.
    pub fn finish<C, F: FnOnce(S) -> C>(self, spawn_task: F) -> (manager:
        BtlePlugCommunicationManager<C>)
        requires
            self.sender() is Some,
            call_requires(spawn_task, (self.sender()->0,)),
        ensures
            call_ensures(spawn_task, (self.sender()->0,), manager.command_sender()),
    {
        BtlePlugCommunicationManager::new(self.sender.unwrap(), spawn_task)
    }
}

/// Controls the scanning of the radio through its background task.
#[derive(Debug)]
pub struct BtlePlugCommunicationManager<C> {
    adapter_event_sender: C,
}

impl<C> BtlePlugCommunicationManager<C> {
    /// The sending end for commands to the background task.
    pub closed spec fn command_sender(&self) -> C {
        self.adapter_event_sender
    }

    /// Makes the manager and, with it, its one background task: `spawn_task`
    /// is called once, with the sending end for discovery events, and gives
    /// back the sending end for commands to the task it has started.
    pub fn new<S, F: FnOnce(S) -> C>(event_sender: S, spawn_task: F) -> (manager: Self)
        requires
            call_requires(spawn_task, (event_sender,)),
        ensures
            call_ensures(spawn_task, (event_sender,), manager.command_sender()),
    {
        BtlePlugCommunicationManager { adapter_event_sender: spawn_task(event_sender) }
    }

    /// The sending end for commands, for whoever delivers them.
    pub fn adapter_event_sender(&self) -> (sender: &C)
        ensures
            *sender == self.command_sender(),
    {
        &self.adapter_event_sender
    }

    pub fn name(&self) -> (name: &'static str)
        ensures
            name@ == "BtlePlugCommunicationManager"@,
    {
        "BtlePlugCommunicationManager"
    }

    /// The command to deliver to the background task to start scanning.
    pub fn start_scanning(&self) -> (command: BtleplugAdapterCommand)
        ensures
            command == BtleplugAdapterCommand::StartScanning,
    {
        BtleplugAdapterCommand::StartScanning
    }

    /// The command to deliver to the background task to stop scanning.
    pub fn stop_scanning(&self) -> (command: BtleplugAdapterCommand)
        ensures
            command == BtleplugAdapterCommand::StopScanning,
    {
        BtleplugAdapterCommand::StopScanning
    }

    /// What a scanning call reports once the delivery of its command was
    /// tried. The call is over when the command is delivered, not when the
    /// task has acted on it. A command that could not be delivered, because
    /// the task has ended, makes the manager unavailable.
    pub fn scanning_result(command: BtleplugAdapterCommand, delivered: bool) -> (outcome: Result<
        (),
        ButtplugError,
    >)
        ensures
            outcome is Ok <==> delivered,
            !delivered ==> (outcome matches Err(
                ButtplugError::ButtplugDeviceError(ButtplugDeviceError::DeviceNotAvailable(text)),
            ) && text@ == undelivered_text(command)),
    {
        if delivered {
            Ok(())
        } else {
            let text = match command {
                BtleplugAdapterCommand::StartScanning =>
                    "Cannot send start scanning request to event loop.".to_owned(),
                BtleplugAdapterCommand::StopScanning =>
                    "Cannot send stop scanning request to event loop.".to_owned(),
            };
            Err(ButtplugError::from(ButtplugDeviceError::DeviceNotAvailable(text)))
        }
    }

    /// Whether a scan is known to be under way: the manager keeps no track of
    /// it, so never.
    pub fn scanning_status(&self) -> (scanning: bool)
        ensures
            !scanning,
    {
        false
    }
}

} // verus!
