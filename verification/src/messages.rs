//! Client-facing device commands and the readings sent back for them.

use vstd::prelude::*;

verus! {

/// A logical channel inside a hardware handle's address space.
#[derive(Debug, Clone, Copy, PartialEq, Eq, Hash, Structural)]
pub enum Endpoint {
    Command,
    Firmware,
    Rx,
    RxBLEBattery,
    Tx,
    TxMode,
    TxVibrate,
    Whitelist,
}

/// Bytes read from an endpoint of a device.
#[derive(Debug, Clone, PartialEq, Eq)]
pub struct RawReading {
    pub device_index: u32,
    pub endpoint: Endpoint,
    pub data: Vec<u8>,
}

impl RawReading {
    pub fn new(device_index: u32, endpoint: Endpoint, data: Vec<u8>) -> (reading: Self)
        ensures
            reading.device_index == device_index,
            reading.endpoint == endpoint,
            reading.data == data,
    {
        RawReading { device_index, endpoint, data }
    }
}

/// Read bytes straight from an endpoint.
#[derive(Debug, Clone, Copy, PartialEq, Eq, Structural)]
pub struct RawReadCmd {
    pub device_index: u32,
    pub endpoint: Endpoint,
    pub expected_length: u32,
    pub timeout: u32,
}

/// Write bytes straight to an endpoint.
#[derive(Debug, Clone, PartialEq, Eq)]
pub struct RawWriteCmd {
    pub device_index: u32,
    pub endpoint: Endpoint,
    pub data: Vec<u8>,
    pub write_with_response: bool,
}

/// Ask for notifications from an endpoint.
#[derive(Debug, Clone, Copy, PartialEq, Eq, Structural)]
pub struct RawSubscribeCmd {
    pub device_index: u32,
    pub endpoint: Endpoint,
}

impl RawSubscribeCmd {
    pub fn new(device_index: u32, endpoint: Endpoint) -> (command: Self)
        ensures
            command == (RawSubscribeCmd { device_index, endpoint }),
    {
        RawSubscribeCmd { device_index, endpoint }
    }
}

/// Stop the notifications from an endpoint.
#[derive(Debug, Clone, Copy, PartialEq, Eq, Structural)]
pub struct RawUnsubscribeCmd {
    pub device_index: u32,
    pub endpoint: Endpoint,
}

/// Stop whatever the device is doing.
#[derive(Debug, Clone, Copy, PartialEq, Eq, Structural)]
pub struct StopDeviceCmd {
    pub device_index: u32,
}

/// Ask for the battery level of the device.
#[derive(Debug, Clone, Copy, PartialEq, Eq, Structural)]
pub struct BatteryLevelCmd {
    pub device_index: u32,
}

/// Every command a client can address to one device.
#[derive(Debug, Clone, PartialEq, Eq)]
pub enum ButtplugDeviceCommandMessageUnion {
    RawReadCmd(RawReadCmd),
    RawWriteCmd(RawWriteCmd),
    RawSubscribeCmd(RawSubscribeCmd),
    RawUnsubscribeCmd(RawUnsubscribeCmd),
    StopDeviceCmd(StopDeviceCmd),
    BatteryLevelCmd(BatteryLevelCmd),
}

/// The kinds of command, without their contents.
#[derive(Debug, Clone, Copy, PartialEq, Eq, Hash, Structural)]
pub enum ButtplugDeviceMessageType {
    RawReadCmd,
    RawWriteCmd,
    RawSubscribeCmd,
    RawUnsubscribeCmd,
    StopDeviceCmd,
    BatteryLevelCmd,
}

/// What a device accepts for one kind of command.
#[derive(Debug, Clone, PartialEq, Eq)]
pub struct DeviceMessageAttributes {
    pub message_type: ButtplugDeviceMessageType,
    pub feature_count: Option<u32>,
    pub endpoints: Vec<Endpoint>,
}

/// The commands a device accepts, one entry per kind.
#[derive(Debug, Clone, PartialEq, Eq)]
pub struct DeviceMessageAttributesMap {
    pub entries: Vec<DeviceMessageAttributes>,
}

} // verus!
