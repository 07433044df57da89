use buttplug::configuration::ProtocolCommunicationSpecifier;
use buttplug::errors::ButtplugDeviceError;
use buttplug::hardware::{
    HardwareEvent, HardwareReadCmd, HardwareSubscribeCmd, HardwareUnsubscribeCmd, HardwareWriteCmd,
};
use buttplug::lovense_connect_service::{
    LovenseServiceHardware, LovenseServiceHardwareConnector, LovenseServiceLocalInfo,
    LovenseServiceToyInfo, DEVICE_EVENT_CAPACITY,
};
use buttplug::messages::Endpoint;

fn toy(id: &str, connected: bool, battery: i64) -> LovenseServiceToyInfo {
    LovenseServiceToyInfo {
        id: id.to_owned(),
        name: format!("toy {}", id),
        connected,
        battery,
    }
}

fn report(toys: Vec<LovenseServiceToyInfo>) -> Option<LovenseServiceLocalInfo> {
    Some(LovenseServiceLocalInfo { data: toys })
}

fn read_command() -> HardwareReadCmd {
    HardwareReadCmd { endpoint: Endpoint::Rx, length: 1, timeout_ms: 0 }
}

#[test]
fn new_hardware_monitors_with_a_full_battery() {
    let hardware = LovenseServiceHardware::new("http://127.0.0.1:20010", "abc");
    assert!(hardware.is_monitoring());
    assert_eq!(hardware.battery_level(), 100);
}

#[test]
fn connected_toy_updates_the_cached_battery() {
    let mut hardware = LovenseServiceHardware::new("http://host", "abc");
    let event = hardware.monitor_step(report(vec![toy("xyz", true, 7), toy("abc", true, 42)]));
    assert_eq!(event, None);
    assert!(hardware.is_monitoring());
    assert_eq!(hardware.battery_level(), 42);
}

#[test]
fn battery_above_the_range_is_stored_as_100() {
    let mut hardware = LovenseServiceHardware::new("http://host", "abc");
    assert_eq!(hardware.monitor_step(report(vec![toy("abc", true, 50)])), None);
    assert_eq!(hardware.monitor_step(report(vec![toy("abc", true, 150)])), None);
    assert_eq!(hardware.battery_level(), 100);
    assert_eq!(hardware.monitor_step(report(vec![toy("abc", true, i64::MAX)])), None);
    assert_eq!(hardware.battery_level(), 100);
}

#[test]
fn battery_below_the_range_is_stored_as_0() {
    let mut hardware = LovenseServiceHardware::new("http://host", "abc");
    assert_eq!(hardware.monitor_step(report(vec![toy("abc", true, -1)])), None);
    assert_eq!(hardware.battery_level(), 0);
    assert_eq!(hardware.monitor_step(report(vec![toy("abc", true, i64::MIN)])), None);
    assert_eq!(hardware.battery_level(), 0);
}

#[test]
fn battery_at_the_bounds_is_kept() {
    let mut hardware = LovenseServiceHardware::new("http://host", "abc");
    assert_eq!(hardware.monitor_step(report(vec![toy("abc", true, 0)])), None);
    assert_eq!(hardware.battery_level(), 0);
    assert_eq!(hardware.monitor_step(report(vec![toy("abc", true, 100)])), None);
    assert_eq!(hardware.battery_level(), 100);
}

#[test]
fn read_value_reflects_the_cache() {
    let mut hardware = LovenseServiceHardware::new("http://host", "abc");
    let first = hardware.read_value(&read_command()).unwrap();
    assert_eq!(first.device_index, 0);
    assert_eq!(first.endpoint, Endpoint::Rx);
    assert_eq!(first.data, vec![100u8]);
    hardware.monitor_step(report(vec![toy("abc", true, 250)]));
    assert_eq!(hardware.read_value(&read_command()).unwrap().data, vec![100u8]);
    hardware.monitor_step(report(vec![toy("abc", true, 17)]));
    let other = HardwareReadCmd { endpoint: Endpoint::Tx, length: 20, timeout_ms: 500 };
    assert_eq!(hardware.read_value(&other).unwrap().data, vec![17u8]);
}

#[test]
fn failed_query_disconnects() {
    let mut hardware = LovenseServiceHardware::new("http://host", "abc");
    let event = hardware.monitor_step(None);
    assert_eq!(event, Some(HardwareEvent::Disconnected("abc".to_owned())));
    assert!(!hardware.is_monitoring());
    assert!(!hardware.is_connected());
    assert_eq!(hardware.battery_level(), 100);
}

#[test]
fn absent_toy_disconnects() {
    let mut hardware = LovenseServiceHardware::new("http://host", "abc");
    let event = hardware.monitor_step(report(vec![toy("xyz", true, 5)]));
    assert_eq!(event, Some(HardwareEvent::Disconnected("abc".to_owned())));
    assert!(!hardware.is_monitoring());
    let mut other = LovenseServiceHardware::new("http://host", "abc");
    assert_eq!(
        other.monitor_step(report(vec![])),
        Some(HardwareEvent::Disconnected("abc".to_owned()))
    );
}

#[test]
fn toy_listed_as_not_connected_disconnects() {
    let mut hardware = LovenseServiceHardware::new("http://host", "abc");
    hardware.monitor_step(report(vec![toy("abc", true, 33)]));
    let event = hardware.monitor_step(report(vec![toy("abc", false, 90)]));
    assert_eq!(event, Some(HardwareEvent::Disconnected("abc".to_owned())));
    assert!(!hardware.is_monitoring());
    assert_eq!(hardware.battery_level(), 33);
}

#[test]
fn first_listed_toy_with_the_identifier_decides() {
    let mut hardware = LovenseServiceHardware::new("http://host", "abc");
    let event = hardware.monitor_step(report(vec![
        toy("xyz", false, 1),
        toy("abc", true, 61),
        toy("abc", false, 62),
    ]));
    assert_eq!(event, None);
    assert_eq!(hardware.battery_level(), 61);
    let event = hardware.monitor_step(report(vec![toy("abc", false, 62), toy("abc", true, 63)]));
    assert_eq!(event, Some(HardwareEvent::Disconnected("abc".to_owned())));
}

#[test]
fn disconnects_once_whatever_follows() {
    let mut hardware = LovenseServiceHardware::new("http://host", "abc");
    let answers = vec![
        report(vec![toy("abc", true, 80)]),
        report(vec![toy("abc", true, 79)]),
        report(vec![]),
        report(vec![toy("abc", true, 78)]),
        None,
        report(vec![toy("abc", false, 77)]),
        report(vec![toy("abc", true, 76)]),
    ];
    let mut disconnects = 0;
    let mut polls_while_monitoring = 0;
    for answer in answers {
        if hardware.is_monitoring() {
            polls_while_monitoring += 1;
        }
        if let Some(event) = hardware.monitor_step(answer) {
            assert_eq!(event, HardwareEvent::Disconnected("abc".to_owned()));
            disconnects += 1;
        }
    }
    assert_eq!(disconnects, 1);
    assert_eq!(polls_while_monitoring, 3);
    assert!(!hardware.is_monitoring());
    assert_eq!(hardware.battery_level(), 79);
}

#[test]
fn write_value_url_joins_host_and_command() {
    let hardware = LovenseServiceHardware::new("http://127.0.0.1:20010", "abc");
    let command = HardwareWriteCmd {
        endpoint: Endpoint::Tx,
        data: b"Vibrate?v=10&t=abc".to_vec(),
        write_with_response: false,
    };
    assert_eq!(
        hardware.write_value_url(&command),
        Ok("http://127.0.0.1:20010/Vibrate?v=10&t=abc".to_owned())
    );
}

#[test]
fn write_value_url_decodes_the_command_as_utf8() {
    let hardware = LovenseServiceHardware::new("http://host", "abc");
    let command = HardwareWriteCmd {
        endpoint: Endpoint::Tx,
        data: vec![0x41, 0xc3, 0xa9, 0xe2, 0x82, 0xac, 0xf0, 0x9f, 0x98, 0x80],
        write_with_response: true,
    };
    assert_eq!(
        hardware.write_value_url(&command),
        Ok("http://host/A\u{e9}\u{20ac}\u{1f600}".to_owned())
    );
    let empty = HardwareWriteCmd { endpoint: Endpoint::Tx, data: vec![], write_with_response: false };
    assert_eq!(hardware.write_value_url(&empty), Ok("http://host/".to_owned()));
}

#[test]
fn write_value_result_maps_a_failure_to_unhandled_command() {
    assert_eq!(LovenseServiceHardware::write_value_result(Ok(())), Ok(()));
    assert_eq!(
        LovenseServiceHardware::write_value_result(Err("connection refused".to_owned())),
        Err(ButtplugDeviceError::UnhandledCommand("connection refused".to_owned()))
    );
}

#[test]
fn subscribe_is_never_supported() {
    let mut hardware = LovenseServiceHardware::new("http://host", "abc");
    let expected = Err(ButtplugDeviceError::UnhandledCommand(
        "Lovense Connect does not support subscribe".to_owned(),
    ));
    assert_eq!(hardware.subscribe(&HardwareSubscribeCmd { endpoint: Endpoint::Rx }), expected);
    assert_eq!(hardware.subscribe(&HardwareSubscribeCmd { endpoint: Endpoint::Tx }), expected);
    hardware.monitor_step(None);
    assert_eq!(hardware.subscribe(&HardwareSubscribeCmd { endpoint: Endpoint::Rx }), expected);
    assert_eq!(hardware.battery_level(), 100);
    let mut disconnected = LovenseServiceHardware::new("http://host", "abc");
    assert_eq!(disconnected.disconnect(), Ok(()));
    assert_eq!(disconnected.subscribe(&HardwareSubscribeCmd { endpoint: Endpoint::Rx }), expected);
}

#[test]
fn unsubscribe_is_never_supported() {
    let hardware = LovenseServiceHardware::new("http://host", "abc");
    let expected = Err(ButtplugDeviceError::UnhandledCommand(
        "Lovense Connect does not support unsubscribe".to_owned(),
    ));
    assert_eq!(hardware.unsubscribe(&HardwareUnsubscribeCmd { endpoint: Endpoint::Rx }), expected);
    assert_eq!(hardware.unsubscribe(&HardwareUnsubscribeCmd { endpoint: Endpoint::Tx }), expected);
    assert!(hardware.is_monitoring());
    assert!(hardware.is_connected());
    assert_eq!(hardware.battery_level(), 100);
    let mut disconnected = LovenseServiceHardware::new("http://host", "abc");
    assert_eq!(disconnected.disconnect(), Ok(()));
    assert_eq!(disconnected.unsubscribe(&HardwareUnsubscribeCmd { endpoint: Endpoint::Rx }), expected);
}

fn ended() -> ButtplugDeviceError {
    ButtplugDeviceError::DeviceNotAvailable("Lovense Connect device has been disconnected".to_owned())
}

fn write_command() -> HardwareWriteCmd {
    HardwareWriteCmd { endpoint: Endpoint::Tx, data: b"Battery?t=abc".to_vec(), write_with_response: false }
}

#[test]
fn new_hardware_is_connected() {
    let hardware = LovenseServiceHardware::new("http://host", "abc");
    assert!(hardware.is_connected());
}

#[test]
fn disconnect_ends_the_handle() {
    let mut hardware = LovenseServiceHardware::new("http://host", "abc");
    hardware.monitor_step(report(vec![toy("abc", true, 40)]));
    assert_eq!(hardware.disconnect(), Ok(()));
    assert!(!hardware.is_connected());
    assert!(hardware.is_monitoring());
    assert_eq!(hardware.battery_level(), 40);
}

#[test]
fn disconnect_of_an_ended_handle_succeeds() {
    let mut hardware = LovenseServiceHardware::new("http://host", "abc");
    assert_eq!(hardware.disconnect(), Ok(()));
    assert_eq!(hardware.disconnect(), Ok(()));
    assert!(!hardware.is_connected());
    hardware.monitor_step(None);
    assert_eq!(hardware.disconnect(), Ok(()));
    assert!(!hardware.is_connected());
    assert!(!hardware.is_monitoring());
}

#[test]
fn read_after_disconnect_fails() {
    let mut hardware = LovenseServiceHardware::new("http://host", "abc");
    assert!(hardware.read_value(&read_command()).is_ok());
    assert_eq!(hardware.disconnect(), Ok(()));
    assert_eq!(hardware.read_value(&read_command()), Err(ended()));
    assert_eq!(hardware.read_value(&read_command()), Err(ended()));
}

#[test]
fn write_after_disconnect_fails() {
    let mut hardware = LovenseServiceHardware::new("http://host", "abc");
    assert_eq!(hardware.write_value_url(&write_command()), Ok("http://host/Battery?t=abc".to_owned()));
    assert_eq!(hardware.disconnect(), Ok(()));
    assert_eq!(hardware.write_value_url(&write_command()), Err(ended()));
}

#[test]
fn handle_ends_when_the_monitor_disconnects() {
    let mut failed = LovenseServiceHardware::new("http://host", "abc");
    assert!(failed.monitor_step(None).is_some());
    assert!(!failed.is_connected());
    assert_eq!(failed.read_value(&read_command()), Err(ended()));
    assert_eq!(failed.write_value_url(&write_command()), Err(ended()));

    let mut absent = LovenseServiceHardware::new("http://host", "abc");
    assert!(absent.monitor_step(report(vec![toy("xyz", true, 5)])).is_some());
    assert!(!absent.is_connected());
    assert_eq!(absent.read_value(&read_command()), Err(ended()));

    let mut unplugged = LovenseServiceHardware::new("http://host", "abc");
    assert!(unplugged.monitor_step(report(vec![toy("abc", false, 5)])).is_some());
    assert!(!unplugged.is_connected());
    assert_eq!(unplugged.read_value(&read_command()), Err(ended()));
}

#[test]
fn connected_toy_keeps_the_handle_alive() {
    let mut hardware = LovenseServiceHardware::new("http://host", "abc");
    hardware.monitor_step(report(vec![toy("abc", true, 40)]));
    hardware.monitor_step(report(vec![toy("abc", true, 39)]));
    assert!(hardware.is_connected());
    assert_eq!(hardware.read_value(&read_command()).unwrap().data, vec![39u8]);
}

#[test]
fn monitor_of_a_disconnected_handle_still_disconnects_once() {
    let mut hardware = LovenseServiceHardware::new("http://host", "abc");
    assert_eq!(hardware.disconnect(), Ok(()));
    assert_eq!(hardware.monitor_step(report(vec![toy("abc", true, 55)])), None);
    assert!(hardware.is_monitoring());
    assert!(!hardware.is_connected());
    assert_eq!(hardware.battery_level(), 55);
    assert_eq!(
        hardware.monitor_step(report(vec![])),
        Some(HardwareEvent::Disconnected("abc".to_owned()))
    );
    assert_eq!(hardware.monitor_step(None), None);
    assert!(!hardware.is_monitoring());
    assert!(!hardware.is_connected());
}

#[test]
fn clone_keeps_the_state() {
    let mut hardware = LovenseServiceHardware::new("http://host", "abc");
    hardware.monitor_step(report(vec![toy("abc", true, 12)]));
    let copy = hardware.clone();
    assert_eq!(copy.battery_level(), 12);
    assert!(copy.is_monitoring());
    assert!(copy.is_connected());
    hardware.disconnect().unwrap();
    assert!(!hardware.clone().is_connected());
    assert!(copy.is_connected());
}

#[test]
fn connector_answers_to_the_polling_service() {
    let connector = LovenseServiceHardwareConnector::new("http://host", &toy("abc", true, 50));
    assert!(matches!(
        connector.specifier(),
        ProtocolCommunicationSpecifier::LovenseConnectService(_)
    ));
}

#[test]
fn connect_yields_a_handle_for_the_toy() {
    let info = LovenseServiceToyInfo {
        id: "abc".to_owned(),
        name: "Hush".to_owned(),
        connected: true,
        battery: 50,
    };
    let mut connector = LovenseServiceHardwareConnector::new("http://127.0.0.1:20010", &info);
    let specializer = connector.connect().unwrap();
    let hardware = specializer.specialize(&vec![connector.specifier()]).unwrap();
    assert_eq!(hardware.name(), "Hush");
    assert_eq!(hardware.address(), "abc");
    assert_eq!(hardware.endpoints(), &vec![Endpoint::Tx]);
    assert!(hardware.internal().is_monitoring());
    assert!(hardware.internal().is_connected());
    assert_eq!(hardware.internal().battery_level(), 100);
    let command = HardwareWriteCmd {
        endpoint: Endpoint::Tx,
        data: b"Battery?t=abc".to_vec(),
        write_with_response: false,
    };
    assert_eq!(
        hardware.internal().write_value_url(&command),
        Ok("http://127.0.0.1:20010/Battery?t=abc".to_owned())
    );
    let mut state = hardware.internal().clone();
    assert_eq!(
        state.monitor_step(report(vec![])),
        Some(HardwareEvent::Disconnected("abc".to_owned()))
    );
}

#[test]
fn device_event_capacity_is_256() {
    assert_eq!(DEVICE_EVENT_CAPACITY, 256);
}

#[test]
fn order_of_the_list_does_not_matter_without_duplicates() {
    let mut forward = LovenseServiceHardware::new("http://host", "abc");
    let mut backward = LovenseServiceHardware::new("http://host", "abc");
    let toys = vec![toy("xyz", false, 1), toy("abc", true, 23), toy("def", true, 99)];
    let mut reversed = toys.clone();
    reversed.reverse();
    assert_eq!(forward.monitor_step(report(toys)), None);
    assert_eq!(backward.monitor_step(report(reversed)), None);
    assert_eq!(forward.battery_level(), 23);
    assert_eq!(backward.battery_level(), 23);
}
