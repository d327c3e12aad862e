use nut_hid_device::backend::{Action, Device, Event, QueryError, Variable};
use nut_hid_device::device::DeviceConfig;
use nut_hid_device::nut::{
    connect, new_nut_device, NutDevice, NutState, Phase, PollError, UPS_REPORT_DESCRIPTOR,
};

fn config() -> DeviceConfig {
    DeviceConfig {
        host: "ups.example".to_string(),
        port: 3493,
        backend: "nut".to_string(),
    }
}

fn lost() -> (u8, Vec<u8>) {
    (0x07, vec![0x00, 0x10])
}

fn value(text: &str) -> Event {
    Event::Reply(Ok(text.to_string()))
}

fn unsupported() -> Event {
    Event::Reply(Err(QueryError::VarNotSupported))
}

fn names(list: &[&str]) -> Event {
    Event::Connected(list.iter().map(|name| name.to_string()).collect())
}

fn query(variable: Variable) -> Action {
    Action::Query {
        ups: "ups1".to_string(),
        variable,
    }
}

/// Plays a whole read with the given outcomes of the backend's actions.
fn read(device: &mut NutDevice, events: Vec<Event>) -> Option<(u8, Vec<u8>)> {
    let mut action = device.read();
    for event in events {
        match action {
            Action::Deliver(_) => panic!("the read was over before {:?}", event),
            _ => action = device.read_step(event),
        }
    }
    match action {
        Action::Deliver(report) => report,
        other => panic!("the read still waits for {:?}", other),
    }
}

fn connected_device() -> NutDevice {
    let mut device = new_nut_device(config());
    let first = read(
        &mut device,
        vec![
            Event::Slept,
            names(&["ups1"]),
            unsupported(),
            unsupported(),
            unsupported(),
            value("OL"),
            unsupported(),
        ],
    );
    assert_eq!(first, Some((0x07, vec![0x0c, 0x00])));
    assert!(device.state().is_connected());
    assert_eq!(device.state().pending_len(), 0);
    device
}

#[test]
fn nut_print_report() {
    println!("{:x?}", UPS_REPORT_DESCRIPTOR);
}

#[test]
fn new_device_reports_lost_communication() {
    let device = new_nut_device(config());
    let data = device.data();
    assert_eq!(data.reports.len(), 5);
    assert_eq!(data.get_report(0x01), Ok(vec![2, 1, 3]));
    assert_eq!(data.get_report(0x07), Ok(vec![0x00, 0x10]));
    assert_eq!(data.get_report(0x16), Ok(vec![2]));
    assert_eq!(data.get_report(0x17), Ok(vec![100]));
    assert_eq!(data.get_report(0x0e), Ok(vec![100]));
    assert_eq!(data.report_descriptor, UPS_REPORT_DESCRIPTOR.to_vec());
    assert!(!device.state().is_connected());
    assert_eq!(device.state().pending_len(), 0);
    assert_eq!(device.state().phase(), Phase::Idle);
    assert_eq!(device.config().host, "ups.example");
    assert_eq!(device.config().port, 3493);
}

#[test]
fn lost_connection_report_bytes() {
    assert_eq!(NutDevice::lost_connection_report(), lost());
}

#[test]
fn first_read_sleeps_then_connects() {
    let mut device = new_nut_device(config());
    assert_eq!(device.read(), Action::Sleep);
    assert_eq!(device.state().phase(), Phase::Sleeping);
    assert_eq!(
        device.read_step(Event::Slept),
        Action::Connect {
            host: "ups.example".to_string(),
            port: 3493
        }
    );
    assert_eq!(device.state().phase(), Phase::Connecting);
}

#[test]
fn port_keeps_its_low_sixteen_bits() {
    let mut config = config();
    config.port = 70000;
    assert_eq!(
        connect(&config),
        Action::Connect {
            host: "ups.example".to_string(),
            port: 4464
        }
    );
    config.port = 65536;
    assert_eq!(
        connect(&config),
        Action::Connect {
            host: "ups.example".to_string(),
            port: 0
        }
    );
    config.port = 65535;
    assert_eq!(
        connect(&config),
        Action::Connect {
            host: "ups.example".to_string(),
            port: 65535
        }
    );
}

#[test]
fn failed_connection_reads_lost_communication() {
    let mut device = new_nut_device(config());
    for _ in 0..5 {
        let report = read(&mut device, vec![Event::Slept, Event::ConnectFailed]);
        assert_eq!(report, Some(lost()));
        assert_eq!(device.state().pending_len(), 0);
        assert!(!device.state().is_connected());
        assert_eq!(device.state().phase(), Phase::Idle);
    }
}

#[test]
fn reconnecting_ends_the_lost_communication() {
    let mut device = new_nut_device(config());
    for _ in 0..3 {
        assert_eq!(read(&mut device, vec![Event::Slept, Event::ConnectFailed]), Some(lost()));
    }
    let report = read(
        &mut device,
        vec![
            Event::Slept,
            names(&["ups1", "ups2"]),
            value("100"),
            value("20"),
            value("1800"),
            value("OL CHRG"),
            value("charging"),
        ],
    );
    assert_eq!(report, Some((0x0c, vec![100])));
    assert!(device.state().is_connected());
    assert_eq!(device.state().pending_len(), 3);
    assert_eq!(read(&mut device, vec![]), Some((0x11, vec![20])));
    assert_eq!(read(&mut device, vec![]), Some((0x0d, vec![30])));
    assert_eq!(read(&mut device, vec![]), Some((0x07, vec![0x0d, 0x00])));
    assert_eq!(device.state().pending_len(), 0);
}

#[test]
fn server_without_power_supply_counts_as_failure() {
    let mut device = new_nut_device(config());
    assert_eq!(device.read(), Action::Sleep);
    assert_eq!(
        device.read_step(Event::Slept),
        Action::Connect {
            host: "ups.example".to_string(),
            port: 3493
        }
    );
    assert_eq!(device.read_step(names(&[])), Action::Close);
    assert!(!device.state().is_connected());
    assert_eq!(device.state().phase(), Phase::Closing);
    assert_eq!(device.read_step(Event::Closed), Action::Deliver(Some(lost())));
    assert_eq!(device.state().phase(), Phase::Idle);
    assert_eq!(device.state().pending_len(), 0);
}

#[test]
fn first_power_supply_is_polled() {
    let mut device = new_nut_device(config());
    device.read();
    device.read_step(Event::Slept);
    assert_eq!(
        device.read_step(names(&["first", "second"])),
        Action::Query {
            ups: "first".to_string(),
            variable: Variable::BatteryCharge
        }
    );
    assert!(device.state().is_connected());
}

#[test]
fn variables_are_asked_for_in_order() {
    let mut device = new_nut_device(config());
    assert_eq!(device.read(), Action::Sleep);
    device.read_step(Event::Slept);
    assert_eq!(device.read_step(names(&["ups1"])), query(Variable::BatteryCharge));
    assert_eq!(device.read_step(value("55")), query(Variable::BatteryChargeLow));
    assert_eq!(device.read_step(value("10")), query(Variable::BatteryRuntime));
    assert_eq!(device.read_step(value("7260")), query(Variable::UpsStatus));
    assert_eq!(device.read_step(value("OB DISCHRG")), query(Variable::BatteryChargerStatus));
    assert_eq!(
        device.read_step(value("discharging")),
        Action::Deliver(Some((0x0c, vec![55])))
    );
    assert_eq!(device.read(), Action::Deliver(Some((0x11, vec![10]))));
    assert_eq!(device.read(), Action::Deliver(Some((0x0d, vec![121]))));
    assert_eq!(device.read(), Action::Deliver(Some((0x07, vec![0x0a, 0x00]))));
    assert_eq!(device.read(), Action::Sleep);
}

#[test]
fn variable_names() {
    assert_eq!(Variable::BatteryCharge.name(), "battery.charge");
    assert_eq!(Variable::BatteryChargeLow.name(), "battery.charge.low");
    assert_eq!(Variable::BatteryRuntime.name(), "battery.runtime");
    assert_eq!(Variable::UpsStatus.name(), "ups.status");
    assert_eq!(Variable::BatteryChargerStatus.name(), "battery_charger_status");
}

#[test]
fn open_session_is_polled_without_connecting() {
    let mut device = connected_device();
    assert_eq!(device.read(), Action::Sleep);
    assert_eq!(device.read_step(Event::Slept), query(Variable::BatteryCharge));
}

#[test]
fn runtime_is_stored_in_whole_minutes() {
    let mut device = connected_device();
    let report = read(
        &mut device,
        vec![
            Event::Slept,
            unsupported(),
            unsupported(),
            value("7260"),
            value("OL"),
            unsupported(),
        ],
    );
    assert_eq!(report, Some((0x0d, vec![121])));
}

#[test]
fn runtime_minutes() {
    let cases: Vec<(&str, Option<u8>)> = vec![
        ("0", Some(0)),
        ("59", Some(0)),
        ("60", Some(1)),
        ("119", Some(1)),
        ("120", Some(2)),
        ("7260", Some(121)),
        ("7319", Some(121)),
        ("15300", Some(255)),
        ("15359", Some(255)),
        ("15360", None),
        ("100000", None),
        ("99999999999999999999999999", None),
        ("+600", Some(10)),
        ("0600", Some(10)),
        ("-60", None),
        ("60.0", None),
        ("60 ", None),
        (" 60", None),
        ("", None),
        ("+", None),
        ("1e3", None),
    ];
    for (text, minutes) in cases {
        assert_eq!(NutState::get_runtime(Ok(text.to_string())), Ok(minutes), "{:?}", text);
    }
}

#[test]
fn numbers_below_256() {
    let cases: Vec<(&str, Option<u8>)> = vec![
        ("0", Some(0)),
        ("7", Some(7)),
        ("100", Some(100)),
        ("255", Some(255)),
        ("256", None),
        ("1000", None),
        ("+42", Some(42)),
        ("042", Some(42)),
        ("0000000000000000000000042", Some(42)),
        ("-1", None),
        ("4 2", None),
        ("42%", None),
        ("", None),
        ("+", None),
        ("++1", None),
        ("12.5", None),
    ];
    for (text, number) in cases {
        assert_eq!(NutState::get_u8(Ok(text.to_string())), Ok(number), "{:?}", text);
    }
}

#[test]
fn replies_that_are_no_value() {
    assert_eq!(NutState::get_str(Ok("OL".to_string())), Ok(Some("OL".to_string())));
    assert_eq!(NutState::get_str(Ok(String::new())), Ok(Some(String::new())));
    assert_eq!(NutState::get_str(Err(QueryError::VarNotSupported)), Ok(None));
    assert_eq!(
        NutState::get_str(Err(QueryError::Generic("ERR VAR-NOT-SUPPORTED".to_string()))),
        Ok(None)
    );
    assert_eq!(
        NutState::get_str(Err(QueryError::Generic("VAR-NOT-SUPPORTED".to_string()))),
        Ok(None)
    );
    assert_eq!(NutState::get_u8(Err(QueryError::VarNotSupported)), Ok(None));
    assert_eq!(NutState::get_runtime(Err(QueryError::VarNotSupported)), Ok(None));
}

#[test]
fn replies_that_are_faults() {
    assert_eq!(
        NutState::get_str(Err(QueryError::Generic("DATA-STALE".to_string()))),
        Err(PollError::Protocol)
    );
    assert_eq!(
        NutState::get_str(Err(QueryError::Generic("VAR-NOT SUPPORTED".to_string()))),
        Err(PollError::Protocol)
    );
    assert_eq!(
        NutState::get_str(Err(QueryError::Generic(String::new()))),
        Err(PollError::Protocol)
    );
    assert_eq!(NutState::get_str(Err(QueryError::Protocol)), Err(PollError::Protocol));
    assert_eq!(NutState::get_str(Err(QueryError::Connection)), Err(PollError::Connection));
    assert_eq!(NutState::get_u8(Err(QueryError::Protocol)), Err(PollError::Protocol));
    assert_eq!(NutState::get_u8(Err(QueryError::Connection)), Err(PollError::Connection));
    assert_eq!(NutState::get_runtime(Err(QueryError::Connection)), Err(PollError::Connection));
}

#[test]
fn unsupported_variable_is_left_out() {
    let mut device = connected_device();
    let report = read(
        &mut device,
        vec![
            Event::Slept,
            value("80"),
            unsupported(),
            value("600"),
            value("OL"),
            value("resting"),
        ],
    );
    assert_eq!(report, Some((0x0c, vec![80])));
    assert_eq!(device.state().pending_len(), 2);
    assert!(device.state().is_connected());
    assert_eq!(read(&mut device, vec![]), Some((0x0d, vec![10])));
    assert_eq!(read(&mut device, vec![]), Some((0x07, vec![0x0c, 0x00])));
}

#[test]
fn unsupported_message_of_the_server_is_left_out() {
    let mut device = connected_device();
    let report = read(
        &mut device,
        vec![
            Event::Slept,
            Event::Reply(Err(QueryError::Generic("ERR VAR-NOT-SUPPORTED".to_string()))),
            value("15"),
            Event::Reply(Err(QueryError::Generic("VAR-NOT-SUPPORTED".to_string()))),
            value("OL"),
            unsupported(),
        ],
    );
    assert_eq!(report, Some((0x11, vec![15])));
    assert_eq!(device.state().pending_len(), 1);
    assert_eq!(read(&mut device, vec![]), Some((0x07, vec![0x0c, 0x00])));
}

#[test]
fn nothing_supported_leaves_the_present_status() {
    let mut device = connected_device();
    let report = read(
        &mut device,
        vec![
            Event::Slept,
            unsupported(),
            unsupported(),
            unsupported(),
            unsupported(),
            unsupported(),
        ],
    );
    assert_eq!(report, Some((0x07, vec![0x08, 0x10])));
    assert_eq!(device.state().pending_len(), 0);
    assert!(device.state().is_connected());
}

#[test]
fn unreadable_number_is_left_out() {
    let mut device = connected_device();
    let report = read(
        &mut device,
        vec![
            Event::Slept,
            value("full"),
            value("300"),
            value("many"),
            value("OL"),
            value(""),
        ],
    );
    assert_eq!(report, Some((0x07, vec![0x0c, 0x00])));
    assert_eq!(device.state().pending_len(), 0);
}

#[test]
fn fault_closes_the_session_and_empties_the_queue() {
    let mut device = connected_device();
    assert_eq!(device.read(), Action::Sleep);
    assert_eq!(device.read_step(Event::Slept), query(Variable::BatteryCharge));
    assert_eq!(device.read_step(value("80")), query(Variable::BatteryChargeLow));
    assert_eq!(device.read_step(value("20")), query(Variable::BatteryRuntime));
    assert_eq!(device.state().pending_len(), 2);
    assert_eq!(
        device.read_step(Event::Reply(Err(QueryError::Protocol))),
        Action::Close
    );
    assert_eq!(device.state().pending_len(), 0);
    assert!(!device.state().is_connected());
    assert_eq!(device.state().phase(), Phase::Closing);
    assert_eq!(device.read_step(Event::Closed), Action::Deliver(Some(lost())));
    assert_eq!(device.state().phase(), Phase::Idle);
    assert_eq!(device.state().pending_len(), 0);
}

#[test]
fn fault_at_every_variable() {
    for failing in 0..5 {
        for error in [
            QueryError::Protocol,
            QueryError::Connection,
            QueryError::Generic("UNKNOWN-UPS".to_string()),
        ] {
            let mut device = connected_device();
            let mut events = vec![Event::Slept];
            for _ in 0..failing {
                events.push(value("1"));
            }
            events.push(Event::Reply(Err(error)));
            events.push(Event::Closed);
            assert_eq!(read(&mut device, events), Some(lost()));
            assert_eq!(device.state().pending_len(), 0);
            assert!(!device.state().is_connected());
        }
    }
}

#[test]
fn read_after_fault_connects_again() {
    let mut device = connected_device();
    let report = read(
        &mut device,
        vec![Event::Slept, Event::Reply(Err(QueryError::Connection)), Event::Closed],
    );
    assert_eq!(report, Some(lost()));
    assert_eq!(device.read(), Action::Sleep);
    assert_eq!(
        device.read_step(Event::Slept),
        Action::Connect {
            host: "ups.example".to_string(),
            port: 3493
        }
    );
    assert_eq!(device.read_step(Event::ConnectFailed), Action::Deliver(Some(lost())));
    assert_eq!(read(&mut device, vec![Event::Slept, Event::ConnectFailed]), Some(lost()));
}

#[test]
fn queue_is_read_without_the_network() {
    let mut device = connected_device();
    read(
        &mut device,
        vec![
            Event::Slept,
            value("80"),
            value("20"),
            value("600"),
            value("OL"),
            value(""),
        ],
    );
    assert_eq!(device.state().pending_len(), 3);
    assert_eq!(device.read(), Action::Deliver(Some((0x11, vec![20]))));
    assert_eq!(device.state().phase(), Phase::Idle);
    assert_eq!(device.read(), Action::Deliver(Some((0x0d, vec![10]))));
    assert_eq!(device.read(), Action::Deliver(Some((0x07, vec![0x0c, 0x00]))));
    assert_eq!(device.read(), Action::Sleep);
}

#[test]
fn queue_holds_one_cycle_at_most() {
    let mut device = connected_device();
    for _ in 0..3 {
        assert_eq!(device.read(), Action::Sleep);
        let mut most = 0;
        for event in [
            Event::Slept,
            value("80"),
            value("20"),
            value("600"),
            value("OL"),
            value(""),
        ] {
            device.read_step(event);
            most = most.max(device.state().pending_len());
        }
        assert_eq!(most, 3);
        while device.state().pending_len() > 0 {
            device.read();
        }
    }
}

#[test]
fn stray_events_change_nothing() {
    let mut device = new_nut_device(config());
    assert_eq!(device.read_step(Event::Slept), Action::Deliver(None));
    assert_eq!(device.read_step(value("1")), Action::Deliver(None));
    assert_eq!(device.state().phase(), Phase::Idle);
    assert_eq!(device.read(), Action::Sleep);
    assert_eq!(device.read_step(Event::Closed), Action::Sleep);
    assert_eq!(device.read_step(value("1")), Action::Sleep);
    assert_eq!(device.read(), Action::Sleep);
    assert_eq!(device.state().phase(), Phase::Sleeping);
    device.read_step(Event::Slept);
    assert_eq!(
        device.read_step(Event::Slept),
        Action::Connect {
            host: "ups.example".to_string(),
            port: 3493
        }
    );
    assert_eq!(device.read_step(names(&["ups1"])), query(Variable::BatteryCharge));
    assert_eq!(device.read_step(Event::ConnectFailed), query(Variable::BatteryCharge));
    assert_eq!(device.read(), query(Variable::BatteryCharge));
    assert_eq!(device.state().pending_len(), 0);
}

#[test]
fn status_text_is_combined_with_the_charger() {
    let mut device = connected_device();
    let report = read(
        &mut device,
        vec![
            Event::Slept,
            unsupported(),
            unsupported(),
            unsupported(),
            value("OB LB"),
            value("discharging"),
        ],
    );
    assert_eq!(report, Some((0x07, vec![0x1a, 0x00])));
    let report = read(
        &mut device,
        vec![
            Event::Slept,
            unsupported(),
            unsupported(),
            unsupported(),
            unsupported(),
            value("charging"),
        ],
    );
    assert_eq!(report, Some((0x07, vec![0x09, 0x10])));
}
